//! Stashing: the switches of the stash menu, the command lines of its
//! operations, and what they ask of the state of the working tree.

use crate::items::TargetData;
use crate::menu::arg::Arg;
use crate::screen::{Screen, ScreenData};
use vstd::prelude::*;
use vstd::string::StringExecFns;

verus! {

/// The switches of the stash menu.
pub fn init_args() -> (args: Vec<Arg>)
    ensures
        args@.len() == 2,
        args@[0].arg@ == "--include-untracked"@,
        args@[0].display@ == "Also save untracked files"@,
        args@[0].active(),
        args@[1].arg@ == "--all"@,
        args@[1].display@ == "Also save untracked and ignored files"@,
        !args@[1].active(),
{
    let mut args: Vec<Arg> = Vec::new();
    args.push(Arg::new_flag("--include-untracked", "Also save untracked files", true));
    args.push(Arg::new_flag("--all", "Also save untracked and ignored files", false));
    args
}

/// The words of a command line, each as its characters.
pub open spec fn words(line: Seq<String>) -> Seq<Seq<char>> {
    Seq::new(line.len(), |i: int| line[i]@)
}

/// The words that hand a stash message to the command, or none for an
/// empty message.
pub open spec fn message_words(input: Seq<char>) -> Seq<Seq<char>> {
    if input.len() == 0 {
        Seq::empty()
    } else {
        seq!["--message"@, input]
    }
}

fn push_word(line: &mut Vec<String>, word: &str)
    ensures
        words(final(line)@) == words(old(line)@).push(word@),
{
    line.push(word.to_owned());
    assert(words(line@) =~= words(old(line)@).push(word@));
}

fn push_words(line: &mut Vec<String>, more: &Vec<String>)
    ensures
        words(final(line)@) == words(old(line)@) + words(more@),
{
    let mut i: usize = 0;
    assert(words(line@) =~= words(old(line)@) + words(more@).subrange(0, 0));
    while i < more.len()
        invariant
            i <= more.len(),
            words(line@) == words(old(line)@) + words(more@).subrange(0, i as int),
        decreases more.len() - i,
    {
        let ghost before = line@;
        line.push(more[i].clone());
        assert(words(line@) =~= words(before).push(more@[i as int]@));
        assert(words(line@) =~= words(old(line)@) + words(more@).subrange(0, i + 1));
        i += 1;
    }
    assert(words(more@).subrange(0, more@.len() as int) =~= words(more@));
}

fn push_message(line: &mut Vec<String>, input: &str)
    ensures
        words(final(line)@) == words(old(line)@) + message_words(input@),
{
    if !input.is_empty() {
        push_word(line, "--message");
        push_word(line, input);
    }
    assert(words(line@) =~= words(old(line)@) + message_words(input@));
}

/// The command line that stashes the index and the working tree: the
/// switches of the menu that are on, and the message if there is one.
pub fn stash_push(menu_args: &Vec<String>, input: &str) -> (line: Vec<String>)
    ensures
        words(line@) == seq!["stash"@, "push"@] + words(menu_args@) + message_words(input@),
{
    let mut line: Vec<String> = Vec::new();
    push_word(&mut line, "stash");
    push_word(&mut line, "push");
    assert(words(line@) =~= seq!["stash"@, "push"@]);
    push_words(&mut line, menu_args);
    push_message(&mut line, input);
    line
}

/// The command line that stashes the index alone. It takes none of the
/// menu's switches, which the command does not allow beside `--staged`.
pub fn stash_push_index(input: &str) -> (line: Vec<String>)
    ensures
        words(line@) == seq!["stash"@, "push"@, "--staged"@] + message_words(input@),
{
    let mut line: Vec<String> = Vec::new();
    push_word(&mut line, "stash");
    push_word(&mut line, "push");
    push_word(&mut line, "--staged");
    assert(words(line@) =~= seq!["stash"@, "push"@, "--staged"@]);
    push_message(&mut line, input);
    line
}

/// The command line that stashes everything and leaves the index as it
/// is.
pub fn stash_push_keep_index(menu_args: &Vec<String>, input: &str) -> (line: Vec<String>)
    ensures
        words(line@) == seq!["stash"@, "push"@, "--keep-index"@] + words(menu_args@)
            + message_words(input@),
{
    let mut line: Vec<String> = Vec::new();
    push_word(&mut line, "stash");
    push_word(&mut line, "push");
    push_word(&mut line, "--keep-index");
    assert(words(line@) =~= seq!["stash"@, "push"@, "--keep-index"@]);
    push_words(&mut line, menu_args);
    push_message(&mut line, input);
    line
}

/// The command line that pops the stash named by `input`.
pub fn stash_pop(input: &str) -> (line: Vec<String>)
    ensures
        words(line@) == seq!["stash"@, "pop"@, "-q"@, input@],
{
    let mut line: Vec<String> = Vec::new();
    push_word(&mut line, "stash");
    push_word(&mut line, "pop");
    push_word(&mut line, "-q");
    push_word(&mut line, input);
    assert(words(line@) =~= seq!["stash"@, "pop"@, "-q"@, input@]);
    line
}

/// The command line that applies the stash named by `input`.
pub fn stash_apply(input: &str) -> (line: Vec<String>)
    ensures
        words(line@) == seq!["stash"@, "apply"@, "-q"@, input@],
{
    let mut line: Vec<String> = Vec::new();
    push_word(&mut line, "stash");
    push_word(&mut line, "apply");
    push_word(&mut line, "-q");
    push_word(&mut line, input);
    assert(words(line@) =~= seq!["stash"@, "apply"@, "-q"@, input@]);
    line
}

/// The command line that drops the stash named by `input`.
pub fn stash_drop(input: &str) -> (line: Vec<String>)
    ensures
        words(line@) == seq!["stash"@, "drop"@, input@],
{
    let mut line: Vec<String> = Vec::new();
    push_word(&mut line, "stash");
    push_word(&mut line, "drop");
    push_word(&mut line, input);
    assert(words(line@) =~= seq!["stash"@, "drop"@, input@]);
    line
}

/// The command lines that stash the working tree alone, in the order in
/// which they run.
pub open spec fn worktree_plan(
    need_to_stash_index: bool,
    menu_args: Seq<Seq<char>>,
    input: Seq<char>,
) -> Seq<Seq<Seq<char>>> {
    let push = seq!["stash"@, "push"@] + menu_args + message_words(input);
    if need_to_stash_index {
        seq![seq!["stash"@, "push"@, "--staged"@], push, seq!["stash"@, "pop"@, "-q"@, "1"@]]
    } else {
        seq![push]
    }
}

/// The command lines that stash the working tree alone. Where something
/// is staged, the index is stashed first and popped again at the end, so
/// that the stash in between holds the working tree only.
pub fn stash_worktree(need_to_stash_index: bool, menu_args: &Vec<String>, input: &str) -> (plan:
    Vec<Vec<String>>)
    ensures
        plan@.len() == worktree_plan(need_to_stash_index, words(menu_args@), input@).len(),
        forall|i: int|
            0 <= i < plan@.len() ==> words(#[trigger] plan@[i]@) == worktree_plan(
                need_to_stash_index,
                words(menu_args@),
                input@,
            )[i],
{
    let mut plan: Vec<Vec<String>> = Vec::new();
    if need_to_stash_index {
        plan.push(stash_push_index(""));
        assert(message_words(""@) =~= Seq::empty()) by {
            reveal_strlit("");
        }
        assert(words(plan@[0]@) =~= seq!["stash"@, "push"@, "--staged"@]);
    }
    plan.push(stash_push(menu_args, input));
    if need_to_stash_index {
        plan.push(stash_pop("1"));
    }
    plan
}

/// What the repository says of one path: how it differs between the last
/// commit and the index, and between the index and the working tree.
#[derive(Clone, Copy, Debug, PartialEq, Eq, Structural)]
pub struct PathStatus {
    pub index_new: bool,
    pub index_modified: bool,
    pub index_deleted: bool,
    pub index_renamed: bool,
    pub index_typechange: bool,
    pub wt_new: bool,
    pub wt_modified: bool,
    pub wt_deleted: bool,
    pub wt_renamed: bool,
    pub wt_typechange: bool,
}

impl PathStatus {
    /// The path differs between the index and the working tree.
    pub open spec fn changed_in_worktree(self) -> bool {
        self.wt_new || self.wt_modified || self.wt_deleted || self.wt_renamed
            || self.wt_typechange
    }

    /// The path differs between the last commit and the index.
    pub open spec fn staged(self) -> bool {
        self.index_new || self.index_modified || self.index_deleted || self.index_renamed
            || self.index_typechange
    }
}

/// Whether no path differs between the index and the working tree.
pub fn is_working_tree_empty(statuses: &Vec<PathStatus>) -> (empty: bool)
    ensures
        empty == forall|i: int|
            0 <= i < statuses@.len() ==> !(#[trigger] statuses@[i]).changed_in_worktree(),
{
    let mut i: usize = 0;
    while i < statuses.len()
        invariant
            i <= statuses.len(),
            forall|j: int| 0 <= j < i ==> !(#[trigger] statuses@[j]).changed_in_worktree(),
        decreases statuses.len() - i,
    {
        let e = &statuses[i];
        if e.wt_new || e.wt_modified || e.wt_deleted || e.wt_renamed || e.wt_typechange {
            return false;
        }
        i += 1;
    }
    true
}

/// Whether some path differs between the last commit and the index.
pub fn is_something_staged(statuses: &Vec<PathStatus>) -> (staged: bool)
    ensures
        staged == exists|i: int| 0 <= i < statuses@.len() && (#[trigger] statuses@[i]).staged(),
{
    let mut i: usize = 0;
    while i < statuses.len()
        invariant
            i <= statuses.len(),
            forall|j: int| 0 <= j < i ==> !(#[trigger] statuses@[j]).staged(),
        decreases statuses.len() - i,
    {
        let e = &statuses[i];
        if e.index_new || e.index_modified || e.index_deleted || e.index_renamed
            || e.index_typechange {
            return true;
        }
        i += 1;
    }
    false
}

/// The decimal digit for a number below ten.
pub open spec fn digit(d: nat) -> char {
    if d == 0 {
        '0'
    } else if d == 1 {
        '1'
    } else if d == 2 {
        '2'
    } else if d == 3 {
        '3'
    } else if d == 4 {
        '4'
    } else if d == 5 {
        '5'
    } else if d == 6 {
        '6'
    } else if d == 7 {
        '7'
    } else if d == 8 {
        '8'
    } else {
        '9'
    }
}

/// A number in decimal, without leading zeros.
pub open spec fn decimal(n: nat) -> Seq<char>
    decreases n,
{
    if n < 10 {
        seq![digit(n)]
    } else {
        decimal(n / 10).push(digit(n % 10))
    }
}

fn digit_str(d: usize) -> (s: &'static str)
    requires
        d < 10,
    ensures
        s@ == seq![digit(d as nat)],
{
    proof {
        reveal_strlit("0");
        reveal_strlit("1");
        reveal_strlit("2");
        reveal_strlit("3");
        reveal_strlit("4");
        reveal_strlit("5");
        reveal_strlit("6");
        reveal_strlit("7");
        reveal_strlit("8");
        reveal_strlit("9");
    }
    let s = if d == 0 {
        "0"
    } else if d == 1 {
        "1"
    } else if d == 2 {
        "2"
    } else if d == 3 {
        "3"
    } else if d == 4 {
        "4"
    } else if d == 5 {
        "5"
    } else if d == 6 {
        "6"
    } else if d == 7 {
        "7"
    } else if d == 8 {
        "8"
    } else {
        "9"
    };
    assert(s@ =~= seq![digit(d as nat)]);
    s
}

/// Writes a number in decimal.
pub fn decimal_string(n: usize) -> (s: String)
    ensures
        s@ == decimal(n as nat),
    decreases n,
{
    if n < 10 {
        digit_str(n).to_owned()
    } else {
        let s = decimal_string(n / 10).concat(digit_str(n % 10));
        assert(s@ =~= decimal(n as nat));
        s
    }
}

/// The number of the stash that an item stands for, or 0 for any other
/// item.
pub open spec fn stash_number(target: Option<TargetData>) -> nat {
    match target {
        Some(TargetData::Stash { id, .. }) => id as nat,
        _ => 0,
    }
}

/// The stash that a stash operation offers as its default: the selected
/// one, or the newest where the selected item is no stash.
pub fn selected_stash<D: ScreenData>(screen: &Screen<D>) -> (stash: Option<String>)
    requires
        screen.wf(),
        screen@.len() > 0,
    ensures
        stash matches Some(name) && name@ == decimal(
            stash_number(screen@.items[screen@.cursor].target_data),
        ),
{
    match &screen.get_selected_item().target_data {
        Some(TargetData::Stash { commit: _, id }) => Some(decimal_string(*id)),
        _ => Some(decimal_string(0)),
    }
}

} // verus!
