//! The outline of a repository's references: the local branches, the
//! remote branches under one section for each remote, and the tags.

use crate::items::{blank_line, blank_line_view, hash, hashed, views, Item, ItemView, TargetData, TargetView};
use vstd::prelude::*;
use vstd::string::StringExecFns;
use vstd::utf8::encode_utf8;

verus! {

/// What kind of reference a name is.
#[derive(Clone, Copy, Debug, PartialEq, Eq, Structural)]
pub enum RefKind {
    Branch,
    Remote,
    Tag,
    Other,
}

/// One reference of the repository, as the outline needs it.
#[derive(Debug)]
pub struct RefInfo {
    /// The full name, such as `refs/heads/main`.
    pub name: String,
    /// The short name, such as `main`.
    pub shorthand: String,
    pub kind: RefKind,
    /// Whether `HEAD` is the reference of this name.
    pub is_head: bool,
    /// Whether the reference points at the commit that `HEAD` points at.
    pub at_head_target: bool,
    /// For a remote branch, the name of its remote.
    pub remote: String,
}

/// The styles of the outline's parts.
#[derive(Clone, Copy, Debug)]
pub struct RefStyles {
    pub section_header: ratatui::style::Style,
    pub branch: ratatui::style::Style,
    pub remote: ratatui::style::Style,
    pub tag: ratatui::style::Style,
    pub plain: ratatui::style::Style,
}

/// The mark before a reference's name: `* ` on the checked out branch,
/// `? ` on a reference at the commit of a detached `HEAD`, two blanks on
/// any other.
pub open spec fn prefix(head_detached: bool, reference: RefInfo) -> Seq<char> {
    if head_detached {
        if reference.at_head_target {
            "? "@
        } else {
            "  "@
        }
    } else if reference.is_head {
        "* "@
    } else {
        "  "@
    }
}

pub fn create_prefix(head_detached: bool, reference: &RefInfo) -> (mark: &'static str)
    ensures
        mark@ == prefix(head_detached, *reference),
{
    if head_detached {
        if reference.at_head_target {
            "? "
        } else {
            "  "
        }
    } else if reference.is_head {
        "* "
    } else {
        "  "
    }
}

/// The item of a reference.
pub open spec fn reference_item(
    reference: RefInfo,
    head_detached: bool,
    style: ratatui::style::Style,
) -> ItemView {
    ItemView {
        id: hashed(reference.name@),
        display: prefix(head_detached, reference) + reference.shorthand@,
        style,
        depth: 1,
        section: false,
        unselectable: false,
        target_data: Some(TargetView::Branch(reference.shorthand@)),
    }
}

/// The item of a section header.
pub open spec fn header_item(
    identity: Seq<char>,
    title: Seq<char>,
    style: ratatui::style::Style,
) -> ItemView {
    ItemView {
        id: hashed(identity),
        display: title,
        style,
        depth: 0,
        section: true,
        unselectable: false,
        target_data: None,
    }
}

fn create_header(identity: &str, title: String, style: ratatui::style::Style) -> (item: Item)
    ensures
        item@ == header_item(identity@, title@, style),
{
    Item {
        id: hash(identity),
        display: (title, style),
        depth: 0,
        section: true,
        unselectable: false,
        target_data: None,
    }
}

/// Whether a reference belongs under the heading of `kind`, and, for a
/// remote branch, of the remote `remote`.
pub open spec fn belongs(reference: RefInfo, kind: RefKind, remote: Seq<char>) -> bool {
    reference.kind == kind && (kind == RefKind::Remote ==> reference.remote@ == remote)
}

/// The items of those among the first `n` references that belong under
/// the given heading, in their order.
pub open spec fn reference_items(
    refs: Seq<RefInfo>,
    n: int,
    kind: RefKind,
    remote: Seq<char>,
    head_detached: bool,
    style: ratatui::style::Style,
) -> Seq<ItemView>
    decreases n,
{
    if n <= 0 {
        Seq::empty()
    } else {
        let rest = reference_items(refs, n - 1, kind, remote, head_detached, style);
        if belongs(refs[n - 1], kind, remote) {
            rest.push(reference_item(refs[n - 1], head_detached, style))
        } else {
            rest
        }
    }
}

/// Appends to `items` the items of the references that belong under the
/// given heading.
pub fn create_reference_items(
    items: &mut Vec<Item>,
    refs: &Vec<RefInfo>,
    kind: RefKind,
    remote: &str,
    head_detached: bool,
    style: ratatui::style::Style,
)
    ensures
        views(final(items)@) == views(old(items)@) + reference_items(
            refs@,
            refs@.len() as int,
            kind,
            remote@,
            head_detached,
            style,
        ),
{
    let mut i: usize = 0;
    assert(views(items@) =~= views(old(items)@) + reference_items(
        refs@,
        0,
        kind,
        remote@,
        head_detached,
        style,
    ));
    while i < refs.len()
        invariant
            i <= refs.len(),
            views(items@) == views(old(items)@) + reference_items(
                refs@,
                i as int,
                kind,
                remote@,
                head_detached,
                style,
            ),
        decreases refs.len() - i,
    {
        let reference = &refs[i];
        let under_heading = match kind {
            RefKind::Remote => reference.kind == RefKind::Remote && str_eq(
                reference.remote.as_str(),
                remote,
            ),
            _ => reference.kind == kind,
        };
        if under_heading {
            let ghost before = items@;
            let item = Item {
                id: hash(reference.name.as_str()),
                display: (
                    create_prefix(head_detached, reference).to_owned().concat(
                        reference.shorthand.as_str(),
                    ),
                    style,
                ),
                depth: 1,
                section: false,
                unselectable: false,
                target_data: Some(TargetData::Branch(reference.shorthand.clone())),
            };
            assert(item@ == reference_item(*reference, head_detached, style));
            items.push(item);
            assert(views(items@) =~= views(before).push(item@));
        }
        i += 1;
    }
}

fn str_eq(a: &str, b: &str) -> (equal: bool)
    ensures
        equal == (a@ == b@),
{
    let a = a.to_owned();
    let b = b.to_owned();
    a == b
}

/// Whether `a` comes before `b` when the two are compared byte by byte
/// from index `i` on, given that they agree before `i`.
pub open spec fn bytes_precede(a: Seq<u8>, b: Seq<u8>, i: int) -> bool
    decreases a.len() - i,
{
    if i >= b.len() {
        false
    } else if i >= a.len() {
        true
    } else if a[i] != b[i] {
        a[i] < b[i]
    } else {
        bytes_precede(a, b, i + 1)
    }
}

/// The order of texts: that of their encoded bytes.
pub open spec fn precedes(a: Seq<char>, b: Seq<char>) -> bool {
    bytes_precede(encode_utf8(a), encode_utf8(b), 0)
}

/// Whether `a` comes before `b` in the order of texts.
pub fn comes_before(a: &str, b: &str) -> (before: bool)
    ensures
        before == precedes(a@, b@),
{
    let x = a.as_bytes();
    let y = b.as_bytes();
    let mut i: usize = 0;
    while i < x.len() && i < y.len() && x[i] == y[i]
        invariant
            i <= x.len(),
            i <= y.len(),
            bytes_precede(x@, y@, 0) == bytes_precede(x@, y@, i as int),
        decreases x.len() - i,
    {
        i += 1;
    }
    if i >= y.len() {
        false
    } else if i >= x.len() {
        true
    } else {
        x[i] < y[i]
    }
}

/// The place of `name` in the ordered list `names`: the first index whose
/// name does not come before it.
pub open spec fn place_of(names: Seq<Seq<char>>, name: Seq<char>, k: int) -> int
    decreases names.len() - k,
{
    if k >= names.len() || !precedes(names[k], name) {
        k
    } else {
        place_of(names, name, k + 1)
    }
}

/// The ordered list with `name` put in at its place, unless it is there.
pub open spec fn with_name(names: Seq<Seq<char>>, name: Seq<char>) -> Seq<Seq<char>> {
    let k = place_of(names, name, 0);
    if k < names.len() && names[k] == name {
        names
    } else {
        names.insert(k, name)
    }
}

/// The names of the remotes of the first `n` references, each once, in
/// the order of texts.
pub open spec fn remote_names(refs: Seq<RefInfo>, n: int) -> Seq<Seq<char>>
    decreases n,
{
    if n <= 0 {
        Seq::empty()
    } else {
        let rest = remote_names(refs, n - 1);
        if refs[n - 1].kind == RefKind::Remote {
            with_name(rest, refs[n - 1].remote@)
        } else {
            rest
        }
    }
}

/// The texts of a list of strings.
pub open spec fn texts(names: Seq<String>) -> Seq<Seq<char>> {
    Seq::new(names.len(), |i: int| names[i]@)
}

fn collect_remote_names(refs: &Vec<RefInfo>) -> (names: Vec<String>)
    ensures
        texts(names@) == remote_names(refs@, refs@.len() as int),
{
    let mut names: Vec<String> = Vec::new();
    let mut i: usize = 0;
    assert(texts(names@) =~= remote_names(refs@, 0));
    while i < refs.len()
        invariant
            i <= refs.len(),
            texts(names@) == remote_names(refs@, i as int),
        decreases refs.len() - i,
    {
        let reference = &refs[i];
        if reference.kind == RefKind::Remote {
            let ghost before = texts(names@);
            let mut k: usize = 0;
            while k < names.len() && comes_before(names[k].as_str(), reference.remote.as_str())
                invariant
                    k <= names.len(),
                    before == texts(names@),
                    place_of(before, reference.remote@, 0) == place_of(
                        before,
                        reference.remote@,
                        k as int,
                    ),
                decreases names.len() - k,
            {
                k += 1;
            }
            if !(k < names.len() && str_eq(names[k].as_str(), reference.remote.as_str())) {
                names.insert(k, reference.remote.clone());
                assert(texts(names@) =~= before.insert(k as int, reference.remote@));
            }
        }
        i += 1;
    }
    names
}

/// The section of one remote: a blank line, the header, and the remote's
/// branches.
pub open spec fn remote_section(
    refs: Seq<RefInfo>,
    remote: Seq<char>,
    head_detached: bool,
    styles: RefStyles,
) -> Seq<ItemView> {
    seq![
        blank_line_view(styles.plain),
        header_item(remote, "Remote "@ + remote, styles.section_header),
    ] + reference_items(
        refs,
        refs.len() as int,
        RefKind::Remote,
        remote,
        head_detached,
        styles.remote,
    )
}

/// The sections of the first `m` of the remotes `names`.
pub open spec fn remotes_sections(
    refs: Seq<RefInfo>,
    names: Seq<Seq<char>>,
    m: int,
    head_detached: bool,
    styles: RefStyles,
) -> Seq<ItemView>
    decreases m,
{
    if m <= 0 {
        Seq::empty()
    } else {
        remotes_sections(refs, names, m - 1, head_detached, styles) + remote_section(
            refs,
            names[m - 1],
            head_detached,
            styles,
        )
    }
}

/// Appends to `items` one section for each remote, the remotes in the
/// order of their names.
pub fn create_remotes_sections(
    items: &mut Vec<Item>,
    refs: &Vec<RefInfo>,
    head_detached: bool,
    styles: &RefStyles,
)
    ensures
        views(final(items)@) == views(old(items)@) + remotes_sections(
            refs@,
            remote_names(refs@, refs@.len() as int),
            remote_names(refs@, refs@.len() as int).len() as int,
            head_detached,
            *styles,
        ),
{
    let names = collect_remote_names(refs);
    let ghost all = texts(names@);
    let mut m: usize = 0;
    assert(views(items@) =~= views(old(items)@) + remotes_sections(
        refs@,
        all,
        0,
        head_detached,
        *styles,
    ));
    while m < names.len()
        invariant
            m <= names.len(),
            all == texts(names@),
            views(items@) == views(old(items)@) + remotes_sections(
                refs@,
                all,
                m as int,
                head_detached,
                *styles,
            ),
        decreases names.len() - m,
    {
        let ghost before = views(items@);
        let name = names[m].as_str();
        items.push(blank_line(styles.plain));
        items.push(create_header(name, "Remote ".to_owned().concat(name), styles.section_header));
        assert(views(items@) =~= before + seq![
            blank_line_view(styles.plain),
            header_item(name@, "Remote "@ + name@, styles.section_header),
        ]);
        create_reference_items(items, refs, RefKind::Remote, name, head_detached, styles.remote);
        assert(views(items@) =~= before + remote_section(refs@, all[m as int], head_detached, *styles));
        m += 1;
    }
}

/// The section of the tags: a blank line, the header and the tags, or
/// nothing where there is no tag.
pub open spec fn tags_section(refs: Seq<RefInfo>, head_detached: bool, styles: RefStyles) -> Seq<
    ItemView,
> {
    let tags = reference_items(
        refs,
        refs.len() as int,
        RefKind::Tag,
        Seq::empty(),
        head_detached,
        styles.tag,
    );
    if tags.len() == 0 {
        Seq::empty()
    } else {
        seq![blank_line_view(styles.plain), header_item("tags"@, "Tags"@, styles.section_header)]
            + tags
    }
}

/// Appends to `items` the section of the tags, if there are tags.
pub fn create_tags_section(
    items: &mut Vec<Item>,
    refs: &Vec<RefInfo>,
    head_detached: bool,
    styles: &RefStyles,
)
    ensures
        views(final(items)@) == views(old(items)@) + tags_section(refs@, head_detached, *styles),
{
    let mut tags: Vec<Item> = Vec::new();
    create_reference_items(&mut tags, refs, RefKind::Tag, "", head_detached, styles.tag);
    proof {
        reveal_strlit("");
        assert(""@ =~= Seq::<char>::empty());
        assert(views(tags@) =~= reference_items(
            refs@,
            refs@.len() as int,
            RefKind::Tag,
            Seq::empty(),
            head_detached,
            styles.tag,
        ));
    }
    if tags.len() > 0 {
        let ghost before = views(items@);
        items.push(blank_line(styles.plain));
        items.push(create_header("tags", "Tags".to_owned(), styles.section_header));
        assert(views(items@) =~= before + seq![
            blank_line_view(styles.plain),
            header_item("tags"@, "Tags"@, styles.section_header),
        ]);
        let ghost headed = views(items@);
        let mut i: usize = 0;
        while i < tags.len()
            invariant
                i <= tags.len(),
                views(items@) == headed + views(tags@).subrange(0, i as int),
            decreases tags.len() - i,
        {
            let ghost so_far = views(items@);
            items.push(tags[i].clone());
            assert(views(items@) =~= so_far.push(tags@[i as int]@));
            assert(views(items@) =~= headed + views(tags@).subrange(0, i + 1));
            i += 1;
        }
        assert(views(tags@).subrange(0, tags@.len() as int) =~= views(tags@));
        assert(views(items@) =~= before + tags_section(refs@, head_detached, *styles));
    } else {
        assert(views(items@) =~= views(old(items)@) + tags_section(refs@, head_detached, *styles));
    }
}

/// The outline of the references: the header of the local branches and
/// the branches, then the sections of the remotes, then that of the tags.
pub open spec fn outline(refs: Seq<RefInfo>, head_detached: bool, styles: RefStyles) -> Seq<
    ItemView,
> {
    seq![header_item("local_branches"@, "Branches"@, styles.section_header)] + reference_items(
        refs,
        refs.len() as int,
        RefKind::Branch,
        Seq::empty(),
        head_detached,
        styles.branch,
    ) + remotes_sections(
        refs,
        remote_names(refs, refs.len() as int),
        remote_names(refs, refs.len() as int).len() as int,
        head_detached,
        styles,
    ) + tags_section(refs, head_detached, styles)
}

/// The items of the screen that shows the references.
pub fn create(refs: &Vec<RefInfo>, head_detached: bool, styles: &RefStyles) -> (items: Vec<Item>)
    ensures
        views(items@) == outline(refs@, head_detached, *styles),
{
    let mut items: Vec<Item> = Vec::new();
    items.push(create_header("local_branches", "Branches".to_owned(), styles.section_header));
    assert(views(items@) =~= seq![
        header_item("local_branches"@, "Branches"@, styles.section_header),
    ]);
    create_reference_items(&mut items, refs, RefKind::Branch, "", head_detached, styles.branch);
    proof {
        reveal_strlit("");
        assert(""@ =~= Seq::<char>::empty());
    }
    create_remotes_sections(&mut items, refs, head_detached, styles);
    create_tags_section(&mut items, refs, head_detached, styles);
    items
}

} // verus!
