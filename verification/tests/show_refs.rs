use gitu::items::{blank_line, Item, TargetData};
use gitu::screen::show_refs::{
    comes_before, create, create_prefix, create_reference_items, create_remotes_sections,
    create_tags_section, RefInfo, RefKind, RefStyles,
};
use ratatui::style::{Color, Style};
use std::collections::hash_map::DefaultHasher;
use std::hash::{Hash, Hasher};

fn reference(name: &str, shorthand: &str, kind: RefKind, remote: &str) -> RefInfo {
    RefInfo {
        name: name.to_string(),
        shorthand: shorthand.to_string(),
        kind,
        is_head: false,
        at_head_target: false,
        remote: remote.to_string(),
    }
}

fn styles() -> RefStyles {
    RefStyles {
        section_header: Style::default().fg(Color::Yellow),
        branch: Style::default().fg(Color::Green),
        remote: Style::default().fg(Color::Red),
        tag: Style::default().fg(Color::Blue),
        plain: Style::default(),
    }
}

fn refs() -> Vec<RefInfo> {
    vec![
        RefInfo { is_head: true, ..reference("refs/heads/main", "main", RefKind::Branch, "") },
        reference("refs/remotes/upstream/main", "upstream/main", RefKind::Remote, "upstream"),
        reference("refs/notes/commits", "notes/commits", RefKind::Other, ""),
        reference("refs/remotes/origin/main", "origin/main", RefKind::Remote, "origin"),
        reference("refs/tags/v1", "v1", RefKind::Tag, ""),
        reference("refs/heads/topic", "topic", RefKind::Branch, ""),
        reference("refs/remotes/upstream/dev", "upstream/dev", RefKind::Remote, "upstream"),
        reference("refs/remotes/origin/dev", "origin/dev", RefKind::Remote, "origin"),
    ]
}

fn shape(items: &[Item]) -> Vec<(String, usize, bool, bool)> {
    items
        .iter()
        .map(|item| (item.display.0.clone(), item.depth, item.section, item.unselectable))
        .collect()
}

fn row(text: &str, depth: usize, section: bool, unselectable: bool) -> (String, usize, bool, bool) {
    (text.to_string(), depth, section, unselectable)
}

fn std_hash(text: &str) -> u64 {
    let mut hasher = DefaultHasher::new();
    text.hash(&mut hasher);
    hasher.finish()
}

#[test]
fn blank_line_is_empty_and_unselectable() {
    let item = blank_line(Style::default());
    assert_eq!(item.id, 0);
    assert_eq!(item.display, (String::new(), Style::default()));
    assert_eq!(item.depth, 0);
    assert!(item.unselectable);
    assert!(!item.section);
    assert!(item.target_data.is_none());
}

#[test]
fn prefix_marks_the_head() {
    let plain = reference("refs/heads/a", "a", RefKind::Branch, "");
    let head = RefInfo { is_head: true, ..reference("refs/heads/a", "a", RefKind::Branch, "") };
    let at = RefInfo { at_head_target: true, ..reference("refs/heads/a", "a", RefKind::Branch, "") };
    assert_eq!(create_prefix(false, &plain), "  ");
    assert_eq!(create_prefix(false, &head), "* ");
    assert_eq!(create_prefix(false, &at), "  ");
    assert_eq!(create_prefix(true, &plain), "  ");
    assert_eq!(create_prefix(true, &head), "  ");
    assert_eq!(create_prefix(true, &at), "? ");
}

#[test]
fn texts_are_ordered_by_their_bytes() {
    assert!(comes_before("a", "b"));
    assert!(!comes_before("b", "a"));
    assert!(!comes_before("a", "a"));
    assert!(comes_before("", "a"));
    assert!(!comes_before("a", ""));
    assert!(!comes_before("", ""));
    assert!(comes_before("ab", "abc"));
    assert!(comes_before("Z", "a"));
    assert!(comes_before("z", "\u{e9}"));
    for (a, b) in [("origin", "upstream"), ("x1", "x"), ("\u{e9}", "\u{4e2d}")] {
        assert_eq!(comes_before(a, b), a < b);
        assert_eq!(comes_before(b, a), b < a);
    }
}

#[test]
fn reference_items_take_the_references_of_one_kind() {
    let mut items = vec![blank_line(Style::default())];
    create_reference_items(&mut items, &refs(), RefKind::Branch, "", false, styles().branch);
    assert_eq!(
        shape(&items),
        vec![row("", 0, false, true), row("* main", 1, false, false), row("  topic", 1, false, false)]
    );
    assert_eq!(items[1].id, std_hash("refs/heads/main"));
    assert_eq!(items[1].display.1, styles().branch);
    match &items[2].target_data {
        Some(TargetData::Branch(name)) => assert_eq!(name, "topic"),
        _ => panic!("a reference item names its branch"),
    }
    let mut remote = Vec::new();
    create_reference_items(&mut remote, &refs(), RefKind::Remote, "origin", false, styles().remote);
    assert_eq!(
        shape(&remote),
        vec![row("  origin/main", 1, false, false), row("  origin/dev", 1, false, false)]
    );
}

#[test]
fn remotes_come_in_the_order_of_their_names() {
    let mut items = Vec::new();
    create_remotes_sections(&mut items, &refs(), false, &styles());
    assert_eq!(
        shape(&items),
        vec![
            row("", 0, false, true),
            row("Remote origin", 0, true, false),
            row("  origin/main", 1, false, false),
            row("  origin/dev", 1, false, false),
            row("", 0, false, true),
            row("Remote upstream", 0, true, false),
            row("  upstream/main", 1, false, false),
            row("  upstream/dev", 1, false, false),
        ]
    );
    assert_eq!(items[1].id, std_hash("origin"));
    assert_eq!(items[1].display.1, styles().section_header);
    assert_eq!(items[2].display.1, styles().remote);
}

#[test]
fn tags_section_is_left_out_without_tags() {
    let mut items = Vec::new();
    let mut without_tags = refs();
    without_tags.truncate(4);
    create_tags_section(&mut items, &without_tags, false, &styles());
    assert!(items.is_empty());
    create_tags_section(&mut items, &refs(), false, &styles());
    assert_eq!(
        shape(&items),
        vec![row("", 0, false, true), row("Tags", 0, true, false), row("  v1", 1, false, false)]
    );
    assert_eq!(items[1].id, std_hash("tags"));
    assert_eq!(items[2].display.1, styles().tag);
}

#[test]
fn the_outline_lists_branches_remotes_and_tags() {
    let items = create(&refs(), false, &styles());
    assert_eq!(
        shape(&items),
        vec![
            row("Branches", 0, true, false),
            row("* main", 1, false, false),
            row("  topic", 1, false, false),
            row("", 0, false, true),
            row("Remote origin", 0, true, false),
            row("  origin/main", 1, false, false),
            row("  origin/dev", 1, false, false),
            row("", 0, false, true),
            row("Remote upstream", 0, true, false),
            row("  upstream/main", 1, false, false),
            row("  upstream/dev", 1, false, false),
            row("", 0, false, true),
            row("Tags", 0, true, false),
            row("  v1", 1, false, false),
        ]
    );
    assert_eq!(items[0].id, std_hash("local_branches"));
    assert_ne!(items[1].id, items[2].id);
    assert_eq!(items[1].id, create(&refs(), true, &styles())[1].id);
    assert_eq!(shape(&create(&Vec::new(), true, &styles())), vec![row("Branches", 0, true, false)]);
}
