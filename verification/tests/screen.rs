use gitu::items::{Item, TargetData};
use gitu::screen::view::{Highlight, Row};
use gitu::screen::visibility::visible_indices;
use gitu::screen::{Screen, ScreenData, ScreenError};
use ratatui::style::{Color, Style};
use ratatui::text::Line;
use std::cell::RefCell;
use std::rc::Rc;
use vstd::hash_set::StringHashSet;

struct Fixed(Vec<Item>);

impl ScreenData for Fixed {
    type Error = String;

    fn items(&self) -> Result<Vec<Item>, String> {
        Ok(self.0.clone())
    }
}

struct Shared(Rc<RefCell<Result<Vec<Item>, String>>>);

impl ScreenData for Shared {
    type Error = String;

    fn items(&self) -> Result<Vec<Item>, String> {
        self.0.borrow().clone()
    }
}

fn item(text: &str, depth: usize) -> Item {
    Item {
        id: 0,
        display: (text.to_string(), Style::default()),
        depth,
        section: false,
        unselectable: false,
        target_data: None,
    }
}

fn section(text: &str, depth: usize) -> Item {
    Item { section: true, ..item(text, depth) }
}

fn blank() -> Item {
    Item { unselectable: true, ..item("", 0) }
}

fn screen(height: u16, items: Vec<Item>) -> Screen<Fixed> {
    Screen::new((80, height), Fixed(items)).unwrap()
}

fn text_of(line: &Line<'static>) -> String {
    line.spans.iter().map(|span| span.content.to_string()).collect()
}

fn shown_text(screen: &Screen<Fixed>) -> Vec<String> {
    screen.ui_lines().iter().map(|l| text_of(&l.line)).collect()
}

fn highlights(rows: &[Row]) -> Vec<Highlight> {
    rows.iter().map(|row| row.highlight).collect()
}

fn ten_items() -> Vec<Item> {
    (0..10).map(|i| item(&format!("item {}", i), 0)).collect()
}

fn outline() -> Vec<Item> {
    vec![section("Header", 0), item("FileA", 1), item("FileB", 1)]
}

#[test]
fn collapse_header_hides_files_and_expand_shows_them_again() {
    let mut screen = screen(10, outline());
    assert_eq!(screen.collapsed_items_iter(), vec![0, 1, 2]);
    screen.toggle_section();
    assert_eq!(screen.collapsed_items_iter(), vec![0]);
    assert_eq!(screen.items().len(), 3);
    screen.toggle_section();
    assert_eq!(screen.collapsed_items_iter(), vec![0, 1, 2]);
}

#[test]
fn select_next_to_the_last_of_ten_scrolls_to_seven() {
    let mut screen = screen(3, ten_items());
    for _ in 0..9 {
        screen.select_next();
    }
    assert_eq!(screen.cursor(), 9);
    assert_eq!(screen.scroll(), 7);
    let rows = screen.render(3);
    assert_eq!(rows.iter().map(|row| row.line).collect::<Vec<_>>(), vec![7, 8, 9]);
    assert_eq!(rows[2].highlight, Highlight::Selected);
}

#[test]
fn a_three_line_item_takes_three_rendered_lines() {
    let mut screen = screen(2, vec![item("a\nb\nc", 0), item("d", 0)]);
    assert_eq!(screen.ui_lines().len(), 4);
    assert_eq!(
        screen.ui_lines().iter().map(|l| l.item_index).collect::<Vec<_>>(),
        vec![0, 0, 0, 1]
    );
    assert_eq!(shown_text(&screen), vec!["a", "b", "c", "d"]);
    let index = screen.collapsed_lines_items_iter();
    assert_eq!(index.len(), 2);
    assert_eq!((index[0].line, index[0].index, index[0].count), (0, 0, 3));
    assert_eq!((index[1].line, index[1].index, index[1].count), (3, 1, 1));
    screen.select_next();
    assert_eq!(screen.cursor(), 1);
    assert_eq!(screen.scroll(), 2);
}

#[test]
fn highlight_covers_the_subtree_of_the_selected_item() {
    let mut screen = screen(10, vec![section("A", 0), item("B", 1), item("C", 1)]);
    assert_eq!(
        highlights(&screen.render(10)),
        vec![Highlight::Selected, Highlight::Dim, Highlight::Dim]
    );
    screen.select_next();
    assert_eq!(screen.cursor(), 1);
    assert_eq!(
        highlights(&screen.render(10)),
        vec![Highlight::Plain, Highlight::Selected, Highlight::Plain]
    );
}

#[test]
fn highlight_needs_the_selected_row_inside_the_viewport() {
    let mut screen = screen(
        2,
        vec![section("A", 0), item("B", 1), item("C", 1), item("D", 1), item("E", 0)],
    );
    screen.scroll_half_page_down();
    assert_eq!(screen.scroll(), 1);
    let rows = screen.render(2);
    assert_eq!(rows.iter().map(|row| row.line).collect::<Vec<_>>(), vec![1, 2]);
    assert_eq!(highlights(&rows), vec![Highlight::Plain, Highlight::Plain]);
}

#[test]
fn render_shows_no_more_rows_than_lines_are_left() {
    let mut screen = screen(4, ten_items());
    assert_eq!(screen.render(4).len(), 4);
    assert_eq!(screen.render(0).len(), 0);
    for _ in 0..5 {
        screen.scroll_half_page_down();
    }
    assert_eq!(screen.scroll(), 10);
    assert_eq!(screen.render(4).len(), 0);
    screen.scroll_half_page_up();
    assert_eq!(screen.scroll(), 8);
    assert_eq!(screen.render(4).iter().map(|row| row.line).collect::<Vec<_>>(), vec![8, 9]);
}

#[test]
fn visibility_filter_skips_nested_collapsed_subtrees() {
    let items = vec![
        section("outer", 0),
        section("inner", 1),
        item("leaf", 2),
        item("sibling", 1),
        section("other", 0),
        item("kept", 1),
    ];
    let mut collapsed = StringHashSet::new();
    assert_eq!(visible_indices(&items, &collapsed), vec![0, 1, 2, 3, 4, 5]);
    collapsed.insert("inner".to_string());
    assert_eq!(visible_indices(&items, &collapsed), vec![0, 1, 3, 4, 5]);
    collapsed.insert("outer".to_string());
    assert_eq!(visible_indices(&items, &collapsed), vec![0, 4, 5]);
    collapsed.remove("inner");
    assert_eq!(visible_indices(&items, &collapsed), vec![0, 4, 5]);
}

#[test]
fn visibility_filter_ignores_keys_of_items_that_are_no_sections() {
    let items = vec![item("plain", 0), item("child", 1)];
    let mut collapsed = StringHashSet::new();
    collapsed.insert("plain".to_string());
    assert_eq!(visible_indices(&items, &collapsed), vec![0, 1]);
    assert_eq!(visible_indices(&Vec::new(), &collapsed), Vec::<usize>::new());
}

#[test]
fn sections_of_the_same_text_collapse_as_one() {
    let mut screen = screen(
        10,
        vec![section("Same", 0), item("a", 1), section("Same", 0), item("b", 1)],
    );
    screen.toggle_section();
    assert_eq!(screen.collapsed_items_iter(), vec![0, 2]);
    assert!(screen.is_collapsed(&section("Same", 5)));
    assert!(!screen.is_collapsed(&section("Other", 0)));
}

#[test]
fn select_next_then_previous_returns_to_the_start() {
    let mut screen = screen(
        5,
        vec![item("a", 0), blank(), section("s", 0), item("b", 1), item("c", 0)],
    );
    screen.select_next();
    assert_eq!(screen.cursor(), 2);
    screen.toggle_section();
    screen.select_next();
    assert_eq!(screen.cursor(), 4);
    screen.select_previous();
    assert_eq!(screen.cursor(), 2);
    screen.select_previous();
    assert_eq!(screen.cursor(), 0);
    screen.select_previous();
    assert_eq!(screen.cursor(), 0);
}

#[test]
fn select_next_at_the_last_selectable_item_stays() {
    let mut screen = screen(3, vec![item("a", 0), item("b", 0), blank()]);
    screen.select_next();
    assert_eq!(screen.cursor(), 1);
    assert_eq!(screen.find_next(), 1);
    let scroll = screen.scroll();
    screen.select_next();
    screen.select_next();
    assert_eq!(screen.cursor(), 1);
    assert_eq!(screen.scroll(), scroll);
}

#[test]
fn toggling_twice_restores_the_rendered_lines() {
    let mut screen = screen(10, outline());
    let before = shown_text(&screen);
    assert_eq!(before, vec!["Header", "FileA", "FileB"]);
    screen.toggle_section();
    assert_eq!(shown_text(&screen), vec!["Header\u{2026}"]);
    assert!(screen.ui_lines()[0].truncated);
    screen.toggle_section();
    assert_eq!(shown_text(&screen), before);
    assert!(screen.ui_lines().iter().all(|l| !l.truncated));
}

#[test]
fn toggling_an_item_that_is_no_section_changes_nothing() {
    let mut screen = screen(10, outline());
    screen.select_next();
    screen.toggle_section();
    assert_eq!(screen.collapsed_items_iter(), vec![0, 1, 2]);
    assert!(!screen.is_collapsed(&item("FileA", 1)));
}

#[test]
fn marker_goes_on_the_last_line_of_a_section_that_hides_something() {
    let mut screen = screen(10, vec![section("two\nlines", 0), item("child", 1)]);
    screen.toggle_section();
    assert_eq!(shown_text(&screen), vec!["two", "lines\u{2026}"]);
    assert_eq!(
        screen.ui_lines().iter().map(|l| l.truncated).collect::<Vec<_>>(),
        vec![false, true]
    );
}

#[test]
fn collapsing_a_section_without_children_shows_no_marker() {
    let mut screen = screen(10, vec![section("empty", 0), item("next", 0)]);
    screen.toggle_section();
    assert!(screen.is_collapsed(&section("empty", 0)));
    assert_eq!(shown_text(&screen), vec!["empty", "next"]);
    assert!(!screen.ui_lines()[0].truncated);
}

#[test]
fn a_blank_last_line_gets_no_marker() {
    let mut screen = screen(10, vec![section("head\n\n", 0), item("child", 1)]);
    assert_eq!(shown_text(&screen)[..2], ["head".to_string(), String::new()]);
    screen.toggle_section();
    assert_eq!(shown_text(&screen), vec!["head", ""]);
    assert!(screen.ui_lines().iter().all(|l| !l.truncated));
}

#[test]
fn the_cursor_starts_on_the_first_selectable_item() {
    let screen = screen(10, vec![blank(), item("a", 0)]);
    assert_eq!(screen.cursor(), 1);
    assert_eq!(screen.get_selected_item().display.0, "a");
}

#[test]
fn a_screen_without_items_can_be_navigated() {
    let mut screen = screen(10, Vec::new());
    screen.select_next();
    screen.select_previous();
    screen.toggle_section();
    screen.scroll_half_page_down();
    screen.scroll_half_page_up();
    screen.clamp_cursor();
    assert_eq!(screen.cursor(), 0);
    assert_eq!(screen.scroll(), 0);
    assert_eq!(screen.find_next(), 0);
    assert!(screen.render(10).is_empty());
    assert!(screen.collapsed_items_iter().is_empty());
}

#[test]
fn update_moves_the_cursor_onto_a_selectable_item() {
    let shared = Rc::new(RefCell::new(Ok(ten_items())));
    let mut screen = Screen::new((80, 3), Shared(shared.clone())).unwrap();
    for _ in 0..9 {
        screen.select_next();
    }
    assert_eq!((screen.cursor(), screen.scroll()), (9, 7));
    *shared.borrow_mut() = Ok(vec![item("a", 0), item("b", 0), blank()]);
    screen.update().unwrap();
    assert_eq!(screen.items().len(), 3);
    assert_eq!(screen.cursor(), 1);
    assert_eq!(screen.scroll(), 3);
    *shared.borrow_mut() = Ok(vec![blank(), blank(), item("c", 0)]);
    screen.update().unwrap();
    assert_eq!(screen.cursor(), 2);
    *shared.borrow_mut() = Ok(vec![blank()]);
    screen.update().unwrap();
    assert_eq!(screen.cursor(), 0);
    assert_eq!(screen.scroll(), 1);
    *shared.borrow_mut() = Ok(Vec::new());
    screen.update().unwrap();
    assert_eq!((screen.cursor(), screen.scroll()), (0, 0));
}

#[test]
fn update_keeps_the_collapse_set_and_leaves_hidden_items() {
    let shared = Rc::new(RefCell::new(Ok(vec![
        item("top", 0),
        section("Header", 0),
        item("a", 1),
        item("b", 1),
    ])));
    let mut screen = Screen::new((80, 10), Shared(shared.clone())).unwrap();
    screen.select_next();
    screen.toggle_section();
    *shared.borrow_mut() = Ok(vec![section("Header", 0), item("a", 1), item("b", 1)]);
    screen.update().unwrap();
    assert_eq!(screen.collapsed_items_iter(), vec![0]);
    assert_eq!(screen.cursor(), 0);
    *shared.borrow_mut() = Ok(vec![section("Header (2)", 0), item("a", 1), item("b", 1)]);
    screen.update().unwrap();
    assert_eq!(screen.collapsed_items_iter(), vec![0, 1, 2]);
}

#[test]
fn a_failing_source_leaves_the_screen_as_it_is() {
    let shared = Rc::new(RefCell::new(Ok(ten_items())));
    let mut screen = Screen::new((80, 3), Shared(shared.clone())).unwrap();
    screen.select_next();
    screen.select_next();
    *shared.borrow_mut() = Err("no repository".to_string());
    match screen.update() {
        Err(ScreenError::Provider(message)) => assert_eq!(message, "no repository"),
        _ => panic!("the update should fail"),
    }
    assert_eq!(screen.items().len(), 10);
    assert_eq!(screen.cursor(), 2);
    assert_eq!(screen.ui_lines().len(), 10);
    assert!(matches!(
        Screen::new((80, 3), Shared(shared.clone())),
        Err(ScreenError::Provider(_))
    ));
}

#[test]
fn hiding_the_selected_item_moves_the_cursor_to_a_shown_one() {
    let mut screen = screen(10, vec![section("X", 0), section("X", 1), item("leaf", 2)]);
    screen.select_next();
    assert_eq!(screen.cursor(), 1);
    screen.toggle_section();
    assert_eq!(screen.collapsed_items_iter(), vec![0]);
    assert_eq!(screen.cursor(), 0);
    screen.toggle_section();
    assert_eq!(screen.collapsed_items_iter(), vec![0, 1, 2]);
}

#[test]
fn collapsing_cuts_the_scroll_offset_down_to_the_lines_left() {
    let mut items = vec![section("all", 0)];
    items.extend((0..9).map(|i| item(&format!("child {}", i), 1)));
    let mut screen = screen(4, items);
    screen.scroll_half_page_down();
    screen.scroll_half_page_down();
    screen.scroll_half_page_down();
    assert_eq!(screen.scroll(), 6);
    screen.toggle_section();
    assert_eq!(screen.ui_lines().len(), 1);
    assert_eq!(screen.scroll(), 1);
}

#[test]
fn half_pages_are_half_the_height_rounded_down() {
    let mut screen = screen(5, ten_items());
    screen.scroll_half_page_down();
    assert_eq!(screen.scroll(), 2);
    screen.scroll_half_page_down();
    screen.scroll_half_page_up();
    assert_eq!(screen.scroll(), 2);
    screen.scroll_half_page_up();
    screen.scroll_half_page_up();
    assert_eq!(screen.scroll(), 0);
    assert_eq!(screen.cursor(), 0);
    assert_eq!(screen.size(), (80, 5));
}

#[test]
fn fit_end_shows_the_whole_subtree_of_the_selection() {
    let mut screen = screen(
        3,
        vec![item("a", 0), section("s", 0), item("x", 1), item("y", 1), item("z", 1), item("b", 0)],
    );
    screen.select_next();
    assert_eq!(screen.cursor(), 1);
    assert_eq!(screen.scroll(), 1);
    screen.select_next();
    assert_eq!(screen.cursor(), 2);
    assert_eq!(screen.scroll(), 1);
}

#[test]
fn fit_start_moves_the_viewport_up_to_the_context() {
    let mut screen = screen(
        2,
        vec![section("s", 0), item("x", 1), item("y", 1), item("z", 1)],
    );
    for _ in 0..3 {
        screen.select_next();
    }
    assert_eq!((screen.cursor(), screen.scroll()), (3, 2));
    screen.select_previous();
    assert_eq!((screen.cursor(), screen.scroll()), (2, 2));
    screen.select_previous();
    assert_eq!((screen.cursor(), screen.scroll()), (1, 0));
    assert!(screen.selected_or_direct_ancestor(0));
    assert!(screen.selected_or_direct_ancestor(1));
    assert!(!screen.selected_or_direct_ancestor(2));
}

#[test]
fn escapes_in_the_display_text_become_styles() {
    let screen = screen(10, vec![item("plain \u{1b}[31mred\u{1b}[0m", 0)]);
    let line = &screen.ui_lines()[0].line;
    assert_eq!(text_of(line), "plain red");
    assert_eq!(line.width(), 9);
    assert!(line.spans.iter().any(|span| span.content == "red"
        && span.style.fg == Some(Color::Red)));
}

#[test]
fn the_style_of_an_item_is_patched_onto_its_lines() {
    let style = Style::default().fg(Color::Green);
    let items = vec![Item { display: ("a\nb".to_string(), style), ..item("", 0) }];
    let screen = screen(10, items);
    assert_eq!(screen.ui_lines().len(), 2);
    assert!(screen.ui_lines().iter().all(|l| l.line.style == style));
    assert_eq!(screen.ui_lines()[1].item.display.1, style);
}

#[test]
fn with_texts_takes_the_lines_as_they_are_given() {
    let items = vec![section("h", 0), item("x", 1)];
    let texts = vec![vec![Line::from("one"), Line::from("two")], vec![Line::from("three")]];
    let mut screen = Screen::with_texts((80, 10), Fixed(Vec::new()), items, texts);
    assert_eq!(shown_text(&screen), vec!["one", "two", "three"]);
    screen.toggle_section();
    assert_eq!(shown_text(&screen), vec!["one", "two\u{2026}"]);
    screen.replace_texts(vec![item("y", 0)], vec![vec![Line::from("four")]]);
    assert_eq!(shown_text(&screen), vec!["four"]);
    screen.replace_items(vec![item("z", 0), item("w", 0)]).unwrap();
    assert_eq!(shown_text(&screen), vec!["z", "w"]);
}

#[test]
fn the_selected_item_hands_out_its_target() {
    let items = vec![
        item("a", 0),
        Item {
            target_data: Some(TargetData::Branch("main".to_string())),
            ..item("main", 0)
        },
    ];
    let mut screen = screen(10, items);
    assert!(screen.get_selected_item().target_data.is_none());
    screen.select_next();
    match &screen.get_selected_item().target_data {
        Some(TargetData::Branch(name)) => assert_eq!(name, "main"),
        _ => panic!("the selected item is a branch"),
    }
}
