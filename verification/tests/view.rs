use oxc_parser_cli::model::{AppModel, FocusRegion, NaviEvent};
use oxc_parser_cli::parser::ParseResult;
use oxc_parser_cli::view::{file_row, render, row_label};

fn model(names: &[&str]) -> AppModel {
    AppModel::new(names.iter().map(|name| name.to_string()).collect())
}

#[test]
fn screen_before_any_selection() {
    let screen = render(&model(&["a.ts"]));
    assert_eq!(screen.list_title, "Files [TAB: switch focus]");
    assert_eq!(screen.content_title, "Content");
    assert_eq!(screen.focus, FocusRegion::FileList);
    assert_eq!(screen.selected, None);
    assert_eq!(screen.rows, vec!["a.ts".to_string()]);
    assert!(screen.placeholder);
    assert_eq!(
        screen.body,
        "Select a file to view its contents\n\n\u{1f4a1} Use \u{2191}\u{2193} to navigate files\n   TAB to switch focus"
    );
    assert_eq!(screen.scroll, (0, 0));
    assert_eq!(screen.vertical_bar, (0, 0));
    assert_eq!(screen.horizontal_bar, (0, 0));
}

#[test]
fn screen_while_loading() {
    let mut model = model(&["a.ts", "b.ts"]);
    model.handle_navi_event(NaviEvent::Down);
    model.handle_navi_event(NaviEvent::Down);
    let screen = render(&model);
    assert_eq!(screen.selected, Some(1));
    assert_eq!(screen.body, "Loading...");
    assert!(!screen.placeholder);
}

#[test]
fn screen_with_content_in_focus() {
    let mut model = model(&["a.ts"]);
    model.handle_navi_event(NaviEvent::Down);
    model.handle_parse_result("a.ts", ParseResult::Success("abc\nde\nf".to_string()));
    model.handle_navi_event(NaviEvent::Tab);
    model.handle_navi_event(NaviEvent::Down);
    model.handle_navi_event(NaviEvent::ShiftRight);
    let screen = render(&model);
    assert_eq!(screen.list_title, "Files");
    assert_eq!(
        screen.content_title,
        "Content [TAB: switch focus | \u{2190}\u{2192}\u{2191}\u{2193}: scroll(+SHIFT: jump)]"
    );
    assert_eq!(screen.focus, FocusRegion::Content);
    assert_eq!(screen.selected, Some(0));
    assert_eq!(screen.body, "abc\nde\nf");
    assert!(!screen.placeholder);
    assert_eq!(screen.scroll, (1, 3));
    assert_eq!(screen.vertical_bar, (3, 1));
    assert_eq!(screen.horizontal_bar, (3, 3));
}

#[test]
fn screen_with_an_error() {
    let mut model = model(&["a.ts"]);
    model.handle_navi_event(NaviEvent::Down);
    model.handle_parse_result("a.ts", ParseResult::Error("parse failed".to_string()));
    let screen = render(&model);
    assert_eq!(screen.body, "parse failed");
    assert!(!screen.placeholder);
    assert_eq!(screen.vertical_bar, (1, 0));
    assert_eq!(screen.horizontal_bar, (12, 0));
}

#[test]
fn offsets_beyond_sixteen_bits_are_truncated() {
    let mut text = String::new();
    for _ in 0..70_000 {
        text.push('\n');
    }
    let mut model = model(&["a.ts"]);
    model.handle_navi_event(NaviEvent::Down);
    model.handle_parse_result("a.ts", ParseResult::Success(text));
    model.handle_navi_event(NaviEvent::Tab);
    model.handle_navi_event(NaviEvent::ShiftDown);
    let screen = render(&model);
    assert_eq!(screen.vertical_bar, (70_000, 70_000));
    assert_eq!(screen.scroll, (4_464, 0));
}

#[test]
fn rendering_leaves_the_model_as_it_is() {
    let mut model = model(&["a.ts"]);
    model.handle_navi_event(NaviEvent::Down);
    let first = render(&model);
    let second = render(&model);
    assert_eq!(first, second);
    assert_eq!(model.selected(), Some(0));
}

#[test]
fn rows_show_file_names_in_list_order() {
    let model = model(&["/src/b.ts", "dir/a.js", "c.tsx", "/deep/er/dir/d.mjs"]);
    let screen = render(&model);
    assert_eq!(
        screen.rows,
        vec!["b.ts".to_string(), "a.js".to_string(), "c.tsx".to_string(), "d.mjs".to_string()]
    );
}

#[test]
fn rows_of_an_empty_list() {
    let screen = render(&model(&[]));
    assert!(screen.rows.is_empty());
    assert_eq!(screen.selected, None);
}

#[test]
fn rows_do_not_depend_on_selection_or_focus() {
    let mut model = model(&["x/a.ts", "x/b.ts"]);
    let before = render(&model).rows;
    model.handle_navi_event(NaviEvent::Down);
    model.handle_navi_event(NaviEvent::Tab);
    let screen = render(&model);
    assert_eq!(screen.rows, before);
    assert_eq!(screen.rows, vec!["a.ts".to_string(), "b.ts".to_string()]);
    assert_eq!(screen.selected, Some(0));
}

#[test]
fn row_of_a_path_without_file_name() {
    assert_eq!(file_row(""), "Unknown");
    assert_eq!(file_row("/"), "Unknown");
    assert_eq!(file_row(".."), "Unknown");
    assert_eq!(file_row("dir/.."), "Unknown");
    let screen = render(&model(&["..", "a.ts"]));
    assert_eq!(screen.rows, vec!["Unknown".to_string(), "a.ts".to_string()]);
}

#[test]
fn row_of_a_path_with_file_name() {
    assert_eq!(file_row("a.ts"), "a.ts");
    assert_eq!(file_row("dir/sub/a.ts"), "a.ts");
    assert_eq!(file_row("dir/sub/"), "sub");
    assert_eq!(file_row("caf\u{e9}/\u{e9}t\u{e9}.ts"), "\u{e9}t\u{e9}.ts");
}

#[test]
fn row_label_is_the_name_or_unknown() {
    assert_eq!(row_label(Some("a.ts".to_string())), "a.ts");
    assert_eq!(row_label(Some(String::new())), "");
    assert_eq!(row_label(None), "Unknown");
}
