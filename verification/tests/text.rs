use oxc_parser_cli::text::{measure, TextExtent};

fn extent(lines: usize, width: usize) -> TextExtent {
    TextExtent { lines, width }
}

#[test]
fn empty_text_has_no_lines() {
    assert_eq!(measure(""), extent(0, 0));
}

#[test]
fn single_line_without_line_feed() {
    assert_eq!(measure("abc"), extent(1, 3));
}

#[test]
fn final_line_feed_opens_no_line() {
    assert_eq!(measure("abc\n"), extent(1, 3));
    assert_eq!(measure("abc"), measure("abc\n"));
}

#[test]
fn two_lines() {
    assert_eq!(measure("line1\nline2"), extent(2, 5));
}

#[test]
fn lone_line_feed_is_one_empty_line() {
    assert_eq!(measure("\n"), extent(1, 0));
    assert_eq!(measure("\n\n"), extent(2, 0));
}

#[test]
fn widest_line_may_stand_anywhere() {
    assert_eq!(measure("a\nbbbb\ncc"), extent(3, 4));
    assert_eq!(measure("aaaaa\nb\ncc"), extent(3, 5));
    assert_eq!(measure("a\nb\nccc"), extent(3, 3));
}

#[test]
fn carriage_return_before_line_feed_is_dropped() {
    assert_eq!(measure("ab\r\ncd"), extent(2, 2));
    assert_eq!(measure("abc\r\n"), extent(1, 3));
    assert_eq!(measure("\r\n"), extent(1, 0));
}

#[test]
fn carriage_return_elsewhere_counts() {
    assert_eq!(measure("baz\r"), extent(1, 4));
    assert_eq!(measure("a\rb\nc"), extent(2, 3));
}

#[test]
fn width_is_counted_in_bytes() {
    assert_eq!(measure("\u{e9}"), extent(1, 2));
    assert_eq!(measure("a\n\u{1f4a1}b"), extent(2, 5));
}

#[test]
fn agrees_with_the_lines_of_std() {
    let samples = [
        "",
        "x",
        "\n",
        "\r",
        "\r\n",
        "\n\r",
        "foo\r\nbar\n\nbaz\r",
        "foo\nbar\n\r\nbaz\n",
        "one\ntwo\nthree",
        "\n\n\n",
        "a\r\r\nb",
        "tab\tand space \n  indented\n",
    ];
    for sample in samples {
        let lines = sample.lines().count();
        let width = sample.lines().map(|line| line.len()).max().unwrap_or(0);
        assert_eq!(measure(sample), extent(lines, width), "sample {:?}", sample);
    }
}
