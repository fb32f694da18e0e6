use hecto::Row;

#[test]
fn render_prefix_is_min_of_len_and_width() {
    let row = Row::from_text("hello");
    // widths across and past the row's length: result length is min(5, w)
    for w in 0..10usize {
        let rendered = row.render(0, w);
        let expected = if w < 5 { w } else { 5 };
        assert_eq!(rendered.chars().count(), expected);
    }
}

#[test]
fn render_zero_width_is_empty() {
    let row = Row::from_text("hello");
    assert_eq!(row.render(0, 0), "");
    let empty = Row::from_text("");
    assert_eq!(empty.render(0, 0), "");
}

#[test]
fn render_window_middle() {
    let row = Row::from_text("abcdef");
    assert_eq!(row.render(1, 4), "bcd");
}

#[test]
fn render_clamps_end_past_length() {
    let row = Row::from_text("abc");
    assert_eq!(row.render(0, 100), "abc");
    assert_eq!(row.render(2, 100), "c");
}

#[test]
fn render_start_past_length_is_empty() {
    let row = Row::from_text("abc");
    assert_eq!(row.render(7, 9), "");
    assert_eq!(row.render(3, 3), "");
}

#[test]
fn render_start_past_end_is_empty() {
    let row = Row::from_text("abcdef");
    assert_eq!(row.render(4, 2), "");
}

#[test]
fn len_counts_characters() {
    assert_eq!(Row::from_text("").len(), 0);
    assert!(Row::from_text("").is_empty());
    assert_eq!(Row::from_text("abc").len(), 3);
    assert!(!Row::from_text("abc").is_empty());
}
