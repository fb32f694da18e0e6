use hecto::Document;
use hecto::Editor;
use hecto::Position;
use hecto::Row;
use hecto::Size;
use hecto::terminal_coords;
use hecto::welcome_banner;
use hecto::WELCOME_MESSAGE;

#[test]
fn banner_is_centered_and_marked() {
    // width 10, message of 2: padding (10-2)/2 = 4, one space given up
    // for the marker, so three spaces follow it
    assert_eq!(welcome_banner("hi", 10), "~   hi");
}

#[test]
fn banner_length_is_min_of_width_and_parts() {
    let msg = "hello";
    for w in 0..30usize {
        let banner = welcome_banner(msg, w);
        let padding = if w > 5 { (w - 5) / 2 } else { 0 };
        let spaces = if padding > 0 { padding - 1 } else { 0 };
        let expected = (1 + spaces + 5).min(w);
        assert_eq!(banner.chars().count(), expected);
        if w >= 1 {
            assert!(banner.starts_with('~'));
        }
    }
}

#[test]
fn banner_truncates_to_width() {
    assert_eq!(welcome_banner("abcdef", 4), "~abc");
    assert_eq!(welcome_banner("abcdef", 0), "");
}

#[test]
fn empty_document_frame_shows_the_banner_at_a_third() {
    // empty document in an 80 by 24 viewport: 23 rows are drawn, row
    // 24/3 = 8 holds the centered welcome banner, the rest placeholders
    let e = Editor::new(Document::default(), Size { width: 80, height: 24 });
    let lines = e.render_rows();
    assert_eq!(lines.len(), 23);
    let expected_banner = welcome_banner(WELCOME_MESSAGE, 80);
    for (i, line) in lines.iter().enumerate() {
        if i == 8 {
            assert_eq!(line, &expected_banner);
            assert!(line.starts_with('~'));
            assert!(line.contains(WELCOME_MESSAGE));
        } else {
            assert_eq!(line, "~");
        }
    }
}

#[test]
fn loaded_document_frame_shows_lines_then_placeholders() {
    // three lines in a viewport of height 10: rows 0 to 2 verbatim,
    // rows 3 to 8 placeholders, row 9 reserved and not drawn
    let doc = Document::from_text("a\nbb\nccc");
    let e = Editor::new(doc, Size { width: 80, height: 10 });
    let lines = e.render_rows();
    assert_eq!(lines.len(), 9);
    assert_eq!(lines[0], "a");
    assert_eq!(lines[1], "bb");
    assert_eq!(lines[2], "ccc");
    for line in &lines[3..9] {
        assert_eq!(line, "~");
    }
}

#[test]
fn no_banner_when_the_document_has_lines() {
    let doc = Document::from_text("only");
    let e = Editor::new(doc, Size { width: 80, height: 24 });
    let lines = e.render_rows();
    assert_eq!(lines[8], "~");
}

#[test]
fn frame_lines_are_cut_to_the_viewport_width() {
    let doc = Document::from_text("abcdefgh");
    let e = Editor::new(doc, Size { width: 4, height: 10 });
    let lines = e.render_rows();
    assert_eq!(lines[0], "abcd");
}

#[test]
fn render_row_uses_the_viewport_width() {
    let e = Editor::new(Document::default(), Size { width: 3, height: 10 });
    let row = Row::from_text("abcdef");
    assert_eq!(e.render_row(&row), "abc");
}

#[test]
fn zero_height_viewport_draws_nothing() {
    let e = Editor::new(Document::default(), Size { width: 80, height: 0 });
    assert_eq!(e.render_rows().len(), 0);
    let e1 = Editor::new(Document::default(), Size { width: 80, height: 1 });
    assert_eq!(e1.render_rows().len(), 0);
}

#[test]
fn terminal_coords_are_one_based() {
    assert_eq!(terminal_coords(&Position { x: 0, y: 0 }), (1, 1));
    assert_eq!(terminal_coords(&Position { x: 9, y: 4 }), (10, 5));
}

#[test]
fn terminal_coords_saturate_at_the_protocol_maximum() {
    let p = Position { x: usize::MAX, y: 65534 };
    assert_eq!(terminal_coords(&p), (u16::MAX, u16::MAX));
}
