//! Tests for the text buffer: Unicode-correct insertion, split/merge,
//! cursor and scroll clamping, and the save/read round trip.

use frevi::strutil::{join_lines, split_lines};
use frevi::tabs::Tab;

fn tab_with_line(s: &str) -> Tab {
    let mut t = Tab::new(None);
    for c in s.chars() {
        t.insert_char(c);
    }
    t
}

#[test]
fn insert_ascii_advances_cursor() {
    let mut t = Tab::new(None);
    t.insert_char('h');
    t.insert_char('i');
    assert_eq!(t.buf, vec!["hi".to_string()]);
    assert_eq!(t.cursor_xy, (2, 0));
    assert!(t.changed);
}

#[test]
fn insert_multibyte_counts_characters_not_bytes() {
    let mut t = Tab::new(None);
    for c in "héllo wörld — 漢字".chars() {
        t.insert_char(c);
    }
    let expected = "héllo wörld — 漢字";
    assert_eq!(t.buf[0], expected);
    // the cursor column equals the number of characters before it
    assert_eq!(t.cursor_xy.0, expected.chars().count());
}

#[test]
fn insert_in_middle_of_multibyte_line() {
    let mut t = tab_with_line("aé漢");
    t.move_cursor_left();
    t.move_cursor_left();
    // cursor now after 'a'; inserting must not split the 'é' that follows
    t.insert_char('x');
    assert_eq!(t.buf[0], "axé漢");
    assert_eq!(t.cursor_xy, (2, 0));
}

#[test]
fn split_line_at_cursor_moves_remainder() {
    let mut t = tab_with_line("hello");
    t.move_cursor_left();
    t.move_cursor_left();
    t.split_line();
    assert_eq!(t.buf, vec!["hel".to_string(), "lo".to_string()]);
    assert_eq!(t.cursor_xy, (0, 1));
}

#[test]
fn split_then_backspace_restores_line() {
    let mut t = tab_with_line("héllo wörld");
    t.move_cursor_left();
    t.move_cursor_left();
    t.move_cursor_left();
    let before = t.buf.clone();
    let cursor_before = t.cursor_xy;
    t.split_line();
    t.backspace();
    assert_eq!(t.buf, before);
    assert_eq!(t.cursor_xy, cursor_before);
}

#[test]
fn backspace_at_buffer_start_is_noop() {
    let mut t = Tab::new(None);
    t.backspace();
    assert_eq!(t.buf, vec![String::new()]);
    assert_eq!(t.cursor_xy, (0, 0));
    assert!(!t.changed);
}

#[test]
fn backspace_merges_lines_and_places_cursor() {
    let mut t = tab_with_line("ab");
    t.split_line();
    t.insert_char('c');
    // buffer is ["ab", "c"] with the split at the end of "ab"
    assert_eq!(t.buf, vec!["ab".to_string(), "c".to_string()]);
    t.move_cursor_left();
    t.backspace();
    assert_eq!(t.buf, vec!["abc".to_string()]);
    assert_eq!(t.cursor_xy, (2, 0));
}

#[test]
fn backspace_removes_multibyte_char_left_of_cursor() {
    let mut t = tab_with_line("aéb");
    t.move_cursor_left();
    t.backspace();
    assert_eq!(t.buf[0], "ab");
    assert_eq!(t.cursor_xy, (1, 0));
}

#[test]
fn vertical_moves_clamp_line_and_column() {
    let mut t = tab_with_line("long line");
    t.split_line();
    t.insert_char('x');
    // ["long line", "x"], cursor at (1, 1)
    t.move_cursor_up();
    assert_eq!(t.cursor_xy, (1, 0));
    t.move_cursor_up();
    assert_eq!(t.cursor_xy, (1, 0));
    for _ in 0..20 {
        t.move_cursor_right();
    }
    assert_eq!(t.cursor_xy, (9, 0));
    t.move_cursor_down();
    // column re-clamps to the shorter line
    assert_eq!(t.cursor_xy, (1, 1));
    t.move_cursor_down();
    assert_eq!(t.cursor_xy, (1, 1));
}

#[test]
fn horizontal_moves_stop_at_ends() {
    let mut t = tab_with_line("ab");
    t.move_cursor_right();
    assert_eq!(t.cursor_xy, (2, 0));
    t.move_cursor_left();
    t.move_cursor_left();
    t.move_cursor_left();
    assert_eq!(t.cursor_xy, (0, 0));
}

#[test]
fn scroll_clamps_to_last_line() {
    let mut t = Tab::new(None);
    t.split_line();
    t.split_line();
    // three lines
    t.update_scroll(usize::MAX);
    assert_eq!(t.scroll_offset, 2);
    t.scroll_up(1);
    assert_eq!(t.scroll_offset, 1);
    t.scroll_up(5);
    assert_eq!(t.scroll_offset, 0);
    t.scroll_down(10);
    assert_eq!(t.scroll_offset, 2);
    t.update_scroll(0);
    assert_eq!(t.scroll_offset, 0);
}

#[test]
fn buffer_round_trip_through_text() {
    let mut t = tab_with_line("first é line");
    t.split_line();
    for c in "second".chars() {
        t.insert_char(c);
    }
    let text = join_lines(&t.buf);
    assert_eq!(text, "first é line\nsecond\n");
    let back = split_lines(&text);
    assert_eq!(back, t.buf);
}

#[test]
fn load_text_replaces_lines_and_resets_cursor() {
    let mut t = tab_with_line("old");
    t.load_text("a\nb\n");
    assert_eq!(t.buf, vec!["a".to_string(), "b".to_string()]);
    assert_eq!(t.cursor_xy, (0, 0));
    assert!(!t.changed);
}

#[test]
fn load_empty_text_keeps_one_line() {
    let mut t = tab_with_line("old");
    t.load_text("");
    assert_eq!(t.buf, vec![String::new()]);
}

#[test]
fn str_into_buf_splits_on_newlines() {
    let mut t = Tab::new(None);
    t.str_into_buf("x\ny\nz".to_string());
    assert_eq!(t.buf, vec!["x".to_string(), "y".to_string(), "z".to_string()]);
    assert_eq!(t.cursor_xy, (0, 0));
}

#[test]
fn new_tab_default_name() {
    let t = Tab::new(None);
    assert_eq!(t.displayed_name, "New tab");
    assert_eq!(t.buf, vec![String::new()]);
    let t2 = Tab::new(Some("mine".to_string()));
    assert_eq!(t2.displayed_name, "mine");
}
