use rui::event::Key;
use rui::state_store::{Runtime, StateHandle};
use rui::text_editor::TextEditorState;
use rui::url_query::parse_url_query_string;

fn editor(cursor: usize) -> TextEditorState {
    TextEditorState { cursor, selection_start: None, lines: vec![] }
}

fn no_closest(_a: usize, _b: usize) -> usize {
    0
}

#[test]
fn type_then_backspace_restores_text() {
    let mut s = editor(2);
    let t = s.key(&Key::Character('x'), "abcd".to_string(), false, &no_closest);
    assert_eq!(t, "abxcd");
    assert_eq!(s.cursor, 3);
    let t = s.key(&Key::Backspace, t, false, &no_closest);
    assert_eq!(t, "abcd");
    assert_eq!(s.cursor, 2);
}

#[test]
fn fwd_then_back_returns_cursor() {
    let mut s = editor(1);
    let t = s.key(&Key::ArrowRight, "abc".to_string(), true, &no_closest);
    let t = s.key(&Key::ArrowLeft, t, true, &no_closest);
    assert_eq!(t, "abc");
    assert_eq!(s.cursor, 1);
    assert_eq!(s.selection_start, Some(1));
}

#[test]
fn backspace_and_delete_agree_on_selection() {
    let mut a = TextEditorState { cursor: 4, selection_start: Some(1), lines: vec![] };
    let mut b = TextEditorState { cursor: 4, selection_start: Some(1), lines: vec![] };
    let ta = a.key(&Key::Backspace, "abcdef".to_string(), false, &no_closest);
    let tb = b.key(&Key::Delete, "abcdef".to_string(), false, &no_closest);
    assert_eq!(ta, "aef");
    assert_eq!(ta, tb);
    assert_eq!(a.cursor, 1);
    assert_eq!(b.cursor, 1);
}

#[test]
fn edits_keep_cursor_in_text() {
    let mut s = editor(3);
    let t = s.key(&Key::End, "abc".to_string(), false, &no_closest);
    let t = s.key(&Key::Delete, t, false, &no_closest);
    assert_eq!(t, "abc");
    assert_eq!(s.cursor, 3);
    let t = s.key(&Key::Backspace, t, false, &no_closest);
    assert_eq!(t, "ab");
    assert!(s.cursor <= t.len());
    let t = s.key(&Key::Home, t, true, &no_closest);
    assert_eq!(s.cursor, 0);
    assert_eq!(s.selection_start, Some(2));
    let t = s.key(&Key::Space, t, false, &no_closest);
    assert_eq!(t, " ");
    assert_eq!(s.cursor, 1);
}

#[test]
fn selection_range_is_ordered() {
    let s = TextEditorState { cursor: 1, selection_start: Some(4), lines: vec![] };
    assert_eq!(s.selection_range(), Some((1, 4)));
    let s = TextEditorState { cursor: 4, selection_start: Some(1), lines: vec![] };
    assert_eq!(s.selection_range(), Some((1, 4)));
    assert_eq!(editor(2).selection_range(), None);
}

#[test]
fn state_read_after_write_and_others_untouched() {
    let mut rt: Runtime<i32> = Runtime::new();
    let a = StateHandle::new(&mut rt, 1, 10);
    let b = StateHandle::new(&mut rt, 2, 20);
    assert_eq!(*a.value(&rt), 10);
    assert_eq!(*b.value(&rt), 20);
    let a2 = StateHandle::new(&mut rt, 1, 11);
    assert_eq!(*a2.value(&rt), 11);
    assert_eq!(*b.value(&rt), 20);
}

#[test]
fn url_query_lookup() {
    assert_eq!(parse_url_query_string("?a=1&b=two", "b"), Some("two"));
    assert_eq!(parse_url_query_string("?a=1&b=two", "a"), Some("1"));
    assert_eq!(parse_url_query_string("?a=1&b=two", "c"), None);
    assert_eq!(parse_url_query_string("a=1", "a"), None);
    assert_eq!(parse_url_query_string("", "a"), None);
    assert_eq!(parse_url_query_string("?ab=1&a=2", "a"), Some("2"));
    assert_eq!(parse_url_query_string("?a&b=1", "b"), Some("1"));
    assert_eq!(parse_url_query_string("?verbose&RUST_LOG=info", "RUST_LOG"), Some("info"));
    assert_eq!(parse_url_query_string("?verbose", "verbose"), None);
    assert_eq!(parse_url_query_string("?RUST_LOG=debug=x", "RUST_LOG"), Some("debug"));
}
