use rui::event::Key;
use rui::text_editor::{LineMetrics, TextEditorState};

/// Glyph rectangles `(x, y, width, height)` for lines of the given lengths:
/// each glyph 10 wide and 20 tall, lines stacked downwards.
fn glyph_rects(line_lengths: &[usize]) -> Vec<(f32, f32, f32, f32)> {
    let mut rects = vec![];
    for (line_idx, &len) in line_lengths.iter().enumerate() {
        let y = -(line_idx as f32) * 20.0;
        for i in 0..len {
            rects.push((i as f32 * 10.0, y, 10.0, 20.0));
        }
    }
    rects
}

/// Where the cursor is drawn.
fn cursor_pos(s: &TextEditorState, rects: &[(f32, f32, f32, f32)]) -> (f32, f32) {
    if s.cursor == rects.len() {
        if let Some(r) = rects.last() {
            (r.0 + r.2, r.1)
        } else {
            (0.0, -20.0)
        }
    } else {
        (rects[s.cursor].0, rects[s.cursor].1)
    }
}

/// The glyph in `start..end` whose origin is closest to `p`.
fn closest_in_range(p: (f32, f32), start: usize, end: usize, rects: &[(f32, f32, f32, f32)]) -> usize {
    let mut d = f32::MAX;
    let mut closest = 0;
    for i in start..end {
        let dx = rects[i].0 - p.0;
        let dy = rects[i].1 - p.1;
        let dp = (dx * dx + dy * dy).sqrt();
        if dp < d {
            closest = i;
            d = dp;
        }
    }
    closest
}

fn make_state(cursor: usize, text_len: usize) -> TextEditorState {
    TextEditorState {
        cursor,
        selection_start: None,
        lines: vec![LineMetrics { glyph_start: 0, glyph_end: text_len }],
    }
}

fn make_multiline_state(cursor: usize, line_lengths: &[usize]) -> TextEditorState {
    let mut lines = vec![];
    let mut glyph_start = 0;
    for &len in line_lengths {
        lines.push(LineMetrics { glyph_start, glyph_end: glyph_start + len });
        glyph_start += len;
    }
    TextEditorState { cursor, selection_start: None, lines }
}

fn down(s: &mut TextEditorState, line_lengths: &[usize], extend: bool) {
    let rects = glyph_rects(line_lengths);
    let p = cursor_pos(s, &rects);
    s.down(extend, &|a: usize, b: usize| closest_in_range(p, a, b, &rects));
}

fn up(s: &mut TextEditorState, line_lengths: &[usize], extend: bool) {
    let rects = glyph_rects(line_lengths);
    let p = cursor_pos(s, &rects);
    s.up(extend, &|a: usize, b: usize| closest_in_range(p, a, b, &rects));
}

fn no_lines(a: usize, _b: usize) -> usize {
    a
}

fn key(s: &mut TextEditorState, k: Key, text: &str, shift: bool) -> String {
    s.key(&k, text.to_string(), shift, &no_lines)
}

#[test]
fn test_fwd_and_back() {
    let mut s = make_state(0, 5);
    s.fwd(5, false);
    assert_eq!(s.cursor, 1);
    s.fwd(5, false);
    assert_eq!(s.cursor, 2);
    s.back(false);
    assert_eq!(s.cursor, 1);
    s.back(false);
    assert_eq!(s.cursor, 0);
    // Can't go before 0
    s.back(false);
    assert_eq!(s.cursor, 0);
}

#[test]
fn test_fwd_clamps_at_end() {
    let mut s = make_state(5, 5);
    s.fwd(5, false);
    assert_eq!(s.cursor, 5);
}

#[test]
fn test_selection_with_shift() {
    let mut s = make_state(2, 5);
    // Move right with shift to start selection
    s.fwd(5, true);
    assert_eq!(s.cursor, 3);
    assert_eq!(s.selection_start, Some(2));
    assert_eq!(s.selection_range(), Some((2, 3)));

    // Extend selection
    s.fwd(5, true);
    assert_eq!(s.cursor, 4);
    assert_eq!(s.selection_range(), Some((2, 4)));

    // Move without shift clears selection
    s.fwd(5, false);
    assert_eq!(s.cursor, 5);
    assert_eq!(s.selection_start, None);
}

#[test]
fn test_selection_backwards() {
    let mut s = make_state(3, 5);
    s.back(true);
    assert_eq!(s.cursor, 2);
    assert_eq!(s.selection_start, Some(3));
    // selection_range normalizes: start <= end
    assert_eq!(s.selection_range(), Some((2, 3)));
}

#[test]
fn test_delete_selection() {
    let mut s = make_state(1, 5);
    s.selection_start = Some(1);
    s.cursor = 3;
    let result = s.delete_selection("abcde".to_string());
    assert_eq!(result, "ade");
    assert_eq!(s.cursor, 1);
    assert_eq!(s.selection_start, None);
}

#[test]
fn test_delete_empty_selection() {
    let mut s = make_state(2, 5);
    s.selection_start = Some(2);
    s.cursor = 2;
    let result = s.delete_selection("abcde".to_string());
    // start == end, so nothing deleted
    assert_eq!(result, "abcde");
}

#[test]
fn test_key_character() {
    let mut s = make_state(2, 5);
    let result = key(&mut s, Key::Character('x'), "abcde", false);
    assert_eq!(result, "abxcde");
    assert_eq!(s.cursor, 3);
}

#[test]
fn test_key_space() {
    let mut s = make_state(0, 3);
    let result = key(&mut s, Key::Space, "abc", false);
    assert_eq!(result, " abc");
    assert_eq!(s.cursor, 1);
}

#[test]
fn test_key_backspace() {
    let mut s = make_state(3, 5);
    let result = key(&mut s, Key::Backspace, "abcde", false);
    assert_eq!(result, "abde");
    assert_eq!(s.cursor, 2);
}

#[test]
fn test_key_backspace_at_start() {
    let mut s = make_state(0, 3);
    let result = key(&mut s, Key::Backspace, "abc", false);
    assert_eq!(result, "abc");
    assert_eq!(s.cursor, 0);
}

#[test]
fn test_key_backspace_with_selection() {
    let mut s = make_state(0, 5);
    s.selection_start = Some(1);
    s.cursor = 4;
    let result = key(&mut s, Key::Backspace, "abcde", false);
    assert_eq!(result, "ae");
    assert_eq!(s.cursor, 1);
}

#[test]
fn test_key_delete() {
    let mut s = make_state(2, 5);
    let result = key(&mut s, Key::Delete, "abcde", false);
    assert_eq!(result, "abde");
    assert_eq!(s.cursor, 2);
}

#[test]
fn test_key_delete_at_end() {
    let mut s = make_state(3, 3);
    let result = key(&mut s, Key::Delete, "abc", false);
    assert_eq!(result, "abc");
    assert_eq!(s.cursor, 3);
}

#[test]
fn test_key_home_end() {
    let mut s = make_state(3, 5);
    let result = key(&mut s, Key::Home, "abcde", false);
    assert_eq!(result, "abcde");
    assert_eq!(s.cursor, 0);

    key(&mut s, Key::End, &result, false);
    assert_eq!(s.cursor, 5);
}

#[test]
fn test_key_home_with_shift() {
    let mut s = make_state(3, 5);
    key(&mut s, Key::Home, "abcde", true);
    assert_eq!(s.cursor, 0);
    assert_eq!(s.selection_start, Some(3));
    assert_eq!(s.selection_range(), Some((0, 3)));
}

#[test]
fn test_key_character_replaces_selection() {
    let mut s = make_state(0, 5);
    s.selection_start = Some(1);
    s.cursor = 3;
    let result = key(&mut s, Key::Character('x'), "abcde", false);
    assert_eq!(result, "axde");
    assert_eq!(s.cursor, 2);
}

#[test]
fn test_arrow_keys() {
    let mut s = make_state(2, 5);
    let text = "abcde".to_string();

    let result = key(&mut s, Key::ArrowLeft, &text, false);
    assert_eq!(s.cursor, 1);

    let result = key(&mut s, Key::ArrowRight, &result, false);
    assert_eq!(s.cursor, 2);
    assert_eq!(result, "abcde");
}

#[test]
fn test_up_down_multiline() {
    // Two lines: "abc" (3 chars) and "defgh" (5 chars)
    let lens = [3, 5];
    let mut s = make_multiline_state(1, &lens);
    // cursor at index 1 in first line, move down
    down(&mut s, &lens, false);
    // Should move to closest glyph in second line
    assert!(s.cursor >= 3 && s.cursor < 8);

    // Move back up
    up(&mut s, &lens, false);
    assert!(s.cursor < 3);
}

#[test]
fn test_up_at_first_line_stays() {
    let lens = [3, 5];
    let mut s = make_multiline_state(1, &lens);
    up(&mut s, &lens, false);
    // Already on first line, cursor shouldn't change
    assert_eq!(s.cursor, 1);
}

#[test]
fn test_down_at_last_line_stays() {
    let lens = [3, 5];
    let mut s = make_multiline_state(4, &lens);
    down(&mut s, &lens, false);
    // Already on last line, cursor shouldn't change
    assert_eq!(s.cursor, 4);
}

#[test]
fn test_find_line() {
    let s = make_multiline_state(0, &[3, 5, 2]);
    // cursor 0 is on line 0
    assert_eq!(s.find_line(), 0);

    let s2 = make_multiline_state(4, &[3, 5, 2]);
    // cursor 4 is on line 1 (glyphs 3..8)
    assert_eq!(s2.find_line(), 1);

    let s3 = make_multiline_state(9, &[3, 5, 2]);
    // cursor 9 is on line 2 (glyphs 8..10)
    assert_eq!(s3.find_line(), 2);
}

#[test]
fn find_line_past_every_line_is_the_last() {
    let s = make_multiline_state(10, &[3, 5, 2]);
    assert_eq!(s.find_line(), 2);
}

#[test]
fn down_moves_to_the_closest_glyph_below() {
    let lens = [3, 5];
    let mut s = make_multiline_state(1, &lens);
    down(&mut s, &lens, false);
    // Glyph 1 of the first line sits above glyph 1 of the second line, index 4.
    assert_eq!(s.cursor, 4);
    up(&mut s, &lens, false);
    assert_eq!(s.cursor, 1);
}

#[test]
fn down_with_shift_extends_the_selection() {
    let lens = [3, 5];
    let mut s = make_multiline_state(2, &lens);
    down(&mut s, &lens, true);
    assert_eq!(s.selection_start, Some(2));
    assert_eq!(s.selection_range(), Some((2, 5)));
}

#[test]
fn typing_then_backspace_restores_the_text() {
    let mut s = make_state(2, 5);
    let typed = key(&mut s, Key::Character('x'), "abcde", false);
    assert_eq!(typed, "abxcde");
    let back = key(&mut s, Key::Backspace, &typed, false);
    assert_eq!(back, "abcde");
    assert_eq!(s.cursor, 2);
}

#[test]
fn delete_with_selection_removes_it() {
    let mut s = make_state(4, 5);
    s.selection_start = Some(1);
    let result = key(&mut s, Key::Delete, "abcde", false);
    assert_eq!(result, "ae");
    assert_eq!(s.cursor, 1);
    assert_eq!(s.selection_start, None);
}

#[test]
fn end_with_shift_selects_to_the_end() {
    let mut s = make_state(1, 5);
    let result = key(&mut s, Key::End, "abcde", true);
    assert_eq!(result, "abcde");
    assert_eq!(s.cursor, 5);
    assert_eq!(s.selection_range(), Some((1, 5)));
}

#[test]
fn other_keys_change_nothing() {
    let mut s = make_state(2, 5);
    s.selection_start = Some(4);
    let result = key(&mut s, Key::Tab, "abcde", false);
    assert_eq!(result, "abcde");
    assert_eq!(s.cursor, 2);
    assert_eq!(s.selection_start, Some(4));
}

#[test]
fn new_editor_is_empty() {
    let s = TextEditorState::new();
    assert_eq!(s.cursor, 0);
    assert_eq!(s.selection_start, None);
    assert!(s.lines.is_empty());
    assert_eq!(s.selection_range(), None);
}

#[test]
fn moves_on_non_ascii_text_count_bytes() {
    let text = "héllo".to_string();
    let mut s = TextEditorState { cursor: 0, selection_start: Some(40), lines: vec![] };
    let result = key(&mut s, Key::End, &text, false);
    assert_eq!(s.cursor, 6);
    assert_eq!(s.selection_start, None);
    assert_eq!(result, "héllo");
    let result = key(&mut s, Key::ArrowRight, &result, false);
    assert_eq!(s.cursor, 6);
    let _ = key(&mut s, Key::ArrowLeft, &result, true);
    assert_eq!(s.cursor, 5);
    assert_eq!(s.selection_start, Some(6));
    let _ = key(&mut s, Key::Home, &result, false);
    assert_eq!(s.cursor, 0);
}

#[test]
fn delete_without_selection_leaves_text_with_cursor_past_end() {
    let mut s = TextEditorState { cursor: 9, selection_start: None, lines: vec![] };
    let result = s.delete_selection("ab".to_string());
    assert_eq!(result, "ab");
    assert_eq!(s.cursor, 9);
}

#[test]
fn backspace_before_a_wide_character() {
    let mut s = TextEditorState { cursor: 1, selection_start: None, lines: vec![] };
    let result = key(&mut s, Key::Backspace, "aé", false);
    assert_eq!(result, "é");
    assert_eq!(s.cursor, 0);
}

#[test]
fn delete_and_type_at_byte_positions() {
    let mut s = TextEditorState { cursor: 1, selection_start: None, lines: vec![] };
    let result = key(&mut s, Key::Delete, "aéb", false);
    assert_eq!(result, "ab");
    assert_eq!(s.cursor, 1);
    let result = key(&mut s, Key::Character('ü'), &result, false);
    assert_eq!(result, "aüb");
    assert_eq!(s.cursor, 2);
}

#[test]
fn a_selection_of_wide_characters_is_removed_whole() {
    let mut s = TextEditorState { cursor: 5, selection_start: Some(1), lines: vec![] };
    let result = key(&mut s, Key::Backspace, "aéüb", false);
    assert_eq!(result, "ab");
    assert_eq!(s.cursor, 1);
    assert_eq!(s.selection_start, None);
}
