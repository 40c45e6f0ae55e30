//! The editing model behind `text_editor`: a cursor, an optional selection
//! anchor and the line structure of the laid-out text.
//!
//! Cursor and selection anchor are byte positions in the UTF-8 encoding of
//! the text, as `String` indexes it; edits need them on character
//! boundaries.
use vstd::prelude::*;
use vstd::utf8::is_ascii_chars;
use crate::utf8_pos::{byte_len, char_at, char_bytes, on_char, prefix_bytes, lemma_ascii_prefix,
    lemma_ascii_byte_len, lemma_char_at, lemma_cut_bytes, lemma_insert_bytes, lemma_on_char,
    lemma_remove_bytes};
use crate::event::Key;

verus! {

/// The glyph range of one laid-out line of text: `glyph_start..glyph_end`.
#[derive(Clone, Copy, PartialEq, Eq, Debug, Structural)]
pub struct LineMetrics {
    pub glyph_start: usize,
    pub glyph_end: usize,
}

impl LineMetrics {
    /// The line holds glyph `i`.
    pub open spec fn holds(self, i: usize) -> bool {
        self.glyph_start <= i && i < self.glyph_end
    }
}

/// Index of the first line, from `i` on, that holds glyph `cursor`; `lines.len()` if none does.
pub open spec fn first_line_from(lines: Seq<LineMetrics>, cursor: usize, i: int) -> int
    decreases lines.len() - i,
{
    if i >= lines.len() {
        lines.len() as int
    } else if lines[i].holds(cursor) {
        i
    } else {
        first_line_from(lines, cursor, i + 1)
    }
}

/// The line the cursor is on: the first line holding it, or the last line
/// when none does.
pub open spec fn line_of(lines: Seq<LineMetrics>, cursor: usize) -> int {
    let k = first_line_from(lines, cursor, 0);
    if k < lines.len() - 1 { k } else { lines.len() - 1 }
}

/// `text` with the characters in `lo..hi` removed.
pub open spec fn cut(text: Seq<char>, lo: int, hi: int) -> Seq<char> {
    text.subrange(0, lo) + text.subrange(hi, text.len() as int)
}

/// The cursor after a move forward in a text of `len` glyphs.
pub open spec fn fwd_cursor(cursor: usize, len: usize) -> usize {
    if cursor + 1 > len { len } else { (cursor + 1) as usize }
}

/// The cursor after a move back.
pub open spec fn back_cursor(cursor: usize) -> usize {
    if cursor > 0 { (cursor - 1) as usize } else { 0 }
}

/// View-model for `text_editor`.
#[derive(Debug)]
pub struct TextEditorState {
    /// Byte position of the cursor in the UTF-8 text.
    pub cursor: usize,
    /// Byte position where the selection began, if one is being made.
    pub selection_start: Option<usize>,
    /// The lines of the laid-out text.
    pub lines: Vec<LineMetrics>,
}

/// Removes the bytes `start..end`, which lie on character boundaries,
/// that is the characters between them (`String::drain`).
#[verifier::external_body]
fn string_drain(s: &mut String, start: usize, end: usize)
    requires
        start <= end,
        on_char(old(s)@, start as int),
        on_char(old(s)@, end as int),
    ensures
        final(s)@ == cut(old(s)@, char_at(old(s)@, start as int), char_at(old(s)@, end as int)),
{
    s.drain(start..end);
}

/// Removes the character that starts at byte `idx` and returns it
/// (`String::remove`).
#[verifier::external_body]
fn string_remove(s: &mut String, idx: usize) -> (c: char)
    requires
        on_char(old(s)@, idx as int),
        idx < byte_len(old(s)@),
    ensures
        final(s)@ == old(s)@.remove(char_at(old(s)@, idx as int)),
        c == old(s)@[char_at(old(s)@, idx as int)],
{
    s.remove(idx)
}

/// Inserts `c` at byte `idx`, which lies on a character boundary
/// (`String::insert`).
#[verifier::external_body]
fn string_insert(s: &mut String, idx: usize, c: char)
    requires
        on_char(old(s)@, idx as int),
    ensures
        final(s)@ == old(s)@.insert(char_at(old(s)@, idx as int), c),
{
    s.insert(idx, c);
}

/// Length in bytes of a string (`str::len`).
fn text_byte_len(s: &String) -> (n: usize)
    ensures
        n == byte_len(s@) as usize,
{
    s.as_str().len()
}

impl TextEditorState {
    /// Lower end of the selection range.
    pub open spec fn sel_lo(&self) -> usize {
        let s = self.selection_start->0;
        if s <= self.cursor { s } else { self.cursor }
    }

    /// Upper end of the selection range.
    pub open spec fn sel_hi(&self) -> usize {
        let s = self.selection_start->0;
        if s <= self.cursor { self.cursor } else { s }
    }

    /// The selection range, ordered.
    pub open spec fn spec_selection_range(&self) -> Option<(usize, usize)> {
        if self.selection_start is Some {
            Some((self.sel_lo(), self.sel_hi()))
        } else {
            None
        }
    }

    /// A selection exists and it is not empty.
    pub open spec fn has_selection(&self) -> bool {
        self.selection_start is Some && self.sel_lo() != self.sel_hi()
    }

    /// Cursor and selection anchor lie within a text of `len` characters.
    pub open spec fn fits(&self, len: nat) -> bool {
        &&& self.cursor <= len
        &&& self.selection_start matches Some(s) ==> s <= len
    }

    /// The selection anchor after a move that extends the selection (or not).
    pub open spec fn anchor_after(&self, extend: bool) -> Option<usize> {
        if extend {
            if self.selection_start is Some {
                self.selection_start
            } else {
                Some(self.cursor)
            }
        } else {
            None
        }
    }

    /// The line the cursor is on.
    pub open spec fn spec_line(&self) -> int {
        line_of(self.lines@, self.cursor)
    }

    /// An empty editor: cursor at the start, no selection, no lines.
    pub fn new() -> (s: Self)
        ensures
            s.cursor == 0,
            s.selection_start is None,
            s.lines@.len() == 0,
    {
        Self { cursor: 0, selection_start: None, lines: Vec::new() }
    }

    /// Returns the current selection range (start, end) with start <= end.
    pub fn selection_range(&self) -> (r: Option<(usize, usize)>)
        ensures
            r == self.spec_selection_range(),
            r matches Some((start, end)) ==> start <= end,
    {
        if let Some(start) = self.selection_start {
            let (start, end) = if start <= self.cursor {
                (start, self.cursor)
            } else {
                (self.cursor, start)
            };
            Some((start, end))
        } else {
            None
        }
    }

    /// Clears the current selection.
    pub fn clear_selection(&mut self)
        ensures
            final(self).selection_start is None,
            final(self).cursor == old(self).cursor,
            final(self).lines == old(self).lines,
    {
        self.selection_start = None;
    }

    /// Starts a selection at the cursor, unless one is already being made.
    pub fn start_selection(&mut self)
        ensures
            final(self).selection_start == old(self).anchor_after(true),
            final(self).cursor == old(self).cursor,
            final(self).lines == old(self).lines,
    {
        if self.selection_start.is_none() {
            self.selection_start = Some(self.cursor);
        }
    }

    /// Starts or extends the selection when `extend` holds, clears it otherwise.
    fn update_selection(&mut self, extend: bool)
        ensures
            final(self).selection_start == old(self).anchor_after(extend),
            final(self).cursor == old(self).cursor,
            final(self).lines == old(self).lines,
    {
        if extend {
            self.start_selection();
        } else {
            self.clear_selection();
        }
    }

    /// The selection's ends lie on character boundaries of `text`.
    pub open spec fn selection_on_chars(&self, text: Seq<char>) -> bool {
        on_char(text, self.sel_lo() as int) && on_char(text, self.sel_hi() as int)
    }

    /// `text` with the selected bytes (whole characters) removed.
    pub open spec fn without_selection(&self, text: Seq<char>) -> Seq<char> {
        cut(text, char_at(text, self.sel_lo() as int), char_at(text, self.sel_hi() as int))
    }

    /// Deletes the selected text and returns the new text. An empty or absent
    /// selection leaves text and state as they are.
    pub fn delete_selection(&mut self, text: String) -> (t: String)
        requires
            old(self).has_selection() ==> old(self).selection_on_chars(text@),
        ensures
            old(self).has_selection() ==> {
                &&& t@ == old(self).without_selection(text@)
                &&& final(self).cursor == old(self).sel_lo()
                &&& final(self).selection_start is None
                &&& final(self).lines == old(self).lines
                &&& byte_len(t@) + old(self).sel_hi() == byte_len(text@) + old(self).sel_lo()
                &&& on_char(t@, final(self).cursor as int)
                &&& char_at(t@, final(self).cursor as int) == char_at(text@, old(self).sel_lo() as int)
            },
            !old(self).has_selection() ==> t@ == text@ && *final(self) == *old(self),
    {
        if let Some((start, end)) = self.selection_range() {
            if start != end {
                let ghost old_text = text@;
                let mut t = text;
                string_drain(&mut t, start, end);
                proof {
                    lemma_on_char(old_text, start as int);
                    lemma_on_char(old_text, end as int);
                    let a = char_at(old_text, start as int);
                    let b = char_at(old_text, end as int);
                    if b < a {
                        crate::utf8_pos::lemma_prefix_mono(old_text, b, a);
                    }
                    lemma_cut_bytes(old_text, a, b);
                    assert(prefix_bytes(t@, a) == start);
                    lemma_char_at(t@, a);
                }
                self.cursor = start;
                self.clear_selection();
                return t;
            }
        }
        text
    }

    /// Moves the cursor one glyph forward, at most to `len`.
    pub fn fwd(&mut self, len: usize, extend_selection: bool)
        requires
            old(self).cursor < usize::MAX,
        ensures
            final(self).selection_start == old(self).anchor_after(extend_selection),
            final(self).cursor == fwd_cursor(old(self).cursor, len),
            final(self).lines == old(self).lines,
    {
        self.update_selection(extend_selection);
        self.cursor += 1;
        if self.cursor > len {
            self.cursor = len;
        }
    }

    /// Moves the cursor one glyph back, not before the start.
    pub fn back(&mut self, extend_selection: bool)
        ensures
            final(self).selection_start == old(self).anchor_after(extend_selection),
            final(self).cursor == back_cursor(old(self).cursor),
            final(self).lines == old(self).lines,
    {
        self.update_selection(extend_selection);
        if self.cursor > 0 {
            self.cursor -= 1;
        }
    }

    /// Index of the line the cursor is on: the first line holding it, or the
    /// last line when none does.
    pub fn find_line(&self) -> (i: usize)
        requires
            self.lines@.len() > 0,
        ensures
            i == self.spec_line(),
            i < self.lines@.len(),
    {
        let mut i: usize = 0;
        let n = self.lines.len();
        while i < n && !(self.cursor >= self.lines[i].glyph_start && self.cursor < self.lines[i].glyph_end)
            invariant
                n == self.lines@.len(),
                i <= n,
                first_line_from(self.lines@, self.cursor, 0) == first_line_from(self.lines@, self.cursor, i as int),
            decreases n - i,
        {
            i += 1;
        }
        if i > n - 1 {
            i = n - 1;
        }
        i
    }

    /// Moves the cursor to the next line, onto the glyph that `closest` picks
    /// in that line's glyph range. On the last line the cursor stays.
    pub fn down<C: Fn(usize, usize) -> usize>(&mut self, extend_selection: bool, closest: &C)
        requires
            old(self).lines@.len() > 0,
            forall|a: usize, b: usize| closest.requires((a, b)),
        ensures
            final(self).selection_start == old(self).anchor_after(extend_selection),
            final(self).lines == old(self).lines,
            ({
                let l = old(self).spec_line() + 1;
                if l < old(self).lines@.len() {
                    closest.ensures(
                        (old(self).lines@[l].glyph_start, old(self).lines@[l].glyph_end),
                        final(self).cursor,
                    )
                } else {
                    final(self).cursor == old(self).cursor
                }
            }),
    {
        self.update_selection(extend_selection);
        let n = self.lines.len();
        let line = self.find_line() + 1;
        if line < self.lines.len() {
            let metrics = self.lines[line];
            self.cursor = closest(metrics.glyph_start, metrics.glyph_end);
        }
    }

    /// Moves the cursor to the previous line, onto the glyph that `closest`
    /// picks in that line's glyph range. On the first line the cursor stays.
    pub fn up<C: Fn(usize, usize) -> usize>(&mut self, extend_selection: bool, closest: &C)
        requires
            old(self).lines@.len() > 0,
            forall|a: usize, b: usize| closest.requires((a, b)),
        ensures
            final(self).selection_start == old(self).anchor_after(extend_selection),
            final(self).lines == old(self).lines,
            ({
                let l = old(self).spec_line();
                if l > 0 {
                    closest.ensures(
                        (old(self).lines@[l - 1].glyph_start, old(self).lines@[l - 1].glyph_end),
                        final(self).cursor,
                    )
                } else {
                    final(self).cursor == old(self).cursor
                }
            }),
    {
        self.update_selection(extend_selection);
        let line = self.find_line();
        if line > 0 {
            let metrics = self.lines[line - 1];
            self.cursor = closest(metrics.glyph_start, metrics.glyph_end);
        }
    }

    /// The text after typing `c` over the selection, or at the cursor.
    pub open spec fn typed(&self, text: Seq<char>, c: char) -> Seq<char> {
        if self.has_selection() {
            self.without_selection(text).insert(char_at(text, self.sel_lo() as int), c)
        } else {
            text.insert(char_at(text, self.cursor as int), c)
        }
    }

    /// The state after a move of the cursor to `cursor`, extending the
    /// selection (or not).
    pub open spec fn moved_to(&self, cursor: usize, extend: bool) -> TextEditorState {
        TextEditorState { cursor, selection_start: self.anchor_after(extend), lines: self.lines }
    }

    /// The state after the selection was deleted.
    pub open spec fn selection_deleted(&self) -> TextEditorState {
        TextEditorState { cursor: self.sel_lo(), selection_start: None, lines: self.lines }
    }

    /// State and text after a key press other than the vertical arrows,
    /// with `shift` telling whether shift is held.
    pub open spec fn edited(&self, k: Key, text: Seq<char>, shift: bool) -> (TextEditorState, Seq<char>) {
        match k {
            Key::ArrowLeft => (self.moved_to(back_cursor(self.cursor), shift), text),
            Key::ArrowRight => (self.moved_to(fwd_cursor(self.cursor, byte_len(text) as usize), shift), text),
            Key::Home => (self.moved_to(0, shift), text),
            Key::End => (self.moved_to(byte_len(text) as usize, shift), text),
            Key::Backspace => if self.has_selection() {
                (self.selection_deleted(), self.without_selection(text))
            } else if self.cursor > 0 {
                (TextEditorState { cursor: (self.cursor - 1) as usize, selection_start: None, lines: self.lines },
                 text.remove(char_at(text, self.cursor - 1)))
            } else {
                (*self, text)
            },
            Key::Delete => if self.has_selection() {
                (self.selection_deleted(), self.without_selection(text))
            } else if self.cursor < byte_len(text) {
                (*self, text.remove(char_at(text, self.cursor as int)))
            } else {
                (*self, text)
            },
            Key::Character(c) => self.typed_in(text, c),
            Key::Space => self.typed_in(text, ' '),
            _ => (*self, text),
        }
    }

    /// State and text after typing `c`.
    pub open spec fn typed_in(&self, text: Seq<char>, c: char) -> (TextEditorState, Seq<char>) {
        if self.has_selection() {
            (TextEditorState { cursor: (self.sel_lo() + 1) as usize, selection_start: None, lines: self.lines },
             self.typed(text, c))
        } else {
            (TextEditorState { cursor: (self.cursor + 1) as usize, selection_start: self.selection_start, lines: self.lines },
             self.typed(text, c))
        }
    }

    /// The byte positions that key `k` edits `text` at lie on character
    /// boundaries (and before the end where a character is removed there),
    /// so that the edit does not panic; the text is shorter than the largest
    /// `usize`.
    pub open spec fn edit_ok(&self, k: Key, text: Seq<char>) -> bool {
        &&& byte_len(text) < usize::MAX
        &&& match k {
            Key::Backspace => if self.has_selection() {
                self.selection_on_chars(text)
            } else if self.cursor > 0 {
                on_char(text, self.cursor - 1) && self.cursor - 1 < byte_len(text)
            } else {
                true
            },
            Key::Delete => if self.has_selection() {
                self.selection_on_chars(text)
            } else if self.cursor < byte_len(text) {
                on_char(text, self.cursor as int)
            } else {
                true
            },
            Key::Character(_) | Key::Space => if self.has_selection() {
                self.selection_on_chars(text)
            } else {
                on_char(text, self.cursor as int)
            },
            _ => true,
        }
    }

    /// Applies a key press to the editor and returns the edited text.
    ///
    /// Arrow keys move the cursor (extending the selection while shift is
    /// held); the vertical ones pick the glyph in the neighbouring line with
    /// `closest`. Backspace and Delete remove the selection, or one character
    /// before or at the cursor. A character or a space replaces the selection,
    /// or is inserted at the cursor. Home and End move to the start and the
    /// end of the text. Other keys change nothing.
    pub fn key<C: Fn(usize, usize) -> usize>(
        &mut self,
        k: &Key,
        text: String,
        shift_pressed: bool,
        closest: &C,
    ) -> (t: String)
        requires
            (*k is Backspace || *k is Delete || *k is Character || *k is Space) ==> old(self).edit_ok(*k, text@),
            *k is ArrowRight ==> old(self).cursor < usize::MAX,
            (*k == Key::ArrowUp || *k == Key::ArrowDown) ==> old(self).lines@.len() > 0,
            forall|a: usize, b: usize| closest.requires((a, b)),
        ensures
            final(self).lines == old(self).lines,
            !(*k == Key::ArrowUp || *k == Key::ArrowDown) ==> (*final(self), t@) == old(self).edited(*k, text@, shift_pressed),
            *k == Key::ArrowDown ==> {
                &&& t@ == text@
                &&& final(self).selection_start == old(self).anchor_after(shift_pressed)
                &&& ({
                    let l = old(self).spec_line() + 1;
                    if l < old(self).lines@.len() {
                        closest.ensures(
                            (old(self).lines@[l].glyph_start, old(self).lines@[l].glyph_end),
                            final(self).cursor,
                        )
                    } else {
                        final(self).cursor == old(self).cursor
                    }
                })
            },
            *k == Key::ArrowUp ==> {
                &&& t@ == text@
                &&& final(self).selection_start == old(self).anchor_after(shift_pressed)
                &&& ({
                    let l = old(self).spec_line();
                    if l > 0 {
                        closest.ensures(
                            (old(self).lines@[l - 1].glyph_start, old(self).lines@[l - 1].glyph_end),
                            final(self).cursor,
                        )
                    } else {
                        final(self).cursor == old(self).cursor
                    }
                })
            },
    {
        match k {
            Key::ArrowLeft => {
                self.back(shift_pressed);
                text
            }
            Key::ArrowRight => {
                let len = text_byte_len(&text);
                self.fwd(len, shift_pressed);
                text
            }
            Key::ArrowUp => {
                self.up(shift_pressed, closest);
                text
            }
            Key::ArrowDown => {
                self.down(shift_pressed, closest);
                text
            }
            Key::Backspace => {
                // First try to delete the selection.
                let had_selection = match self.selection_range() {
                    Some((start, end)) => start != end,
                    None => false,
                };
                let t = self.delete_selection(text);
                if !had_selection && self.cursor > 0 {
                    // No selection was deleted: remove the character before the cursor.
                    let mut t = t;
                    string_remove(&mut t, self.cursor - 1);
                    self.back(false);
                    t
                } else {
                    t
                }
            }
            Key::Delete => {
                // Delete the selection or the character at the cursor.
                let had_selection = match self.selection_range() {
                    Some((start, end)) => start != end,
                    None => false,
                };
                let t = self.delete_selection(text);
                if !had_selection && self.cursor < text_byte_len(&t) {
                    let mut t = t;
                    string_remove(&mut t, self.cursor);
                    t
                } else {
                    t
                }
            }
            Key::Character(c) => {
                // Replace the selection or insert the character.
                let mut t = self.delete_selection(text);
                proof {
                    lemma_on_char(t@, self.cursor as int);
                }
                string_insert(&mut t, self.cursor, *c);
                self.cursor += 1;
                t
            }
            Key::Space => {
                // Replace the selection or insert a space.
                let mut t = self.delete_selection(text);
                proof {
                    lemma_on_char(t@, self.cursor as int);
                }
                string_insert(&mut t, self.cursor, ' ');
                self.cursor += 1;
                t
            }
            Key::Home => {
                self.update_selection(shift_pressed);
                self.cursor = 0;
                text
            }
            Key::End => {
                self.update_selection(shift_pressed);
                self.cursor = text_byte_len(&text);
                text
            }
            _ => text,
        }
    }
}


/// Removing the selection of `s` from `text` takes away the selected bytes.
proof fn lemma_selection_bytes(s: TextEditorState, text: Seq<char>)
    requires
        s.has_selection(),
        s.selection_on_chars(text),
    ensures
        byte_len(s.without_selection(text)) + s.sel_hi() == byte_len(text) + s.sel_lo(),
        s.sel_hi() <= byte_len(text),
{
    let lo = s.sel_lo() as int;
    let hi = s.sel_hi() as int;
    lemma_on_char(text, lo);
    lemma_on_char(text, hi);
    let a = char_at(text, lo);
    let b = char_at(text, hi);
    if b < a {
        crate::utf8_pos::lemma_prefix_mono(text, b, a);
    }
    lemma_cut_bytes(text, a, b);
}

/// The character that starts at boundary `b`, before the end, ends within
/// the text; removing it takes away its bytes.
proof fn lemma_char_span(text: Seq<char>, b: int)
    requires
        on_char(text, b),
        b < byte_len(text),
    ensures
        b + char_bytes(text[char_at(text, b)]) <= byte_len(text),
        byte_len(text.remove(char_at(text, b))) + char_bytes(text[char_at(text, b)]) == byte_len(text),
{
    lemma_on_char(text, b);
    let ci = char_at(text, b);
    crate::utf8_pos::lemma_prefix_step(text, ci);
    crate::utf8_pos::lemma_prefix_all(text);
    if ci + 1 < text.len() {
        crate::utf8_pos::lemma_prefix_mono(text, ci + 1, text.len() as int);
    }
    lemma_remove_bytes(text, ci);
}

/// Every key press other than the vertical arrows keeps the cursor and the
/// selection anchor within the edited text, where the edit does not panic.
pub proof fn law_edit_keeps_cursor_in_text(s: TextEditorState, k: Key, text: Seq<char>, shift: bool)
    requires
        s.fits(byte_len(text)),
        byte_len(text) < usize::MAX,
        !(k == Key::ArrowUp || k == Key::ArrowDown),
        (k is Backspace || k is Delete || k is Character || k is Space) ==> s.edit_ok(k, text),
    ensures
        s.edited(k, text, shift).0.fits(byte_len(s.edited(k, text, shift).1)),
{
    if k is Backspace || k is Delete || k is Character || k is Space {
        if s.has_selection() {
            lemma_selection_bytes(s, text);
            if k is Character || k is Space {
                let c = if let Key::Character(c) = k { c } else { ' ' };
                lemma_on_char(text, s.sel_lo() as int);
                let u = s.without_selection(text);
                let a = char_at(text, s.sel_lo() as int);
                lemma_on_char(text, s.sel_hi() as int);
                let b = char_at(text, s.sel_hi() as int);
                if b < a {
                    crate::utf8_pos::lemma_prefix_mono(text, b, a);
                }
                lemma_insert_bytes(u, a, c);
                crate::utf8_pos::lemma_char_bytes(c);
            }
        } else if k is Backspace {
            if s.cursor > 0 {
                lemma_char_span(text, s.cursor - 1);
            }
        } else if k is Delete {
            if s.cursor < byte_len(text) {
                lemma_char_span(text, s.cursor as int);
            }
        } else {
            let c = if let Key::Character(c) = k { c } else { ' ' };
            lemma_on_char(text, s.cursor as int);
            lemma_insert_bytes(text, char_at(text, s.cursor as int), c);
            crate::utf8_pos::lemma_char_bytes(c);
        }
    }
}

/// Cutting, removing from and inserting an ASCII character into ASCII text
/// keeps it ASCII.
proof fn lemma_ascii_edits(text: Seq<char>, lo: int, hi: int, i: int, c: char)
    requires
        is_ascii_chars(text),
        0 <= lo <= hi <= text.len(),
        0 <= i < text.len(),
    ensures
        is_ascii_chars(cut(text, lo, hi)),
        is_ascii_chars(text.remove(i)),
        '\0' <= c <= '\u{7f}' ==> is_ascii_chars(text.insert(i, c)),
        '\0' <= c <= '\u{7f}' ==> is_ascii_chars(text.insert(text.len() as int, c)),
        '\0' <= c <= '\u{7f}' && lo <= text.len() ==> is_ascii_chars(cut(text, lo, hi).insert(lo, c)),
{
    let u = cut(text, lo, hi);
    assert forall|j: int| 0 <= j < u.len() implies '\0' <= #[trigger] u[j] <= '\u{7f}' by {
        if j < lo {
            assert(u[j] == text[j]);
        } else {
            assert(u[j] == text[j + (hi - lo)]);
        }
    }
    let r = text.remove(i);
    assert forall|j: int| 0 <= j < r.len() implies '\0' <= #[trigger] r[j] <= '\u{7f}' by {
        assert(r[j] == text[if j < i { j } else { j + 1 }]);
    }
    if '\0' <= c <= '\u{7f}' {
        let v = text.insert(i, c);
        assert forall|j: int| 0 <= j < v.len() implies '\0' <= #[trigger] v[j] <= '\u{7f}' by {
            if j != i {
                assert(v[j] == text[if j < i { j } else { j - 1 }]);
            }
        }
        let w = text.insert(text.len() as int, c);
        assert forall|j: int| 0 <= j < w.len() implies '\0' <= #[trigger] w[j] <= '\u{7f}' by {
            if j < text.len() {
                assert(w[j] == text[j]);
            }
        }
        let x = u.insert(lo, c);
        assert forall|j: int| 0 <= j < x.len() implies '\0' <= #[trigger] x[j] <= '\u{7f}' by {
            if j < lo {
                assert(x[j] == u[j]);
            } else if j > lo {
                assert(x[j] == u[j - 1]);
            }
        }
    }
}

/// Editing ASCII text with an ASCII key keeps it ASCII; in ASCII text every
/// position within it is a character boundary, so no edit panics.
#[verifier::spinoff_prover]
pub proof fn law_edit_keeps_text_ascii(s: TextEditorState, k: Key, text: Seq<char>, shift: bool)
    requires
        is_ascii_chars(text),
        s.fits(text.len()),
        k matches Key::Character(c) ==> '\0' <= c <= '\u{7f}',
    ensures
        is_ascii_chars(s.edited(k, text, shift).1),
        text.len() < usize::MAX && (k is Backspace || k is Delete || k is Character || k is Space)
            ==> s.edit_ok(k, text),
{
    lemma_ascii_byte_len(text);
    let lo = s.sel_lo() as int;
    let hi = s.sel_hi() as int;
    if s.selection_start is Some {
        lemma_ascii_prefix(text, lo);
        lemma_ascii_prefix(text, hi);
    }
    lemma_ascii_prefix(text, s.cursor as int);
    if s.cursor > 0 {
        lemma_ascii_prefix(text, s.cursor - 1);
    }
    let c = if let Key::Character(c) = k { c } else { ' ' };
    if text.len() > 0 {
        let i = if s.cursor < text.len() { s.cursor as int } else if s.cursor > 0 { s.cursor - 1 } else { 0 };
        if s.selection_start is Some {
            lemma_ascii_edits(text, lo, hi, i, c);
        } else {
            lemma_ascii_edits(text, 0, 0, i, c);
        }
        if s.cursor > 0 && s.cursor - 1 != i {
            lemma_ascii_edits(text, 0, 0, s.cursor - 1, c);
        }
    } else {
        assert(text.insert(0, c) =~= seq![c]);
    }
}

/// Moving the cursor forward and then back returns it where it was, when
/// it was not at the end of the text; the text is unchanged.
pub proof fn law_fwd_then_back(s: TextEditorState, text: Seq<char>, shift: bool)
    requires
        s.cursor < byte_len(text) < usize::MAX,
    ensures
        ({
            let (s1, t1) = s.edited(Key::ArrowRight, text, shift);
            let (s2, t2) = s1.edited(Key::ArrowLeft, t1, shift);
            s2.cursor == s.cursor && t2 == text
        }),
{
}

/// Moving the cursor back and then forward returns it where it was, when it
/// was not at the start of a text it lies within.
pub proof fn law_back_then_fwd(s: TextEditorState, text: Seq<char>, shift: bool)
    requires
        0 < s.cursor <= byte_len(text) < usize::MAX,
    ensures
        ({
            let (s1, t1) = s.edited(Key::ArrowLeft, text, shift);
            let (s2, t2) = s1.edited(Key::ArrowRight, t1, shift);
            s2.cursor == s.cursor && t2 == text
        }),
{
}

/// Typing a character and then pressing Backspace gives back the text and
/// the cursor, when nothing was selected and the cursor is on a character
/// boundary. (With an empty selection left at the cursor, the typed
/// character then counts as selected, which holds only for a one-byte
/// character: for a wider one the selection would end inside it.)
pub proof fn law_type_then_backspace(s: TextEditorState, text: Seq<char>, c: char)
    requires
        on_char(text, s.cursor as int),
        byte_len(text) < usize::MAX,
        !s.has_selection(),
        s.selection_start is None || char_bytes(c) == 1,
    ensures
        ({
            let (s1, t1) = s.edited(Key::Character(c), text, false);
            let (s2, t2) = s1.edited(Key::Backspace, t1, false);
            &&& t2 == text
            &&& s2.cursor == s.cursor
            &&& s2.selection_start is None
        }),
{
    let (s1, t1) = s.edited(Key::Character(c), text, false);
    lemma_on_char(text, s.cursor as int);
    let ci = char_at(text, s.cursor as int);
    assert(t1 == text.insert(ci, c));
    lemma_insert_bytes(text, ci, c);
    assert(prefix_bytes(t1, ci) == s.cursor);
    lemma_char_at(t1, ci);
    if s1.has_selection() {
        assert(s.selection_start == Some(s.cursor));
        assert(s1.sel_lo() == s.cursor && s1.sel_hi() == s.cursor + 1);
        lemma_char_at(t1, ci + 1);
        assert(cut(t1, ci, ci + 1) =~= text);
    } else {
        assert(t1.remove(ci) =~= text);
    }
}

/// Backspace and Delete do the same to a non-empty selection: they remove it
/// and put the cursor at its start.
pub proof fn law_backspace_delete_agree_on_selection(s: TextEditorState, text: Seq<char>, shift: bool)
    requires
        s.has_selection(),
    ensures
        s.edited(Key::Backspace, text, shift) == s.edited(Key::Delete, text, shift),
        s.edited(Key::Backspace, text, shift).0.cursor == s.sel_lo(),
{
}

} // verus!
