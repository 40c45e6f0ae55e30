//! Input events and the keyboard vocabulary.
use vstd::prelude::*;
use crate::id::IdPath;
use crate::view::same_path;

verus! {

/// A key on the keyboard, as far as the views care about it.
#[derive(Clone, Copy, PartialEq, Eq, Debug, Structural)]
pub enum Key {
    Character(char),
    Enter,
    Tab,
    Space,
    ArrowDown,
    ArrowLeft,
    ArrowRight,
    ArrowUp,
    End,
    Home,
    PageDown,
    PageUp,
    Backspace,
    Delete,
    Escape,
    F1,
    F2,
    F3,
    F4,
    F5,
    F6,
    F7,
    F8,
    F9,
    F10,
    F11,
    F12,
}

/// A mouse button.
#[derive(Clone, Copy, PartialEq, Eq, Debug, Structural)]
pub enum MouseButton {
    Left,
    Right,
    Center,
}

/// The modifier keys held down.
#[derive(Clone, Copy, PartialEq, Eq, Debug, Structural)]
pub struct KeyboardModifiers {
    pub shift: bool,
    pub control: bool,
    pub alt: bool,
    pub command: bool,
}

impl KeyboardModifiers {
    /// No modifier held.
    pub fn none() -> (m: Self)
        ensures
            !m.shift && !m.control && !m.alt && !m.command,
    {
        KeyboardModifiers { shift: false, control: false, alt: false, command: false }
    }
}

/// A keyboard shortcut for a menu command.
#[derive(Clone, Copy, PartialEq, Eq, Debug, Structural)]
pub struct HotKey {
    pub key: Key,
    pub mods: KeyboardModifiers,
}

/// Number of simultaneous touches that are tracked.
pub const NUM_TOUCHES: usize = 16;

/// The position of a touch in the coordinates of the view at `path`.
#[derive(Clone, Debug)]
pub struct Located<D> {
    pub path: IdPath,
    pub pt: D,
}

/// The first position listed for the view at `path` from index `i` on.
pub open spec fn position_from<D>(positions: Seq<Located<D>>, path: Seq<u64>, i: int) -> Option<D>
    decreases positions.len() - i,
{
    if i < 0 || i >= positions.len() {
        None
    } else if positions[i].path@ == path {
        Some(positions[i].pt)
    } else {
        position_from(positions, path, i + 1)
    }
}

/// `pt` is the position local to the view at `path`: the first one
/// `positions` lists for it, or the default position when none is listed.
pub open spec fn is_local_position<D: Default>(positions: Seq<Located<D>>, path: Seq<u64>, pt: D) -> bool {
    match position_from(positions, path, 0) {
        Some(p) => pt == p,
        None => call_ensures(D::default, (), pt),
    }
}

/// The position local to the view at `path` (see `is_local_position`).
pub fn local_position<D: Copy + Default>(positions: &Vec<Located<D>>, path: &IdPath) -> (pt: D)
    ensures
        is_local_position(positions@, path@, pt),
{
    let n = positions.len();
    let mut i: usize = 0;
    while i < n
        invariant
            n == positions@.len(),
            i <= n,
            position_from(positions@, path@, 0) == position_from(positions@, path@, i as int),
        decreases n - i,
    {
        if same_path(&positions[i].path, path) {
            return positions[i].pt;
        }
        i += 1;
    }
    D::default()
}

/// An input event, as it reaches the view tree.
///
/// Touch events carry the position of the touch in the coordinates of each
/// view that may need it (`positions`, by path) and, where views test it,
/// the hit test of that position: the id paths of the leaf views under it.
/// Moves also carry the pointer movement. Positions and movements are of
/// type `D`; the geometry that relates coordinates is outside this crate.
#[derive(Debug)]
pub enum Event<D> {
    TouchBegin { id: usize, positions: Vec<Located<D>>, hits: Vec<IdPath> },
    TouchMove { id: usize, positions: Vec<Located<D>>, delta: D, hits: Vec<IdPath> },
    TouchEnd { id: usize, positions: Vec<Located<D>> },
    Command(String),
    Key(Key),
    KeyReleased(Key),
    Anim,
}

impl<D> Event<D> {
    /// Touch ids are within the tracked range.
    pub open spec fn wf(&self) -> bool {
        match *self {
            Event::TouchBegin { id, .. } => id < NUM_TOUCHES,
            Event::TouchMove { id, .. } => id < NUM_TOUCHES,
            Event::TouchEnd { id, .. } => id < NUM_TOUCHES,
            _ => true,
        }
    }
}

} // verus!
