//! The state shared by all views while they handle events.
use vstd::prelude::*;
use std::any::Any;
use std::collections::HashMap;
use crate::event::{KeyboardModifiers, MouseButton, NUM_TOUCHES};
use crate::id::{IdPath, ViewId, path_id, view_id};

verus! {

broadcast use vstd::std_specs::hash::group_hash_axioms;

/// The state value a view keeps, of whatever type the view chose.
#[verifier::external_body]
pub struct StateBox {
    inner: Box<dyn Any>,
}

impl StateBox {
    /// Boxes `s` (`Box::new`).
    #[verifier::external_body]
    pub fn new<S: 'static>(s: S) -> (r: StateBox) {
        StateBox { inner: Box::new(s) }
    }

    /// The value if it is an `S` (`<dyn Any>::downcast_ref`). Nothing is
    /// stated of which values are an `S`.
    #[verifier::external_body]
    pub fn downcast_ref<S: 'static>(&self) -> (r: Option<&S>) {
        self.inner.downcast_ref::<S>()
    }
}

/// A state value kept for a view, and whether it changed since the last
/// redraw.
pub struct StoredState {
    pub value: StateBox,
    pub dirty: bool,
}

/// What views read and update while handling events: which view owns each
/// touch, which view has the keyboard focus, the input device state, and the
/// window requests made by views.
pub struct Context {
    /// For each touch id, the view that captured it (the default id if none).
    pub touches: [ViewId; 16],
    /// The view holding the keyboard focus.
    pub focused_id: Option<ViewId>,
    /// The mouse button held down.
    pub mouse_button: Option<MouseButton>,
    /// The modifier keys held down.
    pub key_mods: KeyboardModifiers,
    /// A view asks for the cursor to be grabbed.
    pub grab_cursor: bool,
    /// Whether the cursor was grabbed after the previous event.
    pub prev_grab_cursor: bool,
    /// The window title views ask for.
    pub window_title: String,
    /// A view asks for the window to be fullscreen.
    pub fullscreen: bool,
    /// Something changed that needs a redraw.
    pub dirty: bool,
    /// The state kept for each view, by the view's id.
    pub states: HashMap<u64, StoredState>,
}

impl Context {
    /// A context in which no touch is captured, nothing has the focus and no
    /// input is held.
    pub fn new() -> (cx: Self)
        ensures
            forall|i: int| 0 <= i < NUM_TOUCHES ==> (#[trigger] cx.touches[i]).id == 0,
            cx.focused_id is None,
            cx.mouse_button is None,
            !cx.grab_cursor && !cx.prev_grab_cursor && !cx.fullscreen && !cx.dirty,
            cx.window_title@.len() == 0,
            cx.states@ == Map::<u64, StoredState>::empty(),
    {
        let none = ViewId::default();
        Context {
            touches: [none; 16],
            focused_id: None,
            mouse_button: None,
            key_mods: KeyboardModifiers::none(),
            grab_cursor: false,
            prev_grab_cursor: false,
            window_title: String::new(),
            fullscreen: false,
            dirty: false,
            states: HashMap::new(),
        }
    }

    /// `self` and `other` agree on everything but the touch owners.
    pub open spec fn same_but_touches(self, other: Context) -> bool {
        &&& self.focused_id == other.focused_id
        &&& self.mouse_button == other.mouse_button
        &&& self.key_mods == other.key_mods
        &&& self.grab_cursor == other.grab_cursor
        &&& self.prev_grab_cursor == other.prev_grab_cursor
        &&& self.window_title == other.window_title
        &&& self.fullscreen == other.fullscreen
        &&& self.dirty == other.dirty
        &&& self.states == other.states
    }

    /// `after` is this context with touch `id` owned by `owner` and the cursor
    /// grab request set to `grab`; nothing else differs.
    pub open spec fn with_touch(self, id: usize, owner: ViewId, grab: bool, after: Context) -> bool {
        &&& after.touches@ == self.touches@.update(id as int, owner)
        &&& after.grab_cursor == grab
        &&& after.focused_id == self.focused_id
        &&& after.mouse_button == self.mouse_button
        &&& after.key_mods == self.key_mods
        &&& after.prev_grab_cursor == self.prev_grab_cursor
        &&& after.window_title == self.window_title
        &&& after.fullscreen == self.fullscreen
        &&& after.dirty == self.dirty
        &&& after.states == self.states
    }

    /// The owner of touch `id`.
    pub open spec fn owner(self, id: usize) -> ViewId {
        self.touches@[id as int]
    }

    /// Marks that a redraw is needed.
    pub fn set_dirty(&mut self)
        ensures
            *final(self) == (Context { dirty: true, ..*old(self) }),
    {
        self.dirty = true;
    }

    /// A state is kept for view `id`.
    pub open spec fn has_state(self, id: ViewId) -> bool {
        self.states@.contains_key(id.id)
    }

    /// `after` is this context with a state for view `id`: the one kept, or
    /// a new clean one when none was; nothing else differs.
    pub open spec fn state_inited(self, id: ViewId, after: Context) -> bool {
        &&& after.states@.dom() == self.states@.dom().insert(id.id)
        &&& self.has_state(id) ==> after.states@[id.id] == self.states@[id.id]
        &&& !self.has_state(id) ==> !after.states@[id.id].dirty
        &&& forall|k: u64| k != id.id && self.states@.contains_key(k) ==> after.states@[k] == self.states@[k]
        &&& after == (Context { states: after.states, ..self })
    }

    /// Keeps a state for view `id`: when none is kept, calls `default` and
    /// keeps its result, clean; a kept state is never replaced.
    pub fn init_state<S: 'static, D: Fn() -> S>(&mut self, id: ViewId, default: &D)
        requires
            default.requires(()),
        ensures
            old(self).state_inited(id, *final(self)),
    {
        let ghost before = *self;
        if !self.states.contains_key(&id.id) {
            let s = default();
            self.states.insert(id.id, StoredState { value: StateBox::new(s), dirty: false });
            assert(self.states@.dom() =~= before.states@.dom().insert(id.id));
        } else {
            assert(self.states@.dom() =~= before.states@.dom().insert(id.id));
        }
    }

    /// Replaces the state of view `id` with `s`, marking it changed.
    pub fn set_state<S: 'static>(&mut self, id: ViewId, s: S)
        ensures
            final(self).states@.dom() == old(self).states@.dom().insert(id.id),
            final(self).states@[id.id].dirty,
            forall|k: u64| k != id.id && old(self).states@.contains_key(k) ==> final(self).states@[k] == old(self).states@[k],
            *final(self) == (Context { states: final(self).states, ..*old(self) }),
    {
        let ghost before = *self;
        self.states.insert(id.id, StoredState { value: StateBox::new(s), dirty: true });
        assert(self.states@.dom() =~= before.states@.dom().insert(id.id));
    }

    /// The state kept for view `id`, if one is kept and it is an `S`.
    pub fn get_state<S: 'static>(&self, id: ViewId) -> (r: Option<&S>)
        ensures
            r is Some ==> self.has_state(id),
    {
        match self.states.get(&id.id) {
            Some(holder) => holder.value.downcast_ref::<S>(),
            None => None,
        }
    }

    /// The id of the view at `path`.
    pub fn view_id(&self, path: &IdPath) -> (v: ViewId)
        ensures
            v == path_id(path@),
    {
        view_id(path)
    }
}

} // verus!
