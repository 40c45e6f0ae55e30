//! The `drag` gesture: a touch that begins on the view, moves and ends.
use vstd::prelude::*;
use crate::access::{AccessEntry, AccessNode};
use crate::context::Context;
use crate::event::{Event, HotKey, MouseButton, is_local_position, local_position};
use crate::id::{IdPath, ViewId, path_id};
use crate::view::{Action, CommandInfo, DynView, ViewCore, extends, lemma_hit_under_parent};

verus! {

/// The phase of a gesture.
#[derive(Clone, Copy, Eq, PartialEq, Debug, Structural)]
pub enum GestureState {
    Began,
    Changed,
    Ended,
}

/// A drag callback; positions and movements are of type `D`.
pub trait DragFn<D>: 'static {
    /// The callback accepts every call.
    spec fn callable(&self) -> bool;

    /// `after` is a context the callback may leave when it is told the
    /// position `pt`, the movement `delta`, the phase `state` and the mouse
    /// `button` in the context `before`.
    spec fn effect(
        &self,
        before: Context,
        pt: D,
        delta: D,
        state: GestureState,
        button: Option<MouseButton>,
        after: Context,
    ) -> bool;

    /// Runs the callback, appending what it returns to `actions`.
    fn call(
        &self,
        cx: &mut Context,
        pt: D,
        delta: D,
        state: GestureState,
        button: Option<MouseButton>,
        actions: &mut Vec<Action>,
    )
        requires
            self.callable(),
        ensures
            final(actions)@.len() == old(actions)@.len() + 1,
            extends(old(actions)@, final(actions)@),
            self.effect(*old(cx), pt, delta, state, button, *final(cx)),
    ;
}

/// A callback given the context, the movement, the phase and the mouse button.
pub struct DragFunc<F> {
    pub f: F,
}

impl<D: 'static, A: 'static, F: Fn(&mut Context, D, GestureState, Option<MouseButton>) -> A + 'static> DragFn<D> for DragFunc<F> {
    open spec fn callable(&self) -> bool {
        forall|cx: &mut Context, d: D, s: GestureState, b: Option<MouseButton>| self.f.requires((cx, d, s, b))
    }

    /// A call of the closure, told the movement, the phase and the button,
    /// starting from `before`.
    /// `after` is not tied to that call: a spec function cannot name the
    /// context a closure leaves.
    open spec fn effect(
        &self,
        before: Context,
        pt: D,
        delta: D,
        state: GestureState,
        button: Option<MouseButton>,
        after: Context,
    ) -> bool {
        exists|c: &mut Context, a: A|
            *c == before && #[trigger] self.f.ensures((c, delta, state, button), a)
    }

    fn call(
        &self,
        cx: &mut Context,
        pt: D,
        delta: D,
        state: GestureState,
        button: Option<MouseButton>,
        actions: &mut Vec<Action>,
    ) {
        let a = (self.f)(cx, delta, state, button);
        actions.push(Action::new(a));
    }
}

/// A callback given the context, the position, the phase and the mouse button.
pub struct DragFuncP<F> {
    pub f: F,
}

impl<D: 'static, A: 'static, F: Fn(&mut Context, D, GestureState, Option<MouseButton>) -> A + 'static> DragFn<D> for DragFuncP<F> {
    open spec fn callable(&self) -> bool {
        forall|cx: &mut Context, p: D, s: GestureState, b: Option<MouseButton>| self.f.requires((cx, p, s, b))
    }

    /// A call of the closure, told the position, the phase and the button,
    /// starting from `before`.
    /// `after` is not tied to that call: a spec function cannot name the
    /// context a closure leaves.
    open spec fn effect(
        &self,
        before: Context,
        pt: D,
        delta: D,
        state: GestureState,
        button: Option<MouseButton>,
        after: Context,
    ) -> bool {
        exists|c: &mut Context, a: A|
            *c == before && #[trigger] self.f.ensures((c, pt, state, button), a)
    }

    fn call(
        &self,
        cx: &mut Context,
        pt: D,
        delta: D,
        state: GestureState,
        button: Option<MouseButton>,
        actions: &mut Vec<Action>,
    ) {
        let a = (self.f)(cx, pt, state, button);
        actions.push(Action::new(a));
    }
}

/// Struct for the `drag` gesture.
pub struct Drag<V, F> {
    pub child: V,
    pub func: F,
    /// Whether the cursor is grabbed while dragging.
    pub grab: bool,
}

impl<V: ViewCore, F> Drag<V, F> {
    /// A drag gesture on `v` that does not grab the cursor.
    pub fn new(v: V, f: F) -> (d: Self)
        ensures
            d.child == v,
            d.func == f,
            !d.grab,
    {
        Self { child: v, func: f, grab: false }
    }

    /// The same gesture, grabbing the cursor while dragging.
    pub fn grab_cursor(self) -> (d: Self)
        ensures
            d.child == self.child,
            d.func == self.func,
            d.grab,
    {
        Self { child: self.child, func: self.func, grab: true }
    }
}

impl<V: ViewCore, F: 'static> ViewCore for Drag<V, F> {
    open spec fn wf(&self) -> bool {
        self.child.wf()
    }

    open spec fn flexible(&self) -> bool {
        false
    }

    open spec fn hit(&self, path: Seq<u64>, hits: Seq<Seq<u64>>, cx: Context) -> Option<ViewId> {
        self.child.hit(path.push(0), hits, cx)
    }

    open spec fn menu(&self, path: Seq<u64>, cx: Context) -> Seq<(Seq<char>, Option<HotKey>)> {
        self.child.menu(path.push(0), cx)
    }

    open spec fn kept(&self, path: Seq<u64>, cx: Context) -> Seq<ViewId> {
        self.child.kept(path.push(0), cx)
    }

    open spec fn access_nodes(&self, path: Seq<u64>, cx: Context) -> Seq<AccessEntry> {
        self.child.access_nodes(path.push(0), cx)
    }

    open spec fn access_root(&self, path: Seq<u64>, cx: Context) -> Option<u64> {
        self.child.access_root(path.push(0), cx)
    }

    fn hittest(&self, path: &mut IdPath, hits: &Vec<IdPath>, cx: &Context) -> (r: Option<ViewId>) {
        let ghost p0 = path@;
        path.push(0);
        let id = self.child.hittest(path, hits, cx);
        path.pop();
        proof {
            if let Some(v) = id {
                lemma_hit_under_parent(hits.deep_view(), p0, 0, v);
            }
        }
        id
    }

    fn commands(&self, path: &mut IdPath, cx: &mut Context, cmds: &mut Vec<CommandInfo>) {
        path.push(0);
        self.child.commands(path, cx, cmds);
        path.pop();
    }

    fn gc(&self, path: &mut IdPath, cx: &mut Context, map: &mut Vec<ViewId>) {
        path.push(0);
        self.child.gc(path, cx, map);
        path.pop();
    }

    fn access(&self, path: &mut IdPath, cx: &Context, nodes: &mut Vec<AccessNode>) -> (r: Option<u64>) {
        path.push(0);
        let id = self.child.access(path, cx, nodes);
        path.pop();
        id
    }

    fn is_flexible(&self) -> (b: bool) {
        false
    }
}

impl<D: Copy + Default + 'static, V: ViewCore, F: DragFn<D>> DynView<D> for Drag<V, F> {
    open spec fn ready(&self) -> bool {
        self.func.callable()
    }

    /// A touch that begins on the view while no view holds it is captured:
    /// the cursor grab is set as the view asks and the callback runs with
    /// `Began` and no movement. Moves of that touch run the callback with
    /// `Changed`; its end releases it and the cursor, and runs the callback
    /// with `Ended` and no movement. Other events are ignored, and the child
    /// sees none.
    open spec fn processed(&self, event: Event<D>, path: Seq<u64>, before: Context, after: Context, added: nat) -> bool {
        match event {
            Event::TouchBegin { id, positions, hits } => if before.owner(id).id == 0
                && self.hit(path, hits.deep_view(), before) is Some {
                &&& added == 1
                &&& exists|captured: Context, pt: D, zero: D|
                    #![trigger self.func.effect(captured, pt, zero, GestureState::Began, before.mouse_button, after)]
                    call_ensures(D::default, (), zero)
                    && is_local_position(positions@, path, pt)
                    && before.with_touch(id, path_id(path), self.grab, captured)
                    && self.func.effect(captured, pt, zero, GestureState::Began, before.mouse_button, after)
            } else {
                after == before && added == 0
            },
            Event::TouchMove { id, positions, delta, .. } => if before.owner(id) == path_id(path) {
                &&& added == 1
                &&& exists|pt: D|
                    #![trigger self.func.effect(before, pt, delta, GestureState::Changed, before.mouse_button, after)]
                    is_local_position(positions@, path, pt)
                    && self.func.effect(before, pt, delta, GestureState::Changed, before.mouse_button, after)
            } else {
                after == before && added == 0
            },
            Event::TouchEnd { id, positions } => if before.owner(id) == path_id(path) {
                &&& added == 1
                &&& exists|released: Context, pt: D, zero: D|
                    #![trigger self.func.effect(released, pt, zero, GestureState::Ended, before.mouse_button, after)]
                    call_ensures(D::default, (), zero)
                    && is_local_position(positions@, path, pt)
                    && before.with_touch(id, ViewId { id: 0 }, false, released)
                    && self.func.effect(released, pt, zero, GestureState::Ended, before.mouse_button, after)
            } else {
                after == before && added == 0
            },
            _ => after == before && added == 0,
        }
    }

    fn process(&self, event: &Event<D>, path: &mut IdPath, cx: &mut Context, actions: &mut Vec<Action>) {
        let vid = cx.view_id(path);
        match event {
            Event::TouchBegin { id, positions, hits } => {
                if cx.touches[*id].is_default() && self.hittest(path, hits, cx).is_some() {
                    cx.touches[*id] = vid;
                    cx.grab_cursor = self.grab;
                    let button = cx.mouse_button;
                    let pt = local_position(positions, path);
                    let zero = D::default();
                    let ghost captured = *cx;
                    self.func.call(cx, pt, zero, GestureState::Began, button, actions);
                    assert(self.func.effect(captured, pt, zero, GestureState::Began, button, *cx));
                }
            },
            Event::TouchMove { id, positions, delta, .. } => {
                if cx.touches[*id] == vid {
                    let button = cx.mouse_button;
                    let pt = local_position(positions, path);
                    let ghost before = *cx;
                    self.func.call(cx, pt, *delta, GestureState::Changed, button, actions);
                    assert(self.func.effect(before, pt, *delta, GestureState::Changed, button, *cx));
                }
            },
            Event::TouchEnd { id, positions } => {
                if cx.touches[*id] == vid {
                    cx.touches[*id] = ViewId::default();
                    cx.grab_cursor = false;
                    let button = cx.mouse_button;
                    let pt = local_position(positions, path);
                    let zero = D::default();
                    let ghost released = *cx;
                    self.func.call(cx, pt, zero, GestureState::Ended, button, actions);
                    assert(self.func.effect(released, pt, zero, GestureState::Ended, button, *cx));
                }
            },
            _ => {},
        }
    }
}

/// A drag that grabs the cursor asks for the grab when its touch begins on
/// it and drops the request when that touch ends: the callback is run, with
/// the phase `Began` or `Ended`, from a context whose grab request is set
/// or cleared and whose touch owner is the view or no view.
pub proof fn law_drag_grab_cycle<D: Copy + Default + 'static, V: ViewCore, F: DragFn<D>>(
    d: Drag<V, F>,
    event: Event<D>,
    path: Seq<u64>,
    before: Context,
    after: Context,
    added: nat,
)
    requires
        d.grab,
        event.wf(),
        d.processed(event, path, before, after, added),
    ensures
        event is TouchBegin && before.owner(event->TouchBegin_id).id == 0
            && d.hit(path, event->TouchBegin_hits.deep_view(), before) is Some ==> exists|c: Context, pt: D, zero: D|
            #![trigger d.func.effect(c, pt, zero, GestureState::Began, before.mouse_button, after)]
            c.grab_cursor && c.owner(event->TouchBegin_id) == path_id(path)
                && d.func.effect(c, pt, zero, GestureState::Began, before.mouse_button, after),
        event is TouchEnd && before.owner(event->TouchEnd_id) == path_id(path) ==> exists|c: Context, pt: D, zero: D|
            #![trigger d.func.effect(c, pt, zero, GestureState::Ended, before.mouse_button, after)]
            !c.grab_cursor && c.owner(event->TouchEnd_id).id == 0
                && d.func.effect(c, pt, zero, GestureState::Ended, before.mouse_button, after),
{
    match event {
        Event::TouchBegin { id, hits, .. } => {
            if before.owner(id).id == 0 && d.hit(path, hits.deep_view(), before) is Some {
                let (c, pt, zero) = choose|c: Context, pt: D, zero: D|
                    #![trigger d.func.effect(c, pt, zero, GestureState::Began, before.mouse_button, after)]
                    call_ensures(D::default, (), zero) && is_local_position(event->TouchBegin_positions@, path, pt)
                    && before.with_touch(id, path_id(path), d.grab, c)
                    && d.func.effect(c, pt, zero, GestureState::Began, before.mouse_button, after);
                assert(c.touches@[id as int] == path_id(path));
            }
        },
        Event::TouchEnd { id, positions } => {
            if before.owner(id) == path_id(path) {
                let (c, pt, zero) = choose|c: Context, pt: D, zero: D|
                    #![trigger d.func.effect(c, pt, zero, GestureState::Ended, before.mouse_button, after)]
                    call_ensures(D::default, (), zero) && is_local_position(positions@, path, pt)
                    && before.with_touch(id, ViewId { id: 0 }, false, c)
                    && d.func.effect(c, pt, zero, GestureState::Ended, before.mouse_button, after);
                assert(c.touches@[id as int] == ViewId { id: 0 });
            }
        },
        _ => {},
    }
}

} // verus!
