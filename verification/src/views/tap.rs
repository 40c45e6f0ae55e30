//! The `tap` gesture: a touch that begins on the view and ends while the
//! view still holds it.
use vstd::prelude::*;
use crate::access::{AccessEntry, AccessNode};
use crate::context::Context;
use crate::event::{Event, HotKey, Located, MouseButton, NUM_TOUCHES, is_local_position, local_position};
use crate::id::{IdPath, ViewId, path_id};
use crate::view::{Action, CommandInfo, DynView, ViewCore, extends, lemma_hit_under_parent};
use crate::views::touch::TouchState;

verus! {

/// What a tap callback is told: where the touch ended, the mouse button and
/// the phase.
#[derive(Clone, Copy, Debug)]
pub struct TapInfo<D> {
    pub pt: D,
    pub button: Option<MouseButton>,
    pub state: TouchState,
}

/// A tap callback; positions are of type `D`.
pub trait TapFn<D>: 'static {
    /// The callback accepts every call.
    spec fn callable(&self) -> bool;

    /// `after` is a context the callback may leave when it is told `info`
    /// in the context `before`.
    spec fn effect(&self, before: Context, info: TapInfo<D>, after: Context) -> bool;

    /// Runs the callback, appending what it returns to `actions`.
    fn call(&self, cx: &mut Context, tap_info: TapInfo<D>, actions: &mut Vec<Action>)
        requires
            self.callable(),
        ensures
            final(actions)@.len() == old(actions)@.len() + 1,
            extends(old(actions)@, final(actions)@),
            self.effect(*old(cx), tap_info, *final(cx)),
    ;
}

/// A callback given the context and the tap information.
pub struct TapFunc<F> {
    pub f: F,
}

impl<D: 'static, A: 'static, F: Fn(&mut Context, TapInfo<D>) -> A + 'static> TapFn<D> for TapFunc<F> {
    open spec fn callable(&self) -> bool {
        forall|cx: &mut Context, i: TapInfo<D>| self.f.requires((cx, i))
    }

    /// A call of the closure, told the tap information, starting from `before`.
    /// `after` is not tied to that call: a spec function cannot name the
    /// context a closure leaves.
    open spec fn effect(&self, before: Context, info: TapInfo<D>, after: Context) -> bool {
        exists|c: &mut Context, a: A| *c == before && #[trigger] self.f.ensures((c, info), a)
    }

    fn call(&self, cx: &mut Context, tap_info: TapInfo<D>, actions: &mut Vec<Action>) {
        let a = (self.f)(cx, tap_info);
        actions.push(Action::new(a));
    }
}

/// A callback given the context, the position and the mouse button.
pub struct TapPositionFunc<F> {
    pub f: F,
}

impl<D: 'static, A: 'static, F: Fn(&mut Context, D, Option<MouseButton>) -> A + 'static> TapFn<D> for TapPositionFunc<F> {
    open spec fn callable(&self) -> bool {
        forall|cx: &mut Context, pt: D, b: Option<MouseButton>| self.f.requires((cx, pt, b))
    }

    /// A call of the closure, told the position and the button, starting
    /// from `before`.
    /// `after` is not tied to that call: a spec function cannot name the
    /// context a closure leaves.
    open spec fn effect(&self, before: Context, info: TapInfo<D>, after: Context) -> bool {
        exists|c: &mut Context, a: A| *c == before && #[trigger] self.f.ensures((c, info.pt, info.button), a)
    }

    fn call(&self, cx: &mut Context, tap_info: TapInfo<D>, actions: &mut Vec<Action>) {
        let a = (self.f)(cx, tap_info.pt, tap_info.button);
        actions.push(Action::new(a));
    }
}

/// A callback given only the context.
pub struct TapAdapter<F> {
    pub f: F,
}

impl<D: 'static, A: 'static, F: Fn(&mut Context) -> A + 'static> TapFn<D> for TapAdapter<F> {
    open spec fn callable(&self) -> bool {
        forall|cx: &mut Context| self.f.requires((cx,))
    }

    /// A call of the closure starting from `before`.
    /// `after` is not tied to that call: a spec function cannot name the
    /// context a closure leaves.
    open spec fn effect(&self, before: Context, info: TapInfo<D>, after: Context) -> bool {
        exists|c: &mut Context, a: A| *c == before && #[trigger] self.f.ensures((c,), a)
    }

    fn call(&self, cx: &mut Context, tap_info: TapInfo<D>, actions: &mut Vec<Action>) {
        let a = (self.f)(cx);
        actions.push(Action::new(a));
    }
}

/// No callback: a copy of `action` is the tap's action.
pub struct TapActionAdapter<A> {
    pub action: A,
}

impl<D: 'static, A: Clone + 'static> TapFn<D> for TapActionAdapter<A> {
    open spec fn callable(&self) -> bool {
        true
    }

    /// The context is left as it is.
    open spec fn effect(&self, before: Context, info: TapInfo<D>, after: Context) -> bool {
        after == before
    }

    fn call(&self, cx: &mut Context, tap_info: TapInfo<D>, actions: &mut Vec<Action>) {
        actions.push(Action::new(self.action.clone()));
    }
}

/// Struct for the `tap` gesture.
pub struct Tap<V, F> {
    /// Child view tree.
    pub child: V,
    /// Called when a tap occurs.
    pub func: F,
}

impl<V: ViewCore, F: 'static> Tap<V, F> {
    pub fn new(v: V, f: F) -> (t: Self)
        ensures
            t.child == v,
            t.func == f,
    {
        Self { child: v, func: f }
    }
}

impl<V: ViewCore, F: 'static> ViewCore for Tap<V, F> {
    open spec fn wf(&self) -> bool {
        self.child.wf()
    }

    open spec fn flexible(&self) -> bool {
        false
    }

    open spec fn hit(&self, path: Seq<u64>, hits: Seq<Seq<u64>>, cx: Context) -> Option<ViewId> {
        self.child.hit(path.push(0), hits, cx)
    }

    open spec fn menu(&self, path: Seq<u64>, cx: Context) -> Seq<(Seq<char>, Option<HotKey>)> {
        self.child.menu(path.push(0), cx)
    }

    open spec fn kept(&self, path: Seq<u64>, cx: Context) -> Seq<ViewId> {
        self.child.kept(path.push(0), cx)
    }

    open spec fn access_nodes(&self, path: Seq<u64>, cx: Context) -> Seq<AccessEntry> {
        self.child.access_nodes(path.push(0), cx)
    }

    open spec fn access_root(&self, path: Seq<u64>, cx: Context) -> Option<u64> {
        self.child.access_root(path.push(0), cx)
    }

    fn hittest(&self, path: &mut IdPath, hits: &Vec<IdPath>, cx: &Context) -> (r: Option<ViewId>) {
        let ghost p0 = path@;
        path.push(0);
        let id = self.child.hittest(path, hits, cx);
        path.pop();
        proof {
            if let Some(v) = id {
                lemma_hit_under_parent(hits.deep_view(), p0, 0, v);
            }
        }
        id
    }

    fn commands(&self, path: &mut IdPath, cx: &mut Context, cmds: &mut Vec<CommandInfo>) {
        path.push(0);
        self.child.commands(path, cx, cmds);
        path.pop();
    }

    fn gc(&self, path: &mut IdPath, cx: &mut Context, map: &mut Vec<ViewId>) {
        path.push(0);
        self.child.gc(path, cx, map);
        path.pop();
    }

    fn access(&self, path: &mut IdPath, cx: &Context, nodes: &mut Vec<AccessNode>) -> (r: Option<u64>) {
        path.push(0);
        let id = self.child.access(path, cx, nodes);
        path.pop();
        id
    }

    fn is_flexible(&self) -> (b: bool) {
        false
    }
}

impl<D: Copy + Default + 'static, V: ViewCore, F: TapFn<D>> DynView<D> for Tap<V, F> {
    open spec fn ready(&self) -> bool {
        self.func.callable()
    }

    /// A touch that begins on the view is captured by it; when that touch
    /// ends, it is released and the callback runs, told where. Other events
    /// are ignored, and the child sees none.
    open spec fn processed(&self, event: Event<D>, path: Seq<u64>, before: Context, after: Context, added: nat) -> bool {
        match event {
            Event::TouchBegin { id, hits, .. } => {
                &&& added == 0
                &&& if self.hit(path, hits.deep_view(), before) is Some {
                    before.with_touch(id, path_id(path), before.grab_cursor, after)
                } else {
                    after == before
                }
            },
            Event::TouchEnd { id, positions } => if before.owner(id) == path_id(path) {
                &&& added == 1
                &&& exists|released: Context, pt: D|
                    #![trigger self.func.effect(released, TapInfo { pt, button: before.mouse_button, state: TouchState::End }, after)]
                    before.with_touch(id, ViewId { id: 0 }, before.grab_cursor, released)
                    && is_local_position(positions@, path, pt)
                    && self.func.effect(released, TapInfo { pt, button: before.mouse_button, state: TouchState::End }, after)
            } else {
                after == before && added == 0
            },
            _ => after == before && added == 0,
        }
    }

    fn process(&self, event: &Event<D>, path: &mut IdPath, cx: &mut Context, actions: &mut Vec<Action>) {
        let vid = cx.view_id(path);
        match event {
            Event::TouchBegin { id, hits, .. } => {
                if self.hittest(path, hits, cx).is_some() {
                    cx.touches[*id] = vid;
                }
            },
            Event::TouchEnd { id, positions } => {
                if cx.touches[*id] == vid {
                    cx.touches[*id] = ViewId::default();
                    let pt = local_position(positions, path);
                    let info = TapInfo { pt, button: cx.mouse_button, state: TouchState::End };
                    let ghost released = *cx;
                    self.func.call(cx, info, actions);
                    assert(self.func.effect(released, info, *cx));
                }
            },
            _ => {},
        }
    }
}

/// A tap whose callback leaves the context alone gives back a touch it
/// captured: once a touch has begun on the tap and ended, the touch is free
/// again, nothing else in the context changed, and one action came out.
pub proof fn law_tap_touch_cycle<D: Copy + Default + 'static, V: ViewCore, A: Clone + 'static>(
    t: Tap<V, TapActionAdapter<A>>,
    id: usize,
    start: Vec<Located<D>>,
    end: Vec<Located<D>>,
    hits: Vec<IdPath>,
    path: Seq<u64>,
    c0: Context,
    c1: Context,
    c2: Context,
    n1: nat,
    n2: nat,
)
    requires
        id < NUM_TOUCHES,
        t.hit(path, hits.deep_view(), c0) is Some,
        t.processed(Event::<D>::TouchBegin { id, positions: start, hits }, path, c0, c1, n1),
        t.processed(Event::<D>::TouchEnd { id, positions: end }, path, c1, c2, n2),
    ensures
        c0.with_touch(id, ViewId { id: 0 }, c0.grab_cursor, c2),
        n1 + n2 == 1,
{
    assert(c1.owner(id) == path_id(path));
    let (released, pt) = choose|released: Context, pt: D|
        #![trigger <TapActionAdapter<A> as TapFn<D>>::effect(&t.func, released, TapInfo { pt, button: c1.mouse_button, state: TouchState::End }, c2)]
        c1.with_touch(id, ViewId { id: 0 }, c1.grab_cursor, released)
        && is_local_position(end@, path, pt)
        && <TapActionAdapter<A> as TapFn<D>>::effect(&t.func, released, TapInfo { pt, button: c1.mouse_button, state: TouchState::End }, c2);
    assert(c2 == released);
    assert(c2.touches@ =~= c0.touches@.update(id as int, ViewId { id: 0 }));
}

} // verus!
