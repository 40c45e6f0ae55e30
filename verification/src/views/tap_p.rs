//! The `tap_p` gesture: a tap whose callback is told where the touch ended
//! and whose result is the tap's action.
use vstd::prelude::*;
use std::marker::PhantomData;
use crate::access::{AccessEntry, AccessNode};
use crate::context::Context;
use crate::event::{Event, HotKey, MouseButton, is_local_position, local_position};
use crate::id::{IdPath, ViewId, path_id};
use crate::view::{Action, CommandInfo, DynView, ViewCore, lemma_hit_under_parent};

verus! {

/// A callback of `tap_p`, producing an `A`; positions are of type `D`.
pub trait TapFn<D, A>: 'static {
    /// The callback accepts every call.
    spec fn callable(&self) -> bool;

    /// The callback was run, told the position `pt` and the mouse `button`,
    /// from the context `before`.
    spec fn called(&self, before: Context, pt: D, button: Option<MouseButton>) -> bool;

    /// Runs the callback, told the position and the mouse button.
    fn call(&self, cx: &mut Context, pt: D, button: Option<MouseButton>) -> (r: A)
        requires
            self.callable(),
        ensures
            self.called(*old(cx), pt, button),
    ;
}

/// A callback given the context, the position and the mouse button.
pub struct TapFunc<F> {
    pub f: F,
}

impl<D: 'static, A: 'static, F: Fn(&mut Context, D, Option<MouseButton>) -> A + 'static> TapFn<D, A> for TapFunc<F> {
    open spec fn callable(&self) -> bool {
        forall|cx: &mut Context, pt: D, b: Option<MouseButton>| self.f.requires((cx, pt, b))
    }

    /// A call of the closure, told the position and the button, from `before`.
    open spec fn called(&self, before: Context, pt: D, button: Option<MouseButton>) -> bool {
        exists|c: &mut Context, a: A| *c == before && #[trigger] self.f.ensures((c, pt, button), a)
    }

    /// The closure's result, and its effect on the context: a call of the
    /// closure, told the position and the button, from the context given
    /// to the context left.
    fn call(&self, cx: &mut Context, pt: D, button: Option<MouseButton>) -> (r: A)
        ensures
            exists|c: &mut Context| *c == *old(cx) && *final(c) == *final(cx) && #[trigger] self.f.ensures((c, pt, button), r),
    {
        (self.f)(cx, pt, button)
    }
}

/// A callback given only the context.
pub struct TapAdapter<F> {
    pub f: F,
}

impl<D: 'static, A: 'static, F: Fn(&mut Context) -> A + 'static> TapFn<D, A> for TapAdapter<F> {
    open spec fn callable(&self) -> bool {
        forall|cx: &mut Context| self.f.requires((cx,))
    }

    /// A call of the closure from `before`.
    open spec fn called(&self, before: Context, pt: D, button: Option<MouseButton>) -> bool {
        exists|c: &mut Context, a: A| *c == before && #[trigger] self.f.ensures((c,), a)
    }

    /// The closure's result, and its effect on the context: a call of the
    /// closure from the context given to the context left.
    fn call(&self, cx: &mut Context, pt: D, button: Option<MouseButton>) -> (r: A)
        ensures
            exists|c: &mut Context| *c == *old(cx) && *final(c) == *final(cx) && #[trigger] self.f.ensures((c,), r),
    {
        (self.f)(cx)
    }
}

/// Struct for the `tap_p` gesture.
pub struct TapP<V, F, A> {
    /// Child view tree.
    pub child: V,
    /// Called when a tap occurs.
    pub func: F,
    pub phantom_a: PhantomData<A>,
}

impl<V: ViewCore, F: 'static, A: 'static> TapP<V, F, A> {
    pub fn new(v: V, f: F) -> (t: Self)
        ensures
            t.child == v,
            t.func == f,
    {
        Self { child: v, func: f, phantom_a: PhantomData }
    }
}

impl<V: ViewCore, F: 'static, A: 'static> ViewCore for TapP<V, F, A> {
    open spec fn wf(&self) -> bool {
        self.child.wf()
    }

    open spec fn flexible(&self) -> bool {
        false
    }

    open spec fn hit(&self, path: Seq<u64>, hits: Seq<Seq<u64>>, cx: Context) -> Option<ViewId> {
        self.child.hit(path.push(0), hits, cx)
    }

    open spec fn menu(&self, path: Seq<u64>, cx: Context) -> Seq<(Seq<char>, Option<HotKey>)> {
        self.child.menu(path.push(0), cx)
    }

    open spec fn kept(&self, path: Seq<u64>, cx: Context) -> Seq<ViewId> {
        self.child.kept(path.push(0), cx)
    }

    open spec fn access_nodes(&self, path: Seq<u64>, cx: Context) -> Seq<AccessEntry> {
        self.child.access_nodes(path.push(0), cx)
    }

    open spec fn access_root(&self, path: Seq<u64>, cx: Context) -> Option<u64> {
        self.child.access_root(path.push(0), cx)
    }

    fn hittest(&self, path: &mut IdPath, hits: &Vec<IdPath>, cx: &Context) -> (r: Option<ViewId>) {
        let ghost p0 = path@;
        path.push(0);
        let id = self.child.hittest(path, hits, cx);
        path.pop();
        proof {
            if let Some(v) = id {
                lemma_hit_under_parent(hits.deep_view(), p0, 0, v);
            }
        }
        id
    }

    fn commands(&self, path: &mut IdPath, cx: &mut Context, cmds: &mut Vec<CommandInfo>) {
        path.push(0);
        self.child.commands(path, cx, cmds);
        path.pop();
    }

    fn gc(&self, path: &mut IdPath, cx: &mut Context, map: &mut Vec<ViewId>) {
        path.push(0);
        self.child.gc(path, cx, map);
        path.pop();
    }

    fn access(&self, path: &mut IdPath, cx: &Context, nodes: &mut Vec<AccessNode>) -> (r: Option<u64>) {
        path.push(0);
        let id = self.child.access(path, cx, nodes);
        path.pop();
        id
    }

    fn is_flexible(&self) -> (b: bool) {
        false
    }
}

impl<D: Copy + Default + 'static, V: ViewCore, A: 'static, F: TapFn<D, A>> DynView<D> for TapP<V, F, A> {
    open spec fn ready(&self) -> bool {
        self.func.callable()
    }

    /// A touch that begins on the view is captured by it; when that touch
    /// ends, it is released and the callback's result, told where, is the
    /// action; it is run from the context with the touch released. Other events
    /// are ignored, and the child sees none.
    open spec fn processed(&self, event: Event<D>, path: Seq<u64>, before: Context, after: Context, added: nat) -> bool {
        match event {
            Event::TouchBegin { id, hits, .. } => {
                &&& added == 0
                &&& if self.hit(path, hits.deep_view(), before) is Some {
                    before.with_touch(id, path_id(path), before.grab_cursor, after)
                } else {
                    after == before
                }
            },
            Event::TouchEnd { id, positions } => if before.owner(id) == path_id(path) {
                &&& added == 1
                &&& exists|released: Context, pt: D|
                    #![trigger self.func.called(released, pt, before.mouse_button)]
                    is_local_position(positions@, path, pt)
                    && before.with_touch(id, ViewId { id: 0 }, before.grab_cursor, released)
                    && self.func.called(released, pt, before.mouse_button)
            } else {
                after == before && added == 0
            },
            _ => after == before && added == 0,
        }
    }

    fn process(&self, event: &Event<D>, path: &mut IdPath, cx: &mut Context, actions: &mut Vec<Action>) {
        let vid = cx.view_id(path);
        match event {
            Event::TouchBegin { id, hits, .. } => {
                if self.hittest(path, hits, cx).is_some() {
                    cx.touches[*id] = vid;
                }
            },
            Event::TouchEnd { id, positions } => {
                if cx.touches[*id] == vid {
                    cx.touches[*id] = ViewId::default();
                    let button = cx.mouse_button;
                    let pt = local_position(positions, path);
                    let ghost released = *cx;
                    let a = self.func.call(cx, pt, button);
                    actions.push(Action::new(a));
                }
            },
            _ => {},
        }
    }
}

} // verus!
