//! The `hover` gesture: reports whether the pointer moves over the view.
use vstd::prelude::*;
use crate::access::{AccessEntry, AccessNode};
use crate::context::Context;
use crate::event::{Event, HotKey, is_local_position, local_position};
use crate::id::{IdPath, ViewId};
use crate::view::{Action, CommandInfo, DynView, ViewCore, extends, lemma_hit_under_parent};

verus! {

/// A hover callback; positions are of type `D`.
pub trait HoverFn<D>: 'static {
    /// The callback accepts every call.
    spec fn callable(&self) -> bool;

    /// How many actions the callback adds when told `inside`.
    spec fn adds(&self, inside: bool) -> nat;

    /// `after` is a context the callback may leave when it is told the
    /// position `pt` and `inside` in the context `before`.
    spec fn effect(&self, before: Context, pt: D, inside: bool, after: Context) -> bool;

    /// Runs the callback, appending what it returns to `actions`.
    fn call(&self, cx: &mut Context, pt: D, inside: bool, actions: &mut Vec<Action>)
        requires
            self.callable(),
        ensures
            final(actions)@.len() == old(actions)@.len() + self.adds(inside),
            extends(old(actions)@, final(actions)@),
            self.effect(*old(cx), pt, inside, *final(cx)),
    ;
}

/// A callback given the position of the pointer, run only while the
/// pointer is over the view.
pub struct HoverFuncP<F> {
    pub f: F,
}

impl<D: 'static, A: 'static, F: Fn(&mut Context, D) -> A + 'static> HoverFn<D> for HoverFuncP<F> {
    open spec fn callable(&self) -> bool {
        forall|cx: &mut Context, pt: D| self.f.requires((cx, pt))
    }

    open spec fn adds(&self, inside: bool) -> nat {
        if inside { 1 } else { 0 }
    }

    /// Outside the view nothing runs; inside, a call of the closure, told
    /// the position, starting from `before`.
    /// `after` is not tied to that call: a spec function cannot name the
    /// context a closure leaves.
    open spec fn effect(&self, before: Context, pt: D, inside: bool, after: Context) -> bool {
        if inside {
            exists|c: &mut Context, a: A| *c == before && #[trigger] self.f.ensures((c, pt), a)
        } else {
            after == before
        }
    }

    fn call(&self, cx: &mut Context, pt: D, inside: bool, actions: &mut Vec<Action>) {
        if inside {
            let a = (self.f)(cx, pt);
            actions.push(Action::new(a));
        }
    }
}

/// A callback told whether the pointer is over the view.
pub struct HoverFunc<F> {
    pub f: F,
}

impl<D: 'static, A: 'static, F: Fn(&mut Context, bool) -> A + 'static> HoverFn<D> for HoverFunc<F> {
    open spec fn callable(&self) -> bool {
        forall|cx: &mut Context, inside: bool| self.f.requires((cx, inside))
    }

    open spec fn adds(&self, inside: bool) -> nat {
        1
    }

    /// A call of the closure, told whether the pointer is inside, starting
    /// from `before`.
    /// `after` is not tied to that call: a spec function cannot name the
    /// context a closure leaves.
    open spec fn effect(&self, before: Context, pt: D, inside: bool, after: Context) -> bool {
        exists|c: &mut Context, a: A| *c == before && #[trigger] self.f.ensures((c, inside), a)
    }

    fn call(&self, cx: &mut Context, pt: D, inside: bool, actions: &mut Vec<Action>) {
        let a = (self.f)(cx, inside);
        actions.push(Action::new(a));
    }
}

/// Struct for the `hover` and `hover_p` gestures.
pub struct Hover<V, F> {
    pub child: V,
    pub func: F,
}

impl<V: ViewCore, F: 'static> Hover<V, F> {
    pub fn new(v: V, f: F) -> (h: Self)
        ensures
            h.child == v,
            h.func == f,
    {
        Self { child: v, func: f }
    }
}

impl<V: ViewCore, F: 'static> ViewCore for Hover<V, F> {
    open spec fn wf(&self) -> bool {
        self.child.wf()
    }

    open spec fn flexible(&self) -> bool {
        false
    }

    open spec fn hit(&self, path: Seq<u64>, hits: Seq<Seq<u64>>, cx: Context) -> Option<ViewId> {
        self.child.hit(path.push(0), hits, cx)
    }

    open spec fn menu(&self, path: Seq<u64>, cx: Context) -> Seq<(Seq<char>, Option<HotKey>)> {
        self.child.menu(path.push(0), cx)
    }

    open spec fn kept(&self, path: Seq<u64>, cx: Context) -> Seq<ViewId> {
        self.child.kept(path.push(0), cx)
    }

    open spec fn access_nodes(&self, path: Seq<u64>, cx: Context) -> Seq<AccessEntry> {
        self.child.access_nodes(path.push(0), cx)
    }

    open spec fn access_root(&self, path: Seq<u64>, cx: Context) -> Option<u64> {
        self.child.access_root(path.push(0), cx)
    }

    fn hittest(&self, path: &mut IdPath, hits: &Vec<IdPath>, cx: &Context) -> (r: Option<ViewId>) {
        let ghost p0 = path@;
        path.push(0);
        let id = self.child.hittest(path, hits, cx);
        path.pop();
        proof {
            if let Some(v) = id {
                lemma_hit_under_parent(hits.deep_view(), p0, 0, v);
            }
        }
        id
    }

    fn commands(&self, path: &mut IdPath, cx: &mut Context, cmds: &mut Vec<CommandInfo>) {
        path.push(0);
        self.child.commands(path, cx, cmds);
        path.pop();
    }

    fn gc(&self, path: &mut IdPath, cx: &mut Context, map: &mut Vec<ViewId>) {
        path.push(0);
        self.child.gc(path, cx, map);
        path.pop();
    }

    fn access(&self, path: &mut IdPath, cx: &Context, nodes: &mut Vec<AccessNode>) -> (r: Option<u64>) {
        path.push(0);
        let id = self.child.access(path, cx, nodes);
        path.pop();
        id
    }

    fn is_flexible(&self) -> (b: bool) {
        false
    }
}

impl<D: Copy + Default + 'static, V: DynView<D>, F: HoverFn<D>> DynView<D> for Hover<V, F> {
    open spec fn ready(&self) -> bool {
        self.child.ready() && self.func.callable()
    }

    /// A pointer move while no mouse button is held runs the callback,
    /// telling it where the pointer is and whether it is over the view. Then
    /// the child handles the event.
    open spec fn processed(&self, event: Event<D>, path: Seq<u64>, before: Context, after: Context, added: nat) -> bool {
        match event {
            Event::TouchMove { positions, hits, .. } => if before.mouse_button is None {
                let inside = self.hit(path, hits.deep_view(), before) is Some;
                exists|mid: Context, pt: D, a: nat|
                    #![trigger self.func.effect(before, pt, inside, mid), self.child.processed(event, path.push(0), mid, after, a)]
                    is_local_position(positions@, path, pt)
                    && self.func.effect(before, pt, inside, mid)
                    && self.child.processed(event, path.push(0), mid, after, a)
                    && added == a + self.func.adds(inside)
            } else {
                self.child.processed(event, path.push(0), before, after, added)
            },
            _ => self.child.processed(event, path.push(0), before, after, added),
        }
    }

    fn process(&self, event: &Event<D>, path: &mut IdPath, cx: &mut Context, actions: &mut Vec<Action>) {
        let ghost p0 = path@;
        let ghost cx0 = *cx;
        let ghost n0 = actions@.len();
        if let Event::TouchMove { positions, hits, .. } = event {
            if cx.mouse_button.is_none() {
                let inside = self.hittest(path, hits, cx).is_some();
                let pt = local_position(positions, path);
                self.func.call(cx, pt, inside, actions);
            }
        }
        let ghost mid = *cx;
        let ghost n1 = actions@.len();
        path.push(0);
        self.child.process(event, path, cx, actions);
        path.pop();
        proof {
            assert(self.child.processed(*event, p0.push(0), mid, *cx, (actions@.len() - n1) as nat));
        }
    }
}

} // verus!
