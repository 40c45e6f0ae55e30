//! The `drag_p` gesture: a drag whose callback is told the position of the
//! touch rather than its movement.
use vstd::prelude::*;
use crate::access::{AccessEntry, AccessNode};
use crate::context::Context;
use crate::event::{Event, HotKey, MouseButton, is_local_position, local_position};
use crate::id::{IdPath, ViewId, path_id};
use crate::view::{Action, CommandInfo, DynView, ViewCore, lemma_hit_under_parent};

verus! {

/// `f` was called, told the position `pt` and the mouse `button`, from the
/// context `before`. (The context it leaves is not named here: a spec
/// function cannot name the context a closure leaves.)
pub open spec fn called_from<D, A, F: Fn(&mut Context, D, Option<MouseButton>) -> A>(
    f: F,
    before: Context,
    pt: D,
    button: Option<MouseButton>,
) -> bool {
    exists|c: &mut Context, a: A| *c == before && #[trigger] f.ensures((c, pt, button), a)
}

/// Struct for the `drag_p` gesture.
pub struct DragP<V, F> {
    pub child: V,
    pub func: F,
    /// Whether the cursor is grabbed while dragging.
    pub grab: bool,
}

impl<V: ViewCore, F> DragP<V, F> {
    /// A drag on `v` that does not grab the cursor.
    pub fn new(v: V, f: F) -> (d: Self)
        ensures
            d.child == v,
            d.func == f,
            !d.grab,
    {
        Self { child: v, func: f, grab: false }
    }

    /// A drag on `v` that grabs the cursor while dragging.
    pub fn grab_cursor(v: V, f: F) -> (d: Self)
        ensures
            d.child == v,
            d.func == f,
            d.grab,
    {
        Self { child: v, func: f, grab: true }
    }
}

impl<V: ViewCore, F: 'static> ViewCore for DragP<V, F> {
    open spec fn wf(&self) -> bool {
        self.child.wf()
    }

    open spec fn flexible(&self) -> bool {
        false
    }

    open spec fn hit(&self, path: Seq<u64>, hits: Seq<Seq<u64>>, cx: Context) -> Option<ViewId> {
        self.child.hit(path.push(0), hits, cx)
    }

    open spec fn menu(&self, path: Seq<u64>, cx: Context) -> Seq<(Seq<char>, Option<HotKey>)> {
        self.child.menu(path.push(0), cx)
    }

    open spec fn kept(&self, path: Seq<u64>, cx: Context) -> Seq<ViewId> {
        self.child.kept(path.push(0), cx)
    }

    open spec fn access_nodes(&self, path: Seq<u64>, cx: Context) -> Seq<AccessEntry> {
        self.child.access_nodes(path.push(0), cx)
    }

    open spec fn access_root(&self, path: Seq<u64>, cx: Context) -> Option<u64> {
        self.child.access_root(path.push(0), cx)
    }

    fn hittest(&self, path: &mut IdPath, hits: &Vec<IdPath>, cx: &Context) -> (r: Option<ViewId>) {
        let ghost p0 = path@;
        path.push(0);
        let id = self.child.hittest(path, hits, cx);
        path.pop();
        proof {
            if let Some(v) = id {
                lemma_hit_under_parent(hits.deep_view(), p0, 0, v);
            }
        }
        id
    }

    fn commands(&self, path: &mut IdPath, cx: &mut Context, cmds: &mut Vec<CommandInfo>) {
        path.push(0);
        self.child.commands(path, cx, cmds);
        path.pop();
    }

    fn gc(&self, path: &mut IdPath, cx: &mut Context, map: &mut Vec<ViewId>) {
        path.push(0);
        self.child.gc(path, cx, map);
        path.pop();
    }

    fn access(&self, path: &mut IdPath, cx: &Context, nodes: &mut Vec<AccessNode>) -> (r: Option<u64>) {
        path.push(0);
        let id = self.child.access(path, cx, nodes);
        path.pop();
        id
    }

    fn is_flexible(&self) -> (b: bool) {
        false
    }
}

impl<D: Copy + Default + 'static, V: ViewCore, A: 'static, F: Fn(&mut Context, D, Option<MouseButton>) -> A + 'static> DynView<D> for DragP<V, F> {
    open spec fn ready(&self) -> bool {
        forall|cx: &mut Context, p: D, b: Option<MouseButton>| self.func.requires((cx, p, b))
    }

    /// A touch that begins on the view while no view holds it is captured,
    /// the cursor grab is set as the view asks and the callback runs from
    /// that context, told the default position; moves of that touch run it
    /// with their position local to the view; its end releases it and the
    /// cursor and runs it, from that context, with the end position. The
    /// callback is always told the mouse button. Each run adds one action.
    /// Other events are ignored, and the child sees none.
    open spec fn processed(&self, event: Event<D>, path: Seq<u64>, before: Context, after: Context, added: nat) -> bool {
        match event {
            Event::TouchBegin { id, hits, .. } => if before.owner(id).id == 0
                && self.hit(path, hits.deep_view(), before) is Some {
                &&& added == 1
                &&& exists|captured: Context, zero: D|
                    #![trigger called_from(self.func, captured, zero, before.mouse_button)]
                    call_ensures(D::default, (), zero)
                    && before.with_touch(id, path_id(path), self.grab, captured)
                    && called_from(self.func, captured, zero, before.mouse_button)
            } else {
                after == before && added == 0
            },
            Event::TouchMove { id, positions, .. } => if before.owner(id) == path_id(path) {
                &&& added == 1
                &&& exists|pt: D|
                    #![trigger called_from(self.func, before, pt, before.mouse_button)]
                    is_local_position(positions@, path, pt)
                    && called_from(self.func, before, pt, before.mouse_button)
            } else {
                after == before && added == 0
            },
            Event::TouchEnd { id, positions } => if before.owner(id) == path_id(path) {
                &&& added == 1
                &&& exists|released: Context, pt: D|
                    #![trigger called_from(self.func, released, pt, before.mouse_button)]
                    is_local_position(positions@, path, pt)
                    && before.with_touch(id, ViewId { id: 0 }, false, released)
                    && called_from(self.func, released, pt, before.mouse_button)
            } else {
                after == before && added == 0
            },
            _ => after == before && added == 0,
        }
    }

    fn process(&self, event: &Event<D>, path: &mut IdPath, cx: &mut Context, actions: &mut Vec<Action>) {
        let vid = cx.view_id(path);
        match event {
            Event::TouchBegin { id, hits, .. } => {
                if cx.touches[*id].is_default() && self.hittest(path, hits, cx).is_some() {
                    cx.touches[*id] = vid;
                    cx.grab_cursor = self.grab;
                    let button = cx.mouse_button;
                    let zero = D::default();
                    let ghost captured = *cx;
                    let a = (self.func)(cx, zero, button);
                    assert(called_from(self.func, captured, zero, button));
                    actions.push(Action::new(a));
                }
            },
            Event::TouchMove { id, positions, .. } => {
                if cx.touches[*id] == vid {
                    let button = cx.mouse_button;
                    let pt = local_position(positions, path);
                    let ghost b0 = *cx;
                    let a = (self.func)(cx, pt, button);
                    assert(called_from(self.func, b0, pt, button));
                    actions.push(Action::new(a));
                }
            },
            Event::TouchEnd { id, positions } => {
                if cx.touches[*id] == vid {
                    cx.touches[*id] = ViewId::default();
                    cx.grab_cursor = false;
                    let button = cx.mouse_button;
                    let pt = local_position(positions, path);
                    let ghost released = *cx;
                    let a = (self.func)(cx, pt, button);
                    assert(called_from(self.func, released, pt, button));
                    actions.push(Action::new(a));
                }
            },
            _ => {},
        }
    }
}

} // verus!
