//! The `focus` modifier: keyboard focus for a view subtree.
use vstd::prelude::*;
use crate::access::{AccessEntry, AccessNode};
use crate::context::Context;
use crate::event::{Event, HotKey, Key};
use crate::id::{IdPath, ViewId, path_id, view_id};
use crate::view::{Action, CommandInfo, DynView, ViewCore, lemma_hit_under_parent};

verus! {

/// Whether `vid` holds the keyboard focus.
pub fn has_focus(cx: &Context, vid: ViewId) -> (b: bool)
    ensures
        b == (cx.focused_id == Some(vid)),
{
    match cx.focused_id {
        Some(f) => f == vid,
        None => false,
    }
}

/// The context after the focus view `vid` saw `event`: a touch beginning on
/// it (`touched`) takes the focus; Escape gives the focus up if the view
/// holds it. Each change asks for a redraw.
pub open spec fn focus_updated<D>(cx: Context, vid: ViewId, event: Event<D>, touched: bool) -> Context {
    match event {
        Event::TouchBegin { .. } => if touched {
            Context { focused_id: Some(vid), dirty: true, ..cx }
        } else {
            cx
        },
        Event::Key(Key::Escape) => if cx.focused_id == Some(vid) {
            Context { focused_id: None, dirty: true, ..cx }
        } else {
            cx
        },
        _ => cx,
    }
}

/// How the focus view `vid` changes the keyboard focus on `event` (see
/// `focus_updated`).
pub fn update_focus<D>(cx: &mut Context, vid: ViewId, event: &Event<D>, touched: bool)
    ensures
        *final(cx) == focus_updated(*old(cx), vid, *event, touched),
{
    match event {
        Event::TouchBegin { .. } => {
            if touched {
                cx.focused_id = Some(vid);
                cx.set_dirty();
            }
        },
        Event::Key(Key::Escape) => {
            if has_focus(cx, vid) {
                cx.focused_id = None;
                cx.set_dirty();
            }
        },
        _ => {},
    }
}

/// The view that `f` builds when told `b`.
pub open spec fn built<V, F: Fn(bool) -> V>(f: F, b: bool) -> V {
    choose|v: V| f.ensures((b,), v)
}

/// `f` builds the same view each time it is told the same thing.
pub open spec fn builds_deterministically<V, F: Fn(bool) -> V>(f: F) -> bool {
    forall|b: bool, v1: V, v2: V| #[trigger] f.ensures((b,), v1) && #[trigger] f.ensures((b,), v2) ==> v1 == v2
}

/// A view that `f` returned is the one it builds.
pub proof fn lemma_built<V, F: Fn(bool) -> V>(f: F, b: bool, v: V)
    requires
        f.ensures((b,), v),
        builds_deterministically(f),
    ensures
        built(f, b) == v,
{
}

/// Whether the view at `path` holds the focus in `cx`.
pub open spec fn focused_at(cx: Context, path: Seq<u64>) -> bool {
    cx.focused_id == Some(path_id(path))
}

/// Struct for the `focus` modifier: `func` builds the subtree, told whether
/// it has the focus. The subtree sits at index 0.
pub struct Focus<F> {
    pub func: F,
}

impl<V: ViewCore, F: Fn(bool) -> V + Clone + 'static> ViewCore for Focus<F> {
    open spec fn wf(&self) -> bool {
        &&& forall|b: bool| self.func.requires((b,))
        &&& forall|b: bool, v: V| self.func.ensures((b,), v) ==> v.wf()
        &&& builds_deterministically(self.func)
    }

    open spec fn flexible(&self) -> bool {
        false
    }

    open spec fn hit(&self, path: Seq<u64>, hits: Seq<Seq<u64>>, cx: Context) -> Option<ViewId> {
        built(self.func, focused_at(cx, path)).hit(path.push(0), hits, cx)
    }

    open spec fn menu(&self, path: Seq<u64>, cx: Context) -> Seq<(Seq<char>, Option<HotKey>)> {
        built(self.func, focused_at(cx, path)).menu(path.push(0), cx)
    }

    open spec fn kept(&self, path: Seq<u64>, cx: Context) -> Seq<ViewId> {
        built(self.func, focused_at(cx, path)).kept(path.push(0), cx)
    }

    open spec fn access_nodes(&self, path: Seq<u64>, cx: Context) -> Seq<AccessEntry> {
        built(self.func, focused_at(cx, path)).access_nodes(path.push(0), cx)
    }

    open spec fn access_root(&self, path: Seq<u64>, cx: Context) -> Option<u64> {
        built(self.func, focused_at(cx, path)).access_root(path.push(0), cx)
    }

    fn hittest(&self, path: &mut IdPath, hits: &Vec<IdPath>, cx: &Context) -> (r: Option<ViewId>) {
        let ghost p0 = path@;
        let vid = view_id(path);
        let b = has_focus(cx, vid);
        let child = (self.func)(b);
        proof {
            lemma_built(self.func, b, child);
        }
        path.push(0);
        let id = child.hittest(path, hits, cx);
        path.pop();
        proof {
            if let Some(v) = id {
                lemma_hit_under_parent(hits.deep_view(), p0, 0, v);
            }
        }
        id
    }

    fn commands(&self, path: &mut IdPath, cx: &mut Context, cmds: &mut Vec<CommandInfo>) {
        let vid = view_id(path);
        let b = has_focus(cx, vid);
        let child = (self.func)(b);
        proof {
            lemma_built(self.func, b, child);
        }
        path.push(0);
        child.commands(path, cx, cmds);
        path.pop();
    }

    fn gc(&self, path: &mut IdPath, cx: &mut Context, map: &mut Vec<ViewId>) {
        let vid = view_id(path);
        let b = has_focus(cx, vid);
        let child = (self.func)(b);
        proof {
            lemma_built(self.func, b, child);
        }
        path.push(0);
        child.gc(path, cx, map);
        path.pop();
    }

    fn access(&self, path: &mut IdPath, cx: &Context, nodes: &mut Vec<AccessNode>) -> (r: Option<u64>) {
        let vid = view_id(path);
        let b = has_focus(cx, vid);
        let child = (self.func)(b);
        proof {
            lemma_built(self.func, b, child);
        }
        path.push(0);
        let id = child.access(path, cx, nodes);
        path.pop();
        id
    }

    fn is_flexible(&self) -> (b: bool) {
        false
    }
}

impl<D: 'static, V: DynView<D>, F: Fn(bool) -> V + Clone + 'static> DynView<D> for Focus<F> {
    open spec fn ready(&self) -> bool {
        forall|b: bool, v: V| self.func.ensures((b,), v) ==> v.ready()
    }

    /// Updates the focus (see `focus_updated`), then the subtree built for
    /// the new focus state handles the event.
    open spec fn processed(&self, event: Event<D>, path: Seq<u64>, before: Context, after: Context, added: nat) -> bool {
        let touched = match event {
            Event::TouchBegin { hits, .. } => self.hit(path, hits.deep_view(), before) is Some,
            _ => false,
        };
        let mid = focus_updated(before, path_id(path), event, touched);
        built(self.func, focused_at(mid, path)).processed(event, path.push(0), mid, after, added)
    }

    fn process(&self, event: &Event<D>, path: &mut IdPath, cx: &mut Context, actions: &mut Vec<Action>) {
        let vid = view_id(path);
        let touched = match event {
            Event::TouchBegin { hits, .. } => self.hittest(path, hits, cx).is_some(),
            _ => false,
        };
        update_focus(cx, vid, event, touched);
        let b = has_focus(cx, vid);
        let child = (self.func)(b);
        proof {
            lemma_built(self.func, b, child);
        }
        path.push(0);
        child.process(event, path, cx, actions);
        path.pop();
    }
}

/// Calls `f` with true if the view subtree it returns has the keyboard focus.
pub fn focus<V: ViewCore, F: Fn(bool) -> V + Clone + 'static>(f: F) -> (v: Focus<F>)
    ensures
        v.func == f,
{
    Focus { func: f }
}

} // verus!
