//! The `geom` modifier: reports the size and transform of a view when it is
//! drawn; for everything else it stands aside.
use vstd::prelude::*;
use crate::access::{AccessEntry, AccessNode};
use crate::context::Context;
use crate::event::{Event, HotKey};
use crate::id::{IdPath, ViewId, path_id, view_id};
use crate::view::{Action, CommandInfo, DynView, ViewCore, lemma_hit_under_parent};

verus! {

/// Struct for the `geom` modifier. `func` is called with the view's size
/// and transform when the view is drawn.
pub struct Geom<V, F> {
    pub child: V,
    pub func: F,
}

impl<V: ViewCore, F> Geom<V, F> {
    pub fn new(child: V, func: F) -> (g: Self)
        ensures
            g.child == child,
            g.func == func,
    {
        Self { child, func }
    }
}

impl<V: ViewCore, F: 'static> ViewCore for Geom<V, F> {
    open spec fn wf(&self) -> bool {
        self.child.wf()
    }

    open spec fn flexible(&self) -> bool {
        false
    }

    open spec fn hit(&self, path: Seq<u64>, hits: Seq<Seq<u64>>, cx: Context) -> Option<ViewId> {
        self.child.hit(path.push(0), hits, cx)
    }

    open spec fn menu(&self, path: Seq<u64>, cx: Context) -> Seq<(Seq<char>, Option<HotKey>)> {
        self.child.menu(path.push(0), cx)
    }

    /// Its own id, then the ids kept by the child.
    open spec fn kept(&self, path: Seq<u64>, cx: Context) -> Seq<ViewId> {
        seq![path_id(path)] + self.child.kept(path.push(0), cx)
    }

    open spec fn access_nodes(&self, path: Seq<u64>, cx: Context) -> Seq<AccessEntry> {
        self.child.access_nodes(path.push(0), cx)
    }

    open spec fn access_root(&self, path: Seq<u64>, cx: Context) -> Option<u64> {
        self.child.access_root(path.push(0), cx)
    }

    fn hittest(&self, path: &mut IdPath, hits: &Vec<IdPath>, cx: &Context) -> (r: Option<ViewId>) {
        let ghost p0 = path@;
        path.push(0);
        let id = self.child.hittest(path, hits, cx);
        path.pop();
        proof {
            if let Some(v) = id {
                lemma_hit_under_parent(hits.deep_view(), p0, 0, v);
            }
        }
        id
    }

    fn commands(&self, path: &mut IdPath, cx: &mut Context, cmds: &mut Vec<CommandInfo>) {
        path.push(0);
        self.child.commands(path, cx, cmds);
        path.pop();
    }

    fn gc(&self, path: &mut IdPath, cx: &mut Context, map: &mut Vec<ViewId>) {
        let ghost m0 = map@;
        let ghost p0 = path@;
        let ghost cx0 = *cx;
        map.push(view_id(path));
        path.push(0);
        self.child.gc(path, cx, map);
        path.pop();
        assert(map@ =~= m0 + self.kept(p0, cx0));
    }

    fn access(&self, path: &mut IdPath, cx: &Context, nodes: &mut Vec<AccessNode>) -> (r: Option<u64>) {
        path.push(0);
        let id = self.child.access(path, cx, nodes);
        path.pop();
        id
    }

    fn is_flexible(&self) -> (b: bool) {
        false
    }
}

impl<D: 'static, V: DynView<D>, F: 'static> DynView<D> for Geom<V, F> {
    open spec fn ready(&self) -> bool {
        self.child.ready()
    }

    /// The child handles the event.
    open spec fn processed(&self, event: Event<D>, path: Seq<u64>, before: Context, after: Context, added: nat) -> bool {
        self.child.processed(event, path.push(0), before, after, added)
    }

    fn process(&self, event: &Event<D>, path: &mut IdPath, cx: &mut Context, actions: &mut Vec<Action>) {
        path.push(0);
        self.child.process(event, path, cx, actions);
        path.pop();
    }
}

} // verus!
