//! The `background` modifier: a view drawn behind another.
use vstd::prelude::*;
use crate::access::{AccessEntry, AccessNode};
use crate::context::Context;
use crate::event::{Event, HotKey};
use crate::id::{IdPath, ViewId};
use crate::view::{menu_of, Action, CommandInfo, DynView, ViewCore, lemma_hit_under_parent};

verus! {

/// Struct for the `background` modifier. The child sits at index 0 under
/// the view's path, the background at index 1.
pub struct Background<V, BG> {
    pub child: V,
    pub background: BG,
}

impl<V: ViewCore, BG: ViewCore> Background<V, BG> {
    pub fn new(child: V, background: BG) -> (b: Self)
        ensures
            b.child == child,
            b.background == background,
    {
        Self { child, background }
    }
}

impl<V: ViewCore, BG: ViewCore> ViewCore for Background<V, BG> {
    open spec fn wf(&self) -> bool {
        self.child.wf() && self.background.wf()
    }

    open spec fn flexible(&self) -> bool {
        false
    }

    /// Only the background is hit.
    open spec fn hit(&self, path: Seq<u64>, hits: Seq<Seq<u64>>, cx: Context) -> Option<ViewId> {
        self.background.hit(path.push(1), hits, cx)
    }

    /// The child's commands, then the background's.
    open spec fn menu(&self, path: Seq<u64>, cx: Context) -> Seq<(Seq<char>, Option<HotKey>)> {
        self.child.menu(path.push(0), cx) + self.background.menu(path.push(1), cx)
    }

    /// The ids kept by the child, then those kept by the background.
    open spec fn kept(&self, path: Seq<u64>, cx: Context) -> Seq<ViewId> {
        self.child.kept(path.push(0), cx) + self.background.kept(path.push(1), cx)
    }

    /// Only the child is described; the background is not.
    open spec fn access_nodes(&self, path: Seq<u64>, cx: Context) -> Seq<AccessEntry> {
        self.child.access_nodes(path.push(0), cx)
    }

    open spec fn access_root(&self, path: Seq<u64>, cx: Context) -> Option<u64> {
        self.child.access_root(path.push(0), cx)
    }

    fn hittest(&self, path: &mut IdPath, hits: &Vec<IdPath>, cx: &Context) -> (r: Option<ViewId>) {
        let ghost p0 = path@;
        path.push(1);
        let id = self.background.hittest(path, hits, cx);
        path.pop();
        proof {
            if let Some(v) = id {
                lemma_hit_under_parent(hits.deep_view(), p0, 1, v);
            }
        }
        id
    }

    fn commands(&self, path: &mut IdPath, cx: &mut Context, cmds: &mut Vec<CommandInfo>) {
        let ghost c0 = cmds@;
        let ghost p0 = path@;
        let ghost cx0 = *cx;
        path.push(0);
        self.child.commands(path, cx, cmds);
        path.pop();
        assert(path@ =~= p0);
        path.push(1);
        self.background.commands(path, cx, cmds);
        path.pop();
        assert(menu_of(cmds@) =~= menu_of(c0) + self.menu(p0, cx0));
    }

    fn gc(&self, path: &mut IdPath, cx: &mut Context, map: &mut Vec<ViewId>) {
        let ghost m0 = map@;
        let ghost p0 = path@;
        let ghost cx0 = *cx;
        path.push(0);
        self.child.gc(path, cx, map);
        path.pop();
        assert(path@ =~= p0);
        path.push(1);
        self.background.gc(path, cx, map);
        path.pop();
        assert(map@ =~= m0 + self.kept(p0, cx0));
    }

    fn access(&self, path: &mut IdPath, cx: &Context, nodes: &mut Vec<AccessNode>) -> (r: Option<u64>) {
        path.push(0);
        let id = self.child.access(path, cx, nodes);
        path.pop();
        id
    }

    fn is_flexible(&self) -> (b: bool) {
        false
    }
}

impl<D: 'static, V: DynView<D>, BG: DynView<D>> DynView<D> for Background<V, BG> {
    open spec fn ready(&self) -> bool {
        self.child.ready() && self.background.ready()
    }

    /// The child handles the event, then the background in the context the
    /// child left.
    open spec fn processed(&self, event: Event<D>, path: Seq<u64>, before: Context, after: Context, added: nat) -> bool {
        exists|mid: Context, a1: nat, a2: nat|
            #![trigger self.child.processed(event, path.push(0), before, mid, a1), self.background.processed(event, path.push(1), mid, after, a2)]
            self.child.processed(event, path.push(0), before, mid, a1)
            && self.background.processed(event, path.push(1), mid, after, a2)
            && added == a1 + a2
    }

    fn process(&self, event: &Event<D>, path: &mut IdPath, cx: &mut Context, actions: &mut Vec<Action>) {
        let ghost p0 = path@;
        let ghost cx0 = *cx;
        let ghost n0 = actions@.len();
        path.push(0);
        self.child.process(event, path, cx, actions);
        path.pop();
        assert(path@ =~= p0);
        let ghost mid = *cx;
        let ghost n1 = actions@.len();
        path.push(1);
        self.background.process(event, path, cx, actions);
        path.pop();
        proof {
            let a1 = (n1 - n0) as nat;
            let a2 = (actions@.len() - n1) as nat;
            assert(self.child.processed(*event, p0.push(0), cx0, mid, a1));
            assert(self.background.processed(*event, p0.push(1), mid, *cx, a2));
        }
    }
}

} // verus!
