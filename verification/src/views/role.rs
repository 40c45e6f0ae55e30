//! The `role` modifier: gives a view tree an accessibility node of a chosen
//! role.
use vstd::prelude::*;
use accesskit::Role;
use crate::access::{access_of, lemma_access_push, AccessEntry, AccessNode};
use crate::context::Context;
use crate::event::{Event, HotKey};
use crate::id::{IdPath, ViewId, path_id, view_id};
use crate::view::{Action, CommandInfo, DynView, ViewCore, lemma_hit_under_parent};

verus! {

/// Struct for the `role` modifier.
pub struct RoleView<V> {
    pub child: V,
    pub role: Role,
}

impl<V: ViewCore> RoleView<V> {
    pub fn new(v: V, role: Role) -> (r: Self)
        ensures
            r.child == v,
            r.role == role,
    {
        Self { child: v, role }
    }
}

impl<V: ViewCore> ViewCore for RoleView<V> {
    open spec fn wf(&self) -> bool {
        self.child.wf()
    }

    open spec fn flexible(&self) -> bool {
        false
    }

    open spec fn hit(&self, path: Seq<u64>, hits: Seq<Seq<u64>>, cx: Context) -> Option<ViewId> {
        self.child.hit(path.push(0), hits, cx)
    }

    open spec fn menu(&self, path: Seq<u64>, cx: Context) -> Seq<(Seq<char>, Option<HotKey>)> {
        self.child.menu(path.push(0), cx)
    }

    open spec fn kept(&self, path: Seq<u64>, cx: Context) -> Seq<ViewId> {
        self.child.kept(path.push(0), cx)
    }

    /// The child's nodes, then the view's own, of its role, whose child is the
    /// child's own node if it has one.
    open spec fn access_nodes(&self, path: Seq<u64>, cx: Context) -> Seq<AccessEntry> {
        self.child.access_nodes(path.push(0), cx).push((
            path_id(path).id,
            self.role,
            match self.child.access_root(path.push(0), cx) {
                Some(id) => seq![id],
                None => Seq::empty(),
            },
            None,
        ))
    }

    open spec fn access_root(&self, path: Seq<u64>, cx: Context) -> Option<u64> {
        Some(path_id(path).id)
    }

    fn hittest(&self, path: &mut IdPath, hits: &Vec<IdPath>, cx: &Context) -> (r: Option<ViewId>) {
        let ghost p0 = path@;
        path.push(0);
        let id = self.child.hittest(path, hits, cx);
        path.pop();
        proof {
            if let Some(v) = id {
                lemma_hit_under_parent(hits.deep_view(), p0, 0, v);
            }
        }
        id
    }

    fn commands(&self, path: &mut IdPath, cx: &mut Context, cmds: &mut Vec<CommandInfo>) {
        path.push(0);
        self.child.commands(path, cx, cmds);
        path.pop();
    }

    fn gc(&self, path: &mut IdPath, cx: &mut Context, map: &mut Vec<ViewId>) {
        path.push(0);
        self.child.gc(path, cx, map);
        path.pop();
    }

    fn access(&self, path: &mut IdPath, cx: &Context, nodes: &mut Vec<AccessNode>) -> (r: Option<u64>) {
        let ghost p0 = path@;
        let ghost a0 = nodes@;
        path.push(0);
        let child_id = self.child.access(path, cx, nodes);
        path.pop();
        assert(path@ =~= p0);
        let mut children: Vec<u64> = Vec::new();
        match child_id {
            Some(i) => children.push(i),
            None => {},
        }
        assert(children@ =~= match self.child.access_root(p0.push(0), *cx) {
            Some(id) => seq![id],
            None => Seq::<u64>::empty(),
        });
        let aid = view_id(path).id;
        let node = AccessNode { id: aid, role: self.role, children, name: None };
        let ghost before = nodes@;
        proof {
            lemma_access_push(before, node);
        }
        nodes.push(node);
        assert(access_of(nodes@) =~= access_of(a0) + self.access_nodes(p0, *cx));
        Some(aid)
    }

    fn is_flexible(&self) -> (b: bool) {
        false
    }
}

impl<D: 'static, V: DynView<D>> DynView<D> for RoleView<V> {
    open spec fn ready(&self) -> bool {
        self.child.ready()
    }

    /// The child handles the event.
    open spec fn processed(&self, event: Event<D>, path: Seq<u64>, before: Context, after: Context, added: nat) -> bool {
        self.child.processed(event, path.push(0), before, after, added)
    }

    fn process(&self, event: &Event<D>, path: &mut IdPath, cx: &mut Context, actions: &mut Vec<Action>) {
        path.push(0);
        self.child.process(event, path, cx, actions);
        path.pop();
    }
}

} // verus!
