//! Action handlers: catch the actions of a given type that a subtree produces.
use vstd::prelude::*;
use crate::access::{AccessEntry, AccessNode};
use crate::context::Context;
use crate::event::{Event, HotKey};
use crate::id::{IdPath, ViewId};
use crate::view::{Action, CommandInfo, DynView, ViewCore, extends, lemma_hit_under_parent};

verus! {

/// Struct for an action handler: actions of type `A` from the child are
/// replaced by what `func` returns for them.
pub struct Handle<V, F, A, A2> {
    pub child: V,
    pub func: F,
    pub phantom_action: std::marker::PhantomData<A>,
    pub phantom_action2: std::marker::PhantomData<A2>,
}

impl<V: ViewCore, F, A, A2> Handle<V, F, A, A2> {
    pub fn new(v: V, f: F) -> (h: Self)
        ensures
            h.child == v,
            h.func == f,
    {
        Self {
            child: v,
            func: f,
            phantom_action: std::marker::PhantomData,
            phantom_action2: std::marker::PhantomData,
        }
    }
}

impl<V: ViewCore, F: Fn(&mut Context, &A) -> A2 + 'static, A: 'static, A2: 'static> ViewCore for Handle<V, F, A, A2> {
    open spec fn wf(&self) -> bool {
        self.child.wf() && forall|cx: &mut Context, a: &A| self.func.requires((cx, a))
    }

    open spec fn flexible(&self) -> bool {
        false
    }

    open spec fn hit(&self, path: Seq<u64>, hits: Seq<Seq<u64>>, cx: Context) -> Option<ViewId> {
        self.child.hit(path.push(0), hits, cx)
    }

    open spec fn menu(&self, path: Seq<u64>, cx: Context) -> Seq<(Seq<char>, Option<HotKey>)> {
        self.child.menu(path.push(0), cx)
    }

    open spec fn kept(&self, path: Seq<u64>, cx: Context) -> Seq<ViewId> {
        self.child.kept(path.push(0), cx)
    }

    open spec fn access_nodes(&self, path: Seq<u64>, cx: Context) -> Seq<AccessEntry> {
        self.child.access_nodes(path.push(0), cx)
    }

    open spec fn access_root(&self, path: Seq<u64>, cx: Context) -> Option<u64> {
        self.child.access_root(path.push(0), cx)
    }

    fn hittest(&self, path: &mut IdPath, hits: &Vec<IdPath>, cx: &Context) -> (r: Option<ViewId>) {
        let ghost p0 = path@;
        path.push(0);
        let id = self.child.hittest(path, hits, cx);
        path.pop();
        proof {
            if let Some(v) = id {
                lemma_hit_under_parent(hits.deep_view(), p0, 0, v);
            }
        }
        id
    }

    fn commands(&self, path: &mut IdPath, cx: &mut Context, cmds: &mut Vec<CommandInfo>) {
        path.push(0);
        self.child.commands(path, cx, cmds);
        path.pop();
    }

    fn gc(&self, path: &mut IdPath, cx: &mut Context, map: &mut Vec<ViewId>) {
        path.push(0);
        self.child.gc(path, cx, map);
        path.pop();
    }

    fn access(&self, path: &mut IdPath, cx: &Context, nodes: &mut Vec<AccessNode>) -> (r: Option<u64>) {
        path.push(0);
        let id = self.child.access(path, cx, nodes);
        path.pop();
        id
    }

    fn is_flexible(&self) -> (b: bool) {
        false
    }
}

impl<D: 'static, V: DynView<D>, F: Fn(&mut Context, &A) -> A2 + 'static, A: 'static, A2: 'static> DynView<D> for Handle<V, F, A, A2> {
    open spec fn ready(&self) -> bool {
        self.child.ready()
    }

    /// The child handles the event; each of its actions is passed on, in
    /// order, either replaced by `func`'s result when it is an `A`, or as it
    /// is. `func` may change the context in any way, and which actions are an
    /// `A` is not known here, so only the context the child leaves is stated.
    open spec fn processed(&self, event: Event<D>, path: Seq<u64>, before: Context, after: Context, added: nat) -> bool {
        exists|mid: Context|
            #![trigger self.child.processed(event, path.push(0), before, mid, added)]
            self.child.processed(event, path.push(0), before, mid, added)
    }

    fn process(&self, event: &Event<D>, path: &mut IdPath, cx: &mut Context, actions: &mut Vec<Action>) {
        let ghost p0 = path@;
        let ghost cx0 = *cx;
        let mut child_actions: Vec<Action> = Vec::new();
        path.push(0);
        self.child.process(event, path, cx, &mut child_actions);
        path.pop();
        let ghost mid = *cx;
        let ghost k0 = child_actions@.len();
        let ghost a0 = actions@;
        assert(self.child.processed(*event, p0.push(0), cx0, mid, k0));
        while child_actions.len() > 0
            invariant
                self.wf(),
                extends(a0, actions@),
                actions@.len() + child_actions@.len() == a0.len() + k0,
            decreases child_actions@.len(),
        {
            let action = child_actions.remove(0);
            let replaced = match action.downcast_ref::<A>() {
                Some(a) => Some((self.func)(cx, a)),
                None => None,
            };
            match replaced {
                Some(a2) => actions.push(Action::new(a2)),
                None => actions.push(action),
            }
        }
    }
}

} // verus!
