//! `cond`: shows one of two views according to a boolean.
use vstd::prelude::*;
use crate::access::{AccessEntry, AccessNode};
use crate::context::Context;
use crate::event::{Event, HotKey};
use crate::id::{IdPath, ViewId};
use crate::view::{Action, CommandInfo, DynView, ViewCore, lemma_hit_under_parent};

verus! {

/// Struct for `cond`. The view shown when `cond` holds sits at index 0,
/// the other at index 1.
pub struct Cond<V0, V1> {
    pub cond: bool,
    pub if_true: V0,
    pub if_false: V1,
}

impl<V0: ViewCore, V1: ViewCore> ViewCore for Cond<V0, V1> {
    open spec fn wf(&self) -> bool {
        if self.cond { self.if_true.wf() } else { self.if_false.wf() }
    }

    open spec fn flexible(&self) -> bool {
        false
    }

    /// The hit of the view shown.
    open spec fn hit(&self, path: Seq<u64>, hits: Seq<Seq<u64>>, cx: Context) -> Option<ViewId> {
        if self.cond { self.if_true.hit(path.push(0), hits, cx) } else { self.if_false.hit(path.push(1), hits, cx) }
    }

    /// The commands of the view shown.
    open spec fn menu(&self, path: Seq<u64>, cx: Context) -> Seq<(Seq<char>, Option<HotKey>)> {
        if self.cond { self.if_true.menu(path.push(0), cx) } else { self.if_false.menu(path.push(1), cx) }
    }

    /// The ids kept by the view shown.
    open spec fn kept(&self, path: Seq<u64>, cx: Context) -> Seq<ViewId> {
        if self.cond { self.if_true.kept(path.push(0), cx) } else { self.if_false.kept(path.push(1), cx) }
    }

    open spec fn access_nodes(&self, path: Seq<u64>, cx: Context) -> Seq<AccessEntry> {
        if self.cond { self.if_true.access_nodes(path.push(0), cx) } else { self.if_false.access_nodes(path.push(1), cx) }
    }

    open spec fn access_root(&self, path: Seq<u64>, cx: Context) -> Option<u64> {
        if self.cond { self.if_true.access_root(path.push(0), cx) } else { self.if_false.access_root(path.push(1), cx) }
    }

    fn hittest(&self, path: &mut IdPath, hits: &Vec<IdPath>, cx: &Context) -> (r: Option<ViewId>) {
        let ghost p0 = path@;
        if self.cond {
            path.push(0);
            let id = self.if_true.hittest(path, hits, cx);
            path.pop();
            proof {
                if let Some(v) = id {
                    lemma_hit_under_parent(hits.deep_view(), p0, 0, v);
                }
            }
            id
        } else {
            path.push(1);
            let id = self.if_false.hittest(path, hits, cx);
            path.pop();
            proof {
                if let Some(v) = id {
                    lemma_hit_under_parent(hits.deep_view(), p0, 1, v);
                }
            }
            id
        }
    }

    fn commands(&self, path: &mut IdPath, cx: &mut Context, cmds: &mut Vec<CommandInfo>) {
        if self.cond {
            path.push(0);
            self.if_true.commands(path, cx, cmds);
            path.pop();
        } else {
            path.push(1);
            self.if_false.commands(path, cx, cmds);
            path.pop();
        }
    }

    fn gc(&self, path: &mut IdPath, cx: &mut Context, map: &mut Vec<ViewId>) {
        if self.cond {
            path.push(0);
            self.if_true.gc(path, cx, map);
            path.pop();
        } else {
            path.push(1);
            self.if_false.gc(path, cx, map);
            path.pop();
        }
    }

    fn access(&self, path: &mut IdPath, cx: &Context, nodes: &mut Vec<AccessNode>) -> (r: Option<u64>) {
        if self.cond {
            path.push(0);
            let id = self.if_true.access(path, cx, nodes);
            path.pop();
            id
        } else {
            path.push(1);
            let id = self.if_false.access(path, cx, nodes);
            path.pop();
            id
        }
    }

    fn is_flexible(&self) -> (b: bool) {
        false
    }
}

impl<D: 'static, V0: DynView<D>, V1: DynView<D>> DynView<D> for Cond<V0, V1> {
    open spec fn ready(&self) -> bool {
        if self.cond { self.if_true.ready() } else { self.if_false.ready() }
    }

    /// The view shown handles the event.
    open spec fn processed(&self, event: Event<D>, path: Seq<u64>, before: Context, after: Context, added: nat) -> bool {
        if self.cond {
            self.if_true.processed(event, path.push(0), before, after, added)
        } else {
            self.if_false.processed(event, path.push(1), before, after, added)
        }
    }

    fn process(&self, event: &Event<D>, path: &mut IdPath, cx: &mut Context, actions: &mut Vec<Action>) {
        if self.cond {
            path.push(0);
            self.if_true.process(event, path, cx, actions);
            path.pop();
        } else {
            path.push(1);
            self.if_false.process(event, path, cx, actions);
            path.pop();
        }
    }
}

/// Switches between views according to a boolean.
pub fn cond<V0: ViewCore, V1: ViewCore>(condition: bool, if_true: V0, if_false: V1) -> (c: Cond<V0, V1>)
    ensures
        c.cond == condition,
        c.if_true == if_true,
        c.if_false == if_false,
{
    Cond { cond: condition, if_true, if_false }
}

/// `cond` shows exactly one of its views: when the condition holds, every
/// walk of the tree (hit test, menu, kept ids, accessibility, event
/// handling) is that of the first view at index 0; otherwise that of the
/// second view at index 1.
pub proof fn law_cond_shows_one_view<D: 'static, V0: DynView<D>, V1: DynView<D>>(
    c: Cond<V0, V1>,
    path: Seq<u64>,
    hits: Seq<Seq<u64>>,
    cx: Context,
    event: Event<D>,
    before: Context,
    after: Context,
    added: nat,
)
    ensures
        c.cond ==> {
            &&& c.hit(path, hits, cx) == c.if_true.hit(path.push(0), hits, cx)
            &&& c.menu(path, cx) == c.if_true.menu(path.push(0), cx)
            &&& c.kept(path, cx) == c.if_true.kept(path.push(0), cx)
            &&& c.access_nodes(path, cx) == c.if_true.access_nodes(path.push(0), cx)
            &&& c.access_root(path, cx) == c.if_true.access_root(path.push(0), cx)
            &&& c.processed(event, path, before, after, added) == c.if_true.processed(event, path.push(0), before, after, added)
        },
        !c.cond ==> {
            &&& c.hit(path, hits, cx) == c.if_false.hit(path.push(1), hits, cx)
            &&& c.menu(path, cx) == c.if_false.menu(path.push(1), cx)
            &&& c.kept(path, cx) == c.if_false.kept(path.push(1), cx)
            &&& c.access_nodes(path, cx) == c.if_false.access_nodes(path.push(1), cx)
            &&& c.access_root(path, cx) == c.if_false.access_root(path.push(1), cx)
            &&& c.processed(event, path, before, after, added) == c.if_false.processed(event, path.push(1), before, after, added)
        },
{
}

} // verus!
