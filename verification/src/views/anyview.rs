//! `any_view`: erases the type of a view.
use vstd::prelude::*;
use crate::access::{AccessEntry, AccessNode};
use crate::context::Context;
use crate::event::{Event, HotKey};
use crate::id::{IdPath, ViewId};
use std::collections::hash_map::DefaultHasher;
use vstd::std_specs::hash::DefaultHasherAdditionalSpecFns;
use crate::view::{hash_value, Action, CommandInfo, DynView, ViewCore, lemma_hit_under_parent};

verus! {

/// Struct for `any_view`: a view behind a box of `W`, a trait-object type
/// such as `dyn DynView<D>`. The child sits under `key`, the hash of its
/// type.
#[verifier::reject_recursive_types(W)]
pub struct AnyView<W: ?Sized> {
    pub child: Box<W>,
    pub key: u64,
}

impl<W: ?Sized + ViewCore> AnyView<W> {
    /// A view for the boxed `child`.
    pub fn new(child: Box<W>) -> (a: Self)
        ensures
            a.child == child,
    {
        let key = hash_value(&child.tid());
        AnyView { child, key }
    }

    /// The type of the child.
    pub fn id(&self) -> std::any::TypeId {
        self.child.tid()
    }

    /// The hash of the type of the child: the index under which it sits.
    pub fn id_hash(&self) -> (h: u64)
        ensures
            h == self.key,
    {
        self.key
    }
}

impl<W: ?Sized + ViewCore> ViewCore for AnyView<W> {
    open spec fn wf(&self) -> bool {
        self.child.wf()
    }

    open spec fn flexible(&self) -> bool {
        false
    }

    open spec fn hit(&self, path: Seq<u64>, hits: Seq<Seq<u64>>, cx: Context) -> Option<ViewId> {
        self.child.hit(path.push(self.key), hits, cx)
    }

    open spec fn menu(&self, path: Seq<u64>, cx: Context) -> Seq<(Seq<char>, Option<HotKey>)> {
        self.child.menu(path.push(self.key), cx)
    }

    open spec fn kept(&self, path: Seq<u64>, cx: Context) -> Seq<ViewId> {
        self.child.kept(path.push(self.key), cx)
    }

    open spec fn access_nodes(&self, path: Seq<u64>, cx: Context) -> Seq<AccessEntry> {
        self.child.access_nodes(path.push(self.key), cx)
    }

    open spec fn access_root(&self, path: Seq<u64>, cx: Context) -> Option<u64> {
        self.child.access_root(path.push(self.key), cx)
    }

    fn hittest(&self, path: &mut IdPath, hits: &Vec<IdPath>, cx: &Context) -> (r: Option<ViewId>) {
        let ghost p0 = path@;
        let h = self.id_hash();
        path.push(h);
        let id = self.child.hittest(path, hits, cx);
        path.pop();
        proof {
            if let Some(v) = id {
                lemma_hit_under_parent(hits.deep_view(), p0, h, v);
            }
        }
        id
    }

    fn commands(&self, path: &mut IdPath, cx: &mut Context, cmds: &mut Vec<CommandInfo>) {
        path.push(self.id_hash());
        self.child.commands(path, cx, cmds);
        path.pop();
    }

    fn gc(&self, path: &mut IdPath, cx: &mut Context, map: &mut Vec<ViewId>) {
        path.push(self.id_hash());
        self.child.gc(path, cx, map);
        path.pop();
    }

    fn access(&self, path: &mut IdPath, cx: &Context, nodes: &mut Vec<AccessNode>) -> (r: Option<u64>) {
        path.push(self.id_hash());
        let id = self.child.access(path, cx, nodes);
        path.pop();
        id
    }

    fn is_flexible(&self) -> (b: bool) {
        false
    }

    fn tid(&self) -> std::any::TypeId {
        self.child.tid()
    }
}

impl<D: 'static, W: ?Sized + DynView<D>> DynView<D> for AnyView<W> {
    open spec fn ready(&self) -> bool {
        self.child.ready()
    }

    /// The child handles the event.
    open spec fn processed(&self, event: Event<D>, path: Seq<u64>, before: Context, after: Context, added: nat) -> bool {
        self.child.processed(event, path.push(self.key), before, after, added)
    }

    fn process(&self, event: &Event<D>, path: &mut IdPath, cx: &mut Context, actions: &mut Vec<Action>) {
        path.push(self.id_hash());
        self.child.process(event, path, cx, actions);
        path.pop();
    }
}

/// Erases the type of `view`: the result holds `view` boxed as a trait
/// object, under the hash of its type. (That the boxed child is `view` is
/// not stated: Verus carries no fact about a value over to the same value
/// boxed as a trait object.)
pub fn any_view<D: 'static, V: DynView<D>>(view: V) -> (a: AnyView<dyn DynView<D>>)
    ensures
        exists|fed: Seq<Seq<u8>>| a.key == #[trigger] DefaultHasher::spec_finish(fed),
{
    let b: Box<dyn DynView<D>> = Box::new(view);
    let key = hash_value(&b.tid());
    AnyView { child: b, key }
}

} // verus!
