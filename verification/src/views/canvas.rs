//! `canvas`: a leaf that fills its space and is drawn by a callback.
use vstd::prelude::*;
use crate::access::{access_of, AccessEntry, AccessNode};
use crate::context::Context;
use crate::event::{Event, HotKey};
use crate::id::{IdPath, ViewId, path_id, view_id};
use crate::view::{leaf_hit, leaf_hittest, menu_of, Action, CommandInfo, DynView, ViewCore};

verus! {

/// Struct for `canvas`. The drawing callback is used when the view is drawn.
pub struct Canvas<F> {
    pub func: F,
}

impl<F: 'static> ViewCore for Canvas<F> {
    open spec fn wf(&self) -> bool {
        true
    }

    open spec fn flexible(&self) -> bool {
        false
    }

    /// Hit when its own path is among the hits.
    open spec fn hit(&self, path: Seq<u64>, hits: Seq<Seq<u64>>, cx: Context) -> Option<ViewId> {
        leaf_hit(path, hits)
    }

    open spec fn menu(&self, path: Seq<u64>, cx: Context) -> Seq<(Seq<char>, Option<HotKey>)> {
        Seq::empty()
    }

    /// Its own id.
    open spec fn kept(&self, path: Seq<u64>, cx: Context) -> Seq<ViewId> {
        seq![path_id(path)]
    }

    open spec fn access_nodes(&self, path: Seq<u64>, cx: Context) -> Seq<AccessEntry> {
        Seq::empty()
    }

    open spec fn access_root(&self, path: Seq<u64>, cx: Context) -> Option<u64> {
        None
    }

    fn hittest(&self, path: &mut IdPath, hits: &Vec<IdPath>, cx: &Context) -> (r: Option<ViewId>) {
        leaf_hittest(path, hits)
    }

    fn commands(&self, path: &mut IdPath, cx: &mut Context, cmds: &mut Vec<CommandInfo>) {
        assert(menu_of(cmds@) + Seq::empty() =~= menu_of(cmds@));
    }

    fn gc(&self, path: &mut IdPath, cx: &mut Context, map: &mut Vec<ViewId>) {
        let ghost m0 = map@;
        map.push(view_id(path));
        assert(map@ =~= m0 + seq![path_id(path@)]);
    }

    fn access(&self, path: &mut IdPath, cx: &Context, nodes: &mut Vec<AccessNode>) -> (r: Option<u64>) {
        assert(access_of(nodes@) + Seq::empty() =~= access_of(nodes@));
        None
    }

    fn is_flexible(&self) -> (b: bool) {
        false
    }
}

impl<D: 'static, F: 'static> DynView<D> for Canvas<F> {
    open spec fn ready(&self) -> bool {
        true
    }

    /// Events are ignored.
    open spec fn processed(&self, event: Event<D>, path: Seq<u64>, before: Context, after: Context, added: nat) -> bool {
        after == before && added == 0
    }

    fn process(&self, event: &Event<D>, path: &mut IdPath, cx: &mut Context, actions: &mut Vec<Action>) {
    }
}

/// Canvas for GPU drawing: `f` draws the view when it is rendered.
pub fn canvas<F: 'static>(f: F) -> (c: Canvas<F>)
    ensures
        c.func == f,
{
    Canvas { func: f }
}

} // verus!
