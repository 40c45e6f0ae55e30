//! Flexible space for stacks.
use vstd::prelude::*;
use crate::access::{access_of, AccessEntry, AccessNode};
use crate::context::Context;
use crate::event::Event;
use crate::id::{IdPath, ViewId};
use crate::event::HotKey;
use crate::view::{menu_of, Action, CommandInfo, DynView, ViewCore};

verus! {

/// Struct for `spacer`.
#[derive(Clone, Debug)]
pub struct Spacer {}

impl ViewCore for Spacer {
    open spec fn wf(&self) -> bool {
        true
    }

    open spec fn flexible(&self) -> bool {
        true
    }

    open spec fn hit(&self, path: Seq<u64>, hits: Seq<Seq<u64>>, cx: Context) -> Option<ViewId> {
        None
    }

    open spec fn menu(&self, path: Seq<u64>, cx: Context) -> Seq<(Seq<char>, Option<HotKey>)> {
        Seq::empty()
    }

    open spec fn kept(&self, path: Seq<u64>, cx: Context) -> Seq<ViewId> {
        Seq::empty()
    }

    open spec fn access_nodes(&self, path: Seq<u64>, cx: Context) -> Seq<AccessEntry> {
        Seq::empty()
    }

    open spec fn access_root(&self, path: Seq<u64>, cx: Context) -> Option<u64> {
        None
    }

    fn hittest(&self, path: &mut IdPath, hits: &Vec<IdPath>, cx: &Context) -> (r: Option<ViewId>) {
        None
    }

    fn commands(&self, path: &mut IdPath, cx: &mut Context, cmds: &mut Vec<CommandInfo>) {
        assert(menu_of(cmds@) + Seq::empty() =~= menu_of(cmds@));
    }

    fn gc(&self, path: &mut IdPath, cx: &mut Context, map: &mut Vec<ViewId>) {
        assert(map@ + Seq::empty() =~= map@);
    }

    fn access(&self, path: &mut IdPath, cx: &Context, nodes: &mut Vec<AccessNode>) -> (r: Option<u64>) {
        assert(access_of(nodes@) + Seq::empty() =~= access_of(nodes@));
        None
    }

    fn is_flexible(&self) -> (b: bool) {
        true
    }
}

impl<D: 'static> DynView<D> for Spacer {
    open spec fn ready(&self) -> bool {
        true
    }

    /// Events are ignored.
    open spec fn processed(&self, event: Event<D>, path: Seq<u64>, before: Context, after: Context, added: nat) -> bool {
        after == before && added == 0
    }

    fn process(&self, event: &Event<D>, path: &mut IdPath, cx: &mut Context, actions: &mut Vec<Action>) {
    }
}

/// Inserts a flexible space in a stack.
pub fn spacer() -> (s: Spacer)
    ensures
        s == (Spacer {}),
{
    Spacer {}
}

} // verus!
