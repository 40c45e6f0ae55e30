//! Tuples of views, the children of stacks.
use vstd::prelude::*;
use crate::context::Context;
use crate::event::{Event, HotKey};
use crate::id::{IdPath, ViewId};
use crate::access::{access_of, AccessEntry, AccessNode};
use crate::view::{menu_of, Action, CommandInfo, DynView, ViewCore, extends, hit_under};

verus! {

/// Most views a tuple can hold.
pub const VIEW_TUPLE_MAX_ELEMENTS: usize = 10;

/// A tuple of views; each operation is applied to the view at a position,
/// which is given its own path.
pub trait ViewTuple: 'static {
    /// Every view of the tuple is well formed.
    spec fn wf(&self) -> bool;

    /// Number of views in the tuple.
    spec fn spec_len(&self) -> nat;

    /// The view at position `i` is flexible.
    spec fn child_flexible(&self, i: int) -> bool;

    /// The hit of the view at position `i` when it sits at `path`.
    spec fn child_hit(&self, i: int, path: Seq<u64>, hits: Seq<Seq<u64>>, cx: Context) -> Option<ViewId>;

    /// The menu commands of the view at position `i` when it sits at `path`.
    spec fn child_menu(&self, i: int, path: Seq<u64>, cx: Context) -> Seq<(Seq<char>, Option<HotKey>)>;

    /// The ids kept by the view at position `i` when it sits at `path`.
    spec fn child_kept(&self, i: int, path: Seq<u64>, cx: Context) -> Seq<ViewId>;

    /// The accessibility nodes of the view at position `i` when it sits at `path`.
    spec fn child_access_nodes(&self, i: int, path: Seq<u64>, cx: Context) -> Seq<AccessEntry>;

    /// The id of the accessibility node of the view at position `i` when it
    /// sits at `path`, if it has one.
    spec fn child_access_root(&self, i: int, path: Seq<u64>, cx: Context) -> Option<u64>;

    /// Number of views in the tuple.
    fn len(&self) -> (n: usize)
        ensures
            n == self.spec_len(),
            1 <= n <= VIEW_TUPLE_MAX_ELEMENTS,
    ;

    /// Hit test of the view at position `i`.
    fn hittest_child(&self, i: usize, path: &mut IdPath, hits: &Vec<IdPath>, cx: &Context) -> (r: Option<ViewId>)
        requires
            self.wf(),
            i < self.spec_len(),
        ensures
            final(path)@ == old(path)@,
            r == self.child_hit(i as int, old(path)@, hits.deep_view(), *cx),
            r matches Some(v) ==> hit_under(hits.deep_view(), old(path)@, v),
    ;

    /// Menu commands of the view at position `i`.
    fn commands_child(&self, i: usize, path: &mut IdPath, cx: &mut Context, cmds: &mut Vec<CommandInfo>)
        requires
            self.wf(),
            i < self.spec_len(),
        ensures
            final(path)@ == old(path)@,
            *final(cx) == *old(cx),
            menu_of(final(cmds)@) == menu_of(old(cmds)@) + self.child_menu(i as int, old(path)@, *old(cx)),
    ;

    /// Ids of the views with state under the view at position `i`.
    fn gc_child(&self, i: usize, path: &mut IdPath, cx: &mut Context, map: &mut Vec<ViewId>)
        requires
            self.wf(),
            i < self.spec_len(),
        ensures
            final(path)@ == old(path)@,
            *final(cx) == *old(cx),
            final(map)@ == old(map)@ + self.child_kept(i as int, old(path)@, *old(cx)),
    ;

    /// Accessibility nodes of the view at position `i`.
    fn access_child(&self, i: usize, path: &mut IdPath, cx: &Context, nodes: &mut Vec<AccessNode>) -> (r: Option<u64>)
        requires
            self.wf(),
            i < self.spec_len(),
        ensures
            final(path)@ == old(path)@,
            access_of(final(nodes)@) == access_of(old(nodes)@) + self.child_access_nodes(i as int, old(path)@, *cx),
            r == self.child_access_root(i as int, old(path)@, *cx),
    ;

    /// Whether the view at position `i` is flexible.
    fn is_flexible_child(&self, i: usize) -> (b: bool)
        requires
            i < self.spec_len(),
        ensures
            b == self.child_flexible(i as int),
    ;
}

/// A tuple of views that handle events whose pointer movements are of type `D`.
pub trait ViewTupleOf<D>: ViewTuple {
    /// Every view of the tuple is ready for events.
    spec fn ready(&self) -> bool;

    /// What handling `event` may do when the view at position `i` sits at `path`.
    spec fn child_processed(&self, i: int, event: Event<D>, path: Seq<u64>, before: Context, after: Context, added: nat) -> bool;

    /// The view at position `i` handles `event`.
    fn process_child(&self, i: usize, event: &Event<D>, path: &mut IdPath, cx: &mut Context, actions: &mut Vec<Action>)
        requires
            self.wf(),
            self.ready(),
            event.wf(),
            i < self.spec_len(),
        ensures
            final(path)@ == old(path)@,
            extends(old(actions)@, final(actions)@),
            self.child_processed(i as int, *event, old(path)@, *old(cx), *final(cx), (final(actions)@.len() - old(actions)@.len()) as nat),
    ;
}

impl<V0: ViewCore> ViewTuple for (V0,) {
    open spec fn wf(&self) -> bool {
        self.0.wf()
    }

    open spec fn spec_len(&self) -> nat {
        1
    }

    open spec fn child_flexible(&self, i: int) -> bool {
        self.0.flexible()
    }

    open spec fn child_hit(&self, i: int, path: Seq<u64>, hits: Seq<Seq<u64>>, cx: Context) -> Option<ViewId> {
        self.0.hit(path, hits, cx)
    }

    open spec fn child_menu(&self, i: int, path: Seq<u64>, cx: Context) -> Seq<(Seq<char>, Option<HotKey>)> {
        self.0.menu(path, cx)
    }

    open spec fn child_kept(&self, i: int, path: Seq<u64>, cx: Context) -> Seq<ViewId> {
        self.0.kept(path, cx)
    }

    open spec fn child_access_nodes(&self, i: int, path: Seq<u64>, cx: Context) -> Seq<AccessEntry> {
        self.0.access_nodes(path, cx)
    }

    open spec fn child_access_root(&self, i: int, path: Seq<u64>, cx: Context) -> Option<u64> {
        self.0.access_root(path, cx)
    }

    fn len(&self) -> (n: usize) {
        1
    }

    fn access_child(&self, i: usize, path: &mut IdPath, cx: &Context, nodes: &mut Vec<AccessNode>) -> (r: Option<u64>) {
        self.0.access(path, cx, nodes)
    }

    fn hittest_child(&self, i: usize, path: &mut IdPath, hits: &Vec<IdPath>, cx: &Context) -> (r: Option<ViewId>) {
        self.0.hittest(path, hits, cx)
    }

    fn commands_child(&self, i: usize, path: &mut IdPath, cx: &mut Context, cmds: &mut Vec<CommandInfo>) {
        self.0.commands(path, cx, cmds)
    }

    fn gc_child(&self, i: usize, path: &mut IdPath, cx: &mut Context, map: &mut Vec<ViewId>) {
        self.0.gc(path, cx, map)
    }

    fn is_flexible_child(&self, i: usize) -> (b: bool) {
        self.0.is_flexible()
    }
}

impl<D: 'static, V0: DynView<D>> ViewTupleOf<D> for (V0,) {
    open spec fn ready(&self) -> bool {
        self.0.ready()
    }

    open spec fn child_processed(&self, i: int, event: Event<D>, path: Seq<u64>, before: Context, after: Context, added: nat) -> bool {
        self.0.processed(event, path, before, after, added)
    }

    fn process_child(&self, i: usize, event: &Event<D>, path: &mut IdPath, cx: &mut Context, actions: &mut Vec<Action>) {
        self.0.process(event, path, cx, actions)
    }
}

impl<V0: ViewCore, V1: ViewCore> ViewTuple for (V0, V1) {
    open spec fn wf(&self) -> bool {
        self.0.wf() && self.1.wf()
    }

    open spec fn spec_len(&self) -> nat {
        2
    }

    open spec fn child_flexible(&self, i: int) -> bool {
        if i == 0 { self.0.flexible() } else { self.1.flexible() }
    }

    open spec fn child_hit(&self, i: int, path: Seq<u64>, hits: Seq<Seq<u64>>, cx: Context) -> Option<ViewId> {
        if i == 0 { self.0.hit(path, hits, cx) } else { self.1.hit(path, hits, cx) }
    }

    open spec fn child_menu(&self, i: int, path: Seq<u64>, cx: Context) -> Seq<(Seq<char>, Option<HotKey>)> {
        if i == 0 { self.0.menu(path, cx) } else { self.1.menu(path, cx) }
    }

    open spec fn child_kept(&self, i: int, path: Seq<u64>, cx: Context) -> Seq<ViewId> {
        if i == 0 { self.0.kept(path, cx) } else { self.1.kept(path, cx) }
    }

    open spec fn child_access_nodes(&self, i: int, path: Seq<u64>, cx: Context) -> Seq<AccessEntry> {
        if i == 0 { self.0.access_nodes(path, cx) } else { self.1.access_nodes(path, cx) }
    }

    open spec fn child_access_root(&self, i: int, path: Seq<u64>, cx: Context) -> Option<u64> {
        if i == 0 { self.0.access_root(path, cx) } else { self.1.access_root(path, cx) }
    }

    fn len(&self) -> (n: usize) {
        2
    }

    fn access_child(&self, i: usize, path: &mut IdPath, cx: &Context, nodes: &mut Vec<AccessNode>) -> (r: Option<u64>) {
        match i {
            0 => self.0.access(path, cx, nodes),
            _ => self.1.access(path, cx, nodes),
        }
    }

    fn hittest_child(&self, i: usize, path: &mut IdPath, hits: &Vec<IdPath>, cx: &Context) -> (r: Option<ViewId>) {
        match i {
            0 => self.0.hittest(path, hits, cx),
            _ => self.1.hittest(path, hits, cx),
        }
    }

    fn commands_child(&self, i: usize, path: &mut IdPath, cx: &mut Context, cmds: &mut Vec<CommandInfo>) {
        match i {
            0 => self.0.commands(path, cx, cmds),
            _ => self.1.commands(path, cx, cmds),
        }
    }

    fn gc_child(&self, i: usize, path: &mut IdPath, cx: &mut Context, map: &mut Vec<ViewId>) {
        match i {
            0 => self.0.gc(path, cx, map),
            _ => self.1.gc(path, cx, map),
        }
    }

    fn is_flexible_child(&self, i: usize) -> (b: bool) {
        match i {
            0 => self.0.is_flexible(),
            _ => self.1.is_flexible(),
        }
    }
}

impl<D: 'static, V0: DynView<D>, V1: DynView<D>> ViewTupleOf<D> for (V0, V1) {
    open spec fn ready(&self) -> bool {
        self.0.ready() && self.1.ready()
    }

    open spec fn child_processed(&self, i: int, event: Event<D>, path: Seq<u64>, before: Context, after: Context, added: nat) -> bool {
        if i == 0 { self.0.processed(event, path, before, after, added) } else { self.1.processed(event, path, before, after, added) }
    }

    fn process_child(&self, i: usize, event: &Event<D>, path: &mut IdPath, cx: &mut Context, actions: &mut Vec<Action>) {
        match i {
            0 => self.0.process(event, path, cx, actions),
            _ => self.1.process(event, path, cx, actions),
        }
    }
}

impl<V0: ViewCore, V1: ViewCore, V2: ViewCore> ViewTuple for (V0, V1, V2) {
    open spec fn wf(&self) -> bool {
        self.0.wf() && self.1.wf() && self.2.wf()
    }

    open spec fn spec_len(&self) -> nat {
        3
    }

    open spec fn child_flexible(&self, i: int) -> bool {
        if i == 0 { self.0.flexible() } else if i == 1 { self.1.flexible() } else { self.2.flexible() }
    }

    open spec fn child_hit(&self, i: int, path: Seq<u64>, hits: Seq<Seq<u64>>, cx: Context) -> Option<ViewId> {
        if i == 0 { self.0.hit(path, hits, cx) } else if i == 1 { self.1.hit(path, hits, cx) } else { self.2.hit(path, hits, cx) }
    }

    open spec fn child_menu(&self, i: int, path: Seq<u64>, cx: Context) -> Seq<(Seq<char>, Option<HotKey>)> {
        if i == 0 { self.0.menu(path, cx) } else if i == 1 { self.1.menu(path, cx) } else { self.2.menu(path, cx) }
    }

    open spec fn child_kept(&self, i: int, path: Seq<u64>, cx: Context) -> Seq<ViewId> {
        if i == 0 { self.0.kept(path, cx) } else if i == 1 { self.1.kept(path, cx) } else { self.2.kept(path, cx) }
    }

    open spec fn child_access_nodes(&self, i: int, path: Seq<u64>, cx: Context) -> Seq<AccessEntry> {
        if i == 0 { self.0.access_nodes(path, cx) } else if i == 1 { self.1.access_nodes(path, cx) } else { self.2.access_nodes(path, cx) }
    }

    open spec fn child_access_root(&self, i: int, path: Seq<u64>, cx: Context) -> Option<u64> {
        if i == 0 { self.0.access_root(path, cx) } else if i == 1 { self.1.access_root(path, cx) } else { self.2.access_root(path, cx) }
    }

    fn len(&self) -> (n: usize) {
        3
    }

    fn access_child(&self, i: usize, path: &mut IdPath, cx: &Context, nodes: &mut Vec<AccessNode>) -> (r: Option<u64>) {
        match i {
            0 => self.0.access(path, cx, nodes),
            1 => self.1.access(path, cx, nodes),
            _ => self.2.access(path, cx, nodes),
        }
    }

    fn hittest_child(&self, i: usize, path: &mut IdPath, hits: &Vec<IdPath>, cx: &Context) -> (r: Option<ViewId>) {
        match i {
            0 => self.0.hittest(path, hits, cx),
            1 => self.1.hittest(path, hits, cx),
            _ => self.2.hittest(path, hits, cx),
        }
    }

    fn commands_child(&self, i: usize, path: &mut IdPath, cx: &mut Context, cmds: &mut Vec<CommandInfo>) {
        match i {
            0 => self.0.commands(path, cx, cmds),
            1 => self.1.commands(path, cx, cmds),
            _ => self.2.commands(path, cx, cmds),
        }
    }

    fn gc_child(&self, i: usize, path: &mut IdPath, cx: &mut Context, map: &mut Vec<ViewId>) {
        match i {
            0 => self.0.gc(path, cx, map),
            1 => self.1.gc(path, cx, map),
            _ => self.2.gc(path, cx, map),
        }
    }

    fn is_flexible_child(&self, i: usize) -> (b: bool) {
        match i {
            0 => self.0.is_flexible(),
            1 => self.1.is_flexible(),
            _ => self.2.is_flexible(),
        }
    }
}

impl<D: 'static, V0: DynView<D>, V1: DynView<D>, V2: DynView<D>> ViewTupleOf<D> for (V0, V1, V2) {
    open spec fn ready(&self) -> bool {
        self.0.ready() && self.1.ready() && self.2.ready()
    }

    open spec fn child_processed(&self, i: int, event: Event<D>, path: Seq<u64>, before: Context, after: Context, added: nat) -> bool {
        if i == 0 { self.0.processed(event, path, before, after, added) } else if i == 1 { self.1.processed(event, path, before, after, added) } else { self.2.processed(event, path, before, after, added) }
    }

    fn process_child(&self, i: usize, event: &Event<D>, path: &mut IdPath, cx: &mut Context, actions: &mut Vec<Action>) {
        match i {
            0 => self.0.process(event, path, cx, actions),
            1 => self.1.process(event, path, cx, actions),
            _ => self.2.process(event, path, cx, actions),
        }
    }
}

impl<V0: ViewCore, V1: ViewCore, V2: ViewCore, V3: ViewCore> ViewTuple for (V0, V1, V2, V3) {
    open spec fn wf(&self) -> bool {
        self.0.wf() && self.1.wf() && self.2.wf() && self.3.wf()
    }

    open spec fn spec_len(&self) -> nat {
        4
    }

    open spec fn child_flexible(&self, i: int) -> bool {
        if i == 0 { self.0.flexible() } else if i == 1 { self.1.flexible() } else if i == 2 { self.2.flexible() } else { self.3.flexible() }
    }

    open spec fn child_hit(&self, i: int, path: Seq<u64>, hits: Seq<Seq<u64>>, cx: Context) -> Option<ViewId> {
        if i == 0 { self.0.hit(path, hits, cx) } else if i == 1 { self.1.hit(path, hits, cx) } else if i == 2 { self.2.hit(path, hits, cx) } else { self.3.hit(path, hits, cx) }
    }

    open spec fn child_menu(&self, i: int, path: Seq<u64>, cx: Context) -> Seq<(Seq<char>, Option<HotKey>)> {
        if i == 0 { self.0.menu(path, cx) } else if i == 1 { self.1.menu(path, cx) } else if i == 2 { self.2.menu(path, cx) } else { self.3.menu(path, cx) }
    }

    open spec fn child_kept(&self, i: int, path: Seq<u64>, cx: Context) -> Seq<ViewId> {
        if i == 0 { self.0.kept(path, cx) } else if i == 1 { self.1.kept(path, cx) } else if i == 2 { self.2.kept(path, cx) } else { self.3.kept(path, cx) }
    }

    open spec fn child_access_nodes(&self, i: int, path: Seq<u64>, cx: Context) -> Seq<AccessEntry> {
        if i == 0 { self.0.access_nodes(path, cx) } else if i == 1 { self.1.access_nodes(path, cx) } else if i == 2 { self.2.access_nodes(path, cx) } else { self.3.access_nodes(path, cx) }
    }

    open spec fn child_access_root(&self, i: int, path: Seq<u64>, cx: Context) -> Option<u64> {
        if i == 0 { self.0.access_root(path, cx) } else if i == 1 { self.1.access_root(path, cx) } else if i == 2 { self.2.access_root(path, cx) } else { self.3.access_root(path, cx) }
    }

    fn len(&self) -> (n: usize) {
        4
    }

    fn access_child(&self, i: usize, path: &mut IdPath, cx: &Context, nodes: &mut Vec<AccessNode>) -> (r: Option<u64>) {
        match i {
            0 => self.0.access(path, cx, nodes),
            1 => self.1.access(path, cx, nodes),
            2 => self.2.access(path, cx, nodes),
            _ => self.3.access(path, cx, nodes),
        }
    }

    fn hittest_child(&self, i: usize, path: &mut IdPath, hits: &Vec<IdPath>, cx: &Context) -> (r: Option<ViewId>) {
        match i {
            0 => self.0.hittest(path, hits, cx),
            1 => self.1.hittest(path, hits, cx),
            2 => self.2.hittest(path, hits, cx),
            _ => self.3.hittest(path, hits, cx),
        }
    }

    fn commands_child(&self, i: usize, path: &mut IdPath, cx: &mut Context, cmds: &mut Vec<CommandInfo>) {
        match i {
            0 => self.0.commands(path, cx, cmds),
            1 => self.1.commands(path, cx, cmds),
            2 => self.2.commands(path, cx, cmds),
            _ => self.3.commands(path, cx, cmds),
        }
    }

    fn gc_child(&self, i: usize, path: &mut IdPath, cx: &mut Context, map: &mut Vec<ViewId>) {
        match i {
            0 => self.0.gc(path, cx, map),
            1 => self.1.gc(path, cx, map),
            2 => self.2.gc(path, cx, map),
            _ => self.3.gc(path, cx, map),
        }
    }

    fn is_flexible_child(&self, i: usize) -> (b: bool) {
        match i {
            0 => self.0.is_flexible(),
            1 => self.1.is_flexible(),
            2 => self.2.is_flexible(),
            _ => self.3.is_flexible(),
        }
    }
}

impl<D: 'static, V0: DynView<D>, V1: DynView<D>, V2: DynView<D>, V3: DynView<D>> ViewTupleOf<D> for (V0, V1, V2, V3) {
    open spec fn ready(&self) -> bool {
        self.0.ready() && self.1.ready() && self.2.ready() && self.3.ready()
    }

    open spec fn child_processed(&self, i: int, event: Event<D>, path: Seq<u64>, before: Context, after: Context, added: nat) -> bool {
        if i == 0 { self.0.processed(event, path, before, after, added) } else if i == 1 { self.1.processed(event, path, before, after, added) } else if i == 2 { self.2.processed(event, path, before, after, added) } else { self.3.processed(event, path, before, after, added) }
    }

    fn process_child(&self, i: usize, event: &Event<D>, path: &mut IdPath, cx: &mut Context, actions: &mut Vec<Action>) {
        match i {
            0 => self.0.process(event, path, cx, actions),
            1 => self.1.process(event, path, cx, actions),
            2 => self.2.process(event, path, cx, actions),
            _ => self.3.process(event, path, cx, actions),
        }
    }
}

impl<V0: ViewCore, V1: ViewCore, V2: ViewCore, V3: ViewCore, V4: ViewCore> ViewTuple for (V0, V1, V2, V3, V4) {
    open spec fn wf(&self) -> bool {
        self.0.wf() && self.1.wf() && self.2.wf() && self.3.wf() && self.4.wf()
    }

    open spec fn spec_len(&self) -> nat {
        5
    }

    open spec fn child_flexible(&self, i: int) -> bool {
        if i == 0 { self.0.flexible() } else if i == 1 { self.1.flexible() } else if i == 2 { self.2.flexible() } else if i == 3 { self.3.flexible() } else { self.4.flexible() }
    }

    open spec fn child_hit(&self, i: int, path: Seq<u64>, hits: Seq<Seq<u64>>, cx: Context) -> Option<ViewId> {
        if i == 0 { self.0.hit(path, hits, cx) } else if i == 1 { self.1.hit(path, hits, cx) } else if i == 2 { self.2.hit(path, hits, cx) } else if i == 3 { self.3.hit(path, hits, cx) } else { self.4.hit(path, hits, cx) }
    }

    open spec fn child_menu(&self, i: int, path: Seq<u64>, cx: Context) -> Seq<(Seq<char>, Option<HotKey>)> {
        if i == 0 { self.0.menu(path, cx) } else if i == 1 { self.1.menu(path, cx) } else if i == 2 { self.2.menu(path, cx) } else if i == 3 { self.3.menu(path, cx) } else { self.4.menu(path, cx) }
    }

    open spec fn child_kept(&self, i: int, path: Seq<u64>, cx: Context) -> Seq<ViewId> {
        if i == 0 { self.0.kept(path, cx) } else if i == 1 { self.1.kept(path, cx) } else if i == 2 { self.2.kept(path, cx) } else if i == 3 { self.3.kept(path, cx) } else { self.4.kept(path, cx) }
    }

    open spec fn child_access_nodes(&self, i: int, path: Seq<u64>, cx: Context) -> Seq<AccessEntry> {
        if i == 0 { self.0.access_nodes(path, cx) } else if i == 1 { self.1.access_nodes(path, cx) } else if i == 2 { self.2.access_nodes(path, cx) } else if i == 3 { self.3.access_nodes(path, cx) } else { self.4.access_nodes(path, cx) }
    }

    open spec fn child_access_root(&self, i: int, path: Seq<u64>, cx: Context) -> Option<u64> {
        if i == 0 { self.0.access_root(path, cx) } else if i == 1 { self.1.access_root(path, cx) } else if i == 2 { self.2.access_root(path, cx) } else if i == 3 { self.3.access_root(path, cx) } else { self.4.access_root(path, cx) }
    }

    fn len(&self) -> (n: usize) {
        5
    }

    fn access_child(&self, i: usize, path: &mut IdPath, cx: &Context, nodes: &mut Vec<AccessNode>) -> (r: Option<u64>) {
        match i {
            0 => self.0.access(path, cx, nodes),
            1 => self.1.access(path, cx, nodes),
            2 => self.2.access(path, cx, nodes),
            3 => self.3.access(path, cx, nodes),
            _ => self.4.access(path, cx, nodes),
        }
    }

    fn hittest_child(&self, i: usize, path: &mut IdPath, hits: &Vec<IdPath>, cx: &Context) -> (r: Option<ViewId>) {
        match i {
            0 => self.0.hittest(path, hits, cx),
            1 => self.1.hittest(path, hits, cx),
            2 => self.2.hittest(path, hits, cx),
            3 => self.3.hittest(path, hits, cx),
            _ => self.4.hittest(path, hits, cx),
        }
    }

    fn commands_child(&self, i: usize, path: &mut IdPath, cx: &mut Context, cmds: &mut Vec<CommandInfo>) {
        match i {
            0 => self.0.commands(path, cx, cmds),
            1 => self.1.commands(path, cx, cmds),
            2 => self.2.commands(path, cx, cmds),
            3 => self.3.commands(path, cx, cmds),
            _ => self.4.commands(path, cx, cmds),
        }
    }

    fn gc_child(&self, i: usize, path: &mut IdPath, cx: &mut Context, map: &mut Vec<ViewId>) {
        match i {
            0 => self.0.gc(path, cx, map),
            1 => self.1.gc(path, cx, map),
            2 => self.2.gc(path, cx, map),
            3 => self.3.gc(path, cx, map),
            _ => self.4.gc(path, cx, map),
        }
    }

    fn is_flexible_child(&self, i: usize) -> (b: bool) {
        match i {
            0 => self.0.is_flexible(),
            1 => self.1.is_flexible(),
            2 => self.2.is_flexible(),
            3 => self.3.is_flexible(),
            _ => self.4.is_flexible(),
        }
    }
}

impl<D: 'static, V0: DynView<D>, V1: DynView<D>, V2: DynView<D>, V3: DynView<D>, V4: DynView<D>> ViewTupleOf<D> for (V0, V1, V2, V3, V4) {
    open spec fn ready(&self) -> bool {
        self.0.ready() && self.1.ready() && self.2.ready() && self.3.ready() && self.4.ready()
    }

    open spec fn child_processed(&self, i: int, event: Event<D>, path: Seq<u64>, before: Context, after: Context, added: nat) -> bool {
        if i == 0 { self.0.processed(event, path, before, after, added) } else if i == 1 { self.1.processed(event, path, before, after, added) } else if i == 2 { self.2.processed(event, path, before, after, added) } else if i == 3 { self.3.processed(event, path, before, after, added) } else { self.4.processed(event, path, before, after, added) }
    }

    fn process_child(&self, i: usize, event: &Event<D>, path: &mut IdPath, cx: &mut Context, actions: &mut Vec<Action>) {
        match i {
            0 => self.0.process(event, path, cx, actions),
            1 => self.1.process(event, path, cx, actions),
            2 => self.2.process(event, path, cx, actions),
            3 => self.3.process(event, path, cx, actions),
            _ => self.4.process(event, path, cx, actions),
        }
    }
}

impl<V0: ViewCore, V1: ViewCore, V2: ViewCore, V3: ViewCore, V4: ViewCore, V5: ViewCore> ViewTuple for (V0, V1, V2, V3, V4, V5) {
    open spec fn wf(&self) -> bool {
        self.0.wf() && self.1.wf() && self.2.wf() && self.3.wf() && self.4.wf() && self.5.wf()
    }

    open spec fn spec_len(&self) -> nat {
        6
    }

    open spec fn child_flexible(&self, i: int) -> bool {
        if i == 0 { self.0.flexible() } else if i == 1 { self.1.flexible() } else if i == 2 { self.2.flexible() } else if i == 3 { self.3.flexible() } else if i == 4 { self.4.flexible() } else { self.5.flexible() }
    }

    open spec fn child_hit(&self, i: int, path: Seq<u64>, hits: Seq<Seq<u64>>, cx: Context) -> Option<ViewId> {
        if i == 0 { self.0.hit(path, hits, cx) } else if i == 1 { self.1.hit(path, hits, cx) } else if i == 2 { self.2.hit(path, hits, cx) } else if i == 3 { self.3.hit(path, hits, cx) } else if i == 4 { self.4.hit(path, hits, cx) } else { self.5.hit(path, hits, cx) }
    }

    open spec fn child_menu(&self, i: int, path: Seq<u64>, cx: Context) -> Seq<(Seq<char>, Option<HotKey>)> {
        if i == 0 { self.0.menu(path, cx) } else if i == 1 { self.1.menu(path, cx) } else if i == 2 { self.2.menu(path, cx) } else if i == 3 { self.3.menu(path, cx) } else if i == 4 { self.4.menu(path, cx) } else { self.5.menu(path, cx) }
    }

    open spec fn child_kept(&self, i: int, path: Seq<u64>, cx: Context) -> Seq<ViewId> {
        if i == 0 { self.0.kept(path, cx) } else if i == 1 { self.1.kept(path, cx) } else if i == 2 { self.2.kept(path, cx) } else if i == 3 { self.3.kept(path, cx) } else if i == 4 { self.4.kept(path, cx) } else { self.5.kept(path, cx) }
    }

    open spec fn child_access_nodes(&self, i: int, path: Seq<u64>, cx: Context) -> Seq<AccessEntry> {
        if i == 0 { self.0.access_nodes(path, cx) } else if i == 1 { self.1.access_nodes(path, cx) } else if i == 2 { self.2.access_nodes(path, cx) } else if i == 3 { self.3.access_nodes(path, cx) } else if i == 4 { self.4.access_nodes(path, cx) } else { self.5.access_nodes(path, cx) }
    }

    open spec fn child_access_root(&self, i: int, path: Seq<u64>, cx: Context) -> Option<u64> {
        if i == 0 { self.0.access_root(path, cx) } else if i == 1 { self.1.access_root(path, cx) } else if i == 2 { self.2.access_root(path, cx) } else if i == 3 { self.3.access_root(path, cx) } else if i == 4 { self.4.access_root(path, cx) } else { self.5.access_root(path, cx) }
    }

    fn len(&self) -> (n: usize) {
        6
    }

    fn access_child(&self, i: usize, path: &mut IdPath, cx: &Context, nodes: &mut Vec<AccessNode>) -> (r: Option<u64>) {
        match i {
            0 => self.0.access(path, cx, nodes),
            1 => self.1.access(path, cx, nodes),
            2 => self.2.access(path, cx, nodes),
            3 => self.3.access(path, cx, nodes),
            4 => self.4.access(path, cx, nodes),
            _ => self.5.access(path, cx, nodes),
        }
    }

    fn hittest_child(&self, i: usize, path: &mut IdPath, hits: &Vec<IdPath>, cx: &Context) -> (r: Option<ViewId>) {
        match i {
            0 => self.0.hittest(path, hits, cx),
            1 => self.1.hittest(path, hits, cx),
            2 => self.2.hittest(path, hits, cx),
            3 => self.3.hittest(path, hits, cx),
            4 => self.4.hittest(path, hits, cx),
            _ => self.5.hittest(path, hits, cx),
        }
    }

    fn commands_child(&self, i: usize, path: &mut IdPath, cx: &mut Context, cmds: &mut Vec<CommandInfo>) {
        match i {
            0 => self.0.commands(path, cx, cmds),
            1 => self.1.commands(path, cx, cmds),
            2 => self.2.commands(path, cx, cmds),
            3 => self.3.commands(path, cx, cmds),
            4 => self.4.commands(path, cx, cmds),
            _ => self.5.commands(path, cx, cmds),
        }
    }

    fn gc_child(&self, i: usize, path: &mut IdPath, cx: &mut Context, map: &mut Vec<ViewId>) {
        match i {
            0 => self.0.gc(path, cx, map),
            1 => self.1.gc(path, cx, map),
            2 => self.2.gc(path, cx, map),
            3 => self.3.gc(path, cx, map),
            4 => self.4.gc(path, cx, map),
            _ => self.5.gc(path, cx, map),
        }
    }

    fn is_flexible_child(&self, i: usize) -> (b: bool) {
        match i {
            0 => self.0.is_flexible(),
            1 => self.1.is_flexible(),
            2 => self.2.is_flexible(),
            3 => self.3.is_flexible(),
            4 => self.4.is_flexible(),
            _ => self.5.is_flexible(),
        }
    }
}

impl<D: 'static, V0: DynView<D>, V1: DynView<D>, V2: DynView<D>, V3: DynView<D>, V4: DynView<D>, V5: DynView<D>> ViewTupleOf<D> for (V0, V1, V2, V3, V4, V5) {
    open spec fn ready(&self) -> bool {
        self.0.ready() && self.1.ready() && self.2.ready() && self.3.ready() && self.4.ready() && self.5.ready()
    }

    open spec fn child_processed(&self, i: int, event: Event<D>, path: Seq<u64>, before: Context, after: Context, added: nat) -> bool {
        if i == 0 { self.0.processed(event, path, before, after, added) } else if i == 1 { self.1.processed(event, path, before, after, added) } else if i == 2 { self.2.processed(event, path, before, after, added) } else if i == 3 { self.3.processed(event, path, before, after, added) } else if i == 4 { self.4.processed(event, path, before, after, added) } else { self.5.processed(event, path, before, after, added) }
    }

    fn process_child(&self, i: usize, event: &Event<D>, path: &mut IdPath, cx: &mut Context, actions: &mut Vec<Action>) {
        match i {
            0 => self.0.process(event, path, cx, actions),
            1 => self.1.process(event, path, cx, actions),
            2 => self.2.process(event, path, cx, actions),
            3 => self.3.process(event, path, cx, actions),
            4 => self.4.process(event, path, cx, actions),
            _ => self.5.process(event, path, cx, actions),
        }
    }
}

impl<V0: ViewCore, V1: ViewCore, V2: ViewCore, V3: ViewCore, V4: ViewCore, V5: ViewCore, V6: ViewCore> ViewTuple for (V0, V1, V2, V3, V4, V5, V6) {
    open spec fn wf(&self) -> bool {
        self.0.wf() && self.1.wf() && self.2.wf() && self.3.wf() && self.4.wf() && self.5.wf() && self.6.wf()
    }

    open spec fn spec_len(&self) -> nat {
        7
    }

    open spec fn child_flexible(&self, i: int) -> bool {
        if i == 0 { self.0.flexible() } else if i == 1 { self.1.flexible() } else if i == 2 { self.2.flexible() } else if i == 3 { self.3.flexible() } else if i == 4 { self.4.flexible() } else if i == 5 { self.5.flexible() } else { self.6.flexible() }
    }

    open spec fn child_hit(&self, i: int, path: Seq<u64>, hits: Seq<Seq<u64>>, cx: Context) -> Option<ViewId> {
        if i == 0 { self.0.hit(path, hits, cx) } else if i == 1 { self.1.hit(path, hits, cx) } else if i == 2 { self.2.hit(path, hits, cx) } else if i == 3 { self.3.hit(path, hits, cx) } else if i == 4 { self.4.hit(path, hits, cx) } else if i == 5 { self.5.hit(path, hits, cx) } else { self.6.hit(path, hits, cx) }
    }

    open spec fn child_menu(&self, i: int, path: Seq<u64>, cx: Context) -> Seq<(Seq<char>, Option<HotKey>)> {
        if i == 0 { self.0.menu(path, cx) } else if i == 1 { self.1.menu(path, cx) } else if i == 2 { self.2.menu(path, cx) } else if i == 3 { self.3.menu(path, cx) } else if i == 4 { self.4.menu(path, cx) } else if i == 5 { self.5.menu(path, cx) } else { self.6.menu(path, cx) }
    }

    open spec fn child_kept(&self, i: int, path: Seq<u64>, cx: Context) -> Seq<ViewId> {
        if i == 0 { self.0.kept(path, cx) } else if i == 1 { self.1.kept(path, cx) } else if i == 2 { self.2.kept(path, cx) } else if i == 3 { self.3.kept(path, cx) } else if i == 4 { self.4.kept(path, cx) } else if i == 5 { self.5.kept(path, cx) } else { self.6.kept(path, cx) }
    }

    open spec fn child_access_nodes(&self, i: int, path: Seq<u64>, cx: Context) -> Seq<AccessEntry> {
        if i == 0 { self.0.access_nodes(path, cx) } else if i == 1 { self.1.access_nodes(path, cx) } else if i == 2 { self.2.access_nodes(path, cx) } else if i == 3 { self.3.access_nodes(path, cx) } else if i == 4 { self.4.access_nodes(path, cx) } else if i == 5 { self.5.access_nodes(path, cx) } else { self.6.access_nodes(path, cx) }
    }

    open spec fn child_access_root(&self, i: int, path: Seq<u64>, cx: Context) -> Option<u64> {
        if i == 0 { self.0.access_root(path, cx) } else if i == 1 { self.1.access_root(path, cx) } else if i == 2 { self.2.access_root(path, cx) } else if i == 3 { self.3.access_root(path, cx) } else if i == 4 { self.4.access_root(path, cx) } else if i == 5 { self.5.access_root(path, cx) } else { self.6.access_root(path, cx) }
    }

    fn len(&self) -> (n: usize) {
        7
    }

    fn access_child(&self, i: usize, path: &mut IdPath, cx: &Context, nodes: &mut Vec<AccessNode>) -> (r: Option<u64>) {
        match i {
            0 => self.0.access(path, cx, nodes),
            1 => self.1.access(path, cx, nodes),
            2 => self.2.access(path, cx, nodes),
            3 => self.3.access(path, cx, nodes),
            4 => self.4.access(path, cx, nodes),
            5 => self.5.access(path, cx, nodes),
            _ => self.6.access(path, cx, nodes),
        }
    }

    fn hittest_child(&self, i: usize, path: &mut IdPath, hits: &Vec<IdPath>, cx: &Context) -> (r: Option<ViewId>) {
        match i {
            0 => self.0.hittest(path, hits, cx),
            1 => self.1.hittest(path, hits, cx),
            2 => self.2.hittest(path, hits, cx),
            3 => self.3.hittest(path, hits, cx),
            4 => self.4.hittest(path, hits, cx),
            5 => self.5.hittest(path, hits, cx),
            _ => self.6.hittest(path, hits, cx),
        }
    }

    fn commands_child(&self, i: usize, path: &mut IdPath, cx: &mut Context, cmds: &mut Vec<CommandInfo>) {
        match i {
            0 => self.0.commands(path, cx, cmds),
            1 => self.1.commands(path, cx, cmds),
            2 => self.2.commands(path, cx, cmds),
            3 => self.3.commands(path, cx, cmds),
            4 => self.4.commands(path, cx, cmds),
            5 => self.5.commands(path, cx, cmds),
            _ => self.6.commands(path, cx, cmds),
        }
    }

    fn gc_child(&self, i: usize, path: &mut IdPath, cx: &mut Context, map: &mut Vec<ViewId>) {
        match i {
            0 => self.0.gc(path, cx, map),
            1 => self.1.gc(path, cx, map),
            2 => self.2.gc(path, cx, map),
            3 => self.3.gc(path, cx, map),
            4 => self.4.gc(path, cx, map),
            5 => self.5.gc(path, cx, map),
            _ => self.6.gc(path, cx, map),
        }
    }

    fn is_flexible_child(&self, i: usize) -> (b: bool) {
        match i {
            0 => self.0.is_flexible(),
            1 => self.1.is_flexible(),
            2 => self.2.is_flexible(),
            3 => self.3.is_flexible(),
            4 => self.4.is_flexible(),
            5 => self.5.is_flexible(),
            _ => self.6.is_flexible(),
        }
    }
}

impl<D: 'static, V0: DynView<D>, V1: DynView<D>, V2: DynView<D>, V3: DynView<D>, V4: DynView<D>, V5: DynView<D>, V6: DynView<D>> ViewTupleOf<D> for (V0, V1, V2, V3, V4, V5, V6) {
    open spec fn ready(&self) -> bool {
        self.0.ready() && self.1.ready() && self.2.ready() && self.3.ready() && self.4.ready() && self.5.ready() && self.6.ready()
    }

    open spec fn child_processed(&self, i: int, event: Event<D>, path: Seq<u64>, before: Context, after: Context, added: nat) -> bool {
        if i == 0 { self.0.processed(event, path, before, after, added) } else if i == 1 { self.1.processed(event, path, before, after, added) } else if i == 2 { self.2.processed(event, path, before, after, added) } else if i == 3 { self.3.processed(event, path, before, after, added) } else if i == 4 { self.4.processed(event, path, before, after, added) } else if i == 5 { self.5.processed(event, path, before, after, added) } else { self.6.processed(event, path, before, after, added) }
    }

    fn process_child(&self, i: usize, event: &Event<D>, path: &mut IdPath, cx: &mut Context, actions: &mut Vec<Action>) {
        match i {
            0 => self.0.process(event, path, cx, actions),
            1 => self.1.process(event, path, cx, actions),
            2 => self.2.process(event, path, cx, actions),
            3 => self.3.process(event, path, cx, actions),
            4 => self.4.process(event, path, cx, actions),
            5 => self.5.process(event, path, cx, actions),
            _ => self.6.process(event, path, cx, actions),
        }
    }
}

impl<V0: ViewCore, V1: ViewCore, V2: ViewCore, V3: ViewCore, V4: ViewCore, V5: ViewCore, V6: ViewCore, V7: ViewCore> ViewTuple for (V0, V1, V2, V3, V4, V5, V6, V7) {
    open spec fn wf(&self) -> bool {
        self.0.wf() && self.1.wf() && self.2.wf() && self.3.wf() && self.4.wf() && self.5.wf() && self.6.wf() && self.7.wf()
    }

    open spec fn spec_len(&self) -> nat {
        8
    }

    open spec fn child_flexible(&self, i: int) -> bool {
        if i == 0 { self.0.flexible() } else if i == 1 { self.1.flexible() } else if i == 2 { self.2.flexible() } else if i == 3 { self.3.flexible() } else if i == 4 { self.4.flexible() } else if i == 5 { self.5.flexible() } else if i == 6 { self.6.flexible() } else { self.7.flexible() }
    }

    open spec fn child_hit(&self, i: int, path: Seq<u64>, hits: Seq<Seq<u64>>, cx: Context) -> Option<ViewId> {
        if i == 0 { self.0.hit(path, hits, cx) } else if i == 1 { self.1.hit(path, hits, cx) } else if i == 2 { self.2.hit(path, hits, cx) } else if i == 3 { self.3.hit(path, hits, cx) } else if i == 4 { self.4.hit(path, hits, cx) } else if i == 5 { self.5.hit(path, hits, cx) } else if i == 6 { self.6.hit(path, hits, cx) } else { self.7.hit(path, hits, cx) }
    }

    open spec fn child_menu(&self, i: int, path: Seq<u64>, cx: Context) -> Seq<(Seq<char>, Option<HotKey>)> {
        if i == 0 { self.0.menu(path, cx) } else if i == 1 { self.1.menu(path, cx) } else if i == 2 { self.2.menu(path, cx) } else if i == 3 { self.3.menu(path, cx) } else if i == 4 { self.4.menu(path, cx) } else if i == 5 { self.5.menu(path, cx) } else if i == 6 { self.6.menu(path, cx) } else { self.7.menu(path, cx) }
    }

    open spec fn child_kept(&self, i: int, path: Seq<u64>, cx: Context) -> Seq<ViewId> {
        if i == 0 { self.0.kept(path, cx) } else if i == 1 { self.1.kept(path, cx) } else if i == 2 { self.2.kept(path, cx) } else if i == 3 { self.3.kept(path, cx) } else if i == 4 { self.4.kept(path, cx) } else if i == 5 { self.5.kept(path, cx) } else if i == 6 { self.6.kept(path, cx) } else { self.7.kept(path, cx) }
    }

    open spec fn child_access_nodes(&self, i: int, path: Seq<u64>, cx: Context) -> Seq<AccessEntry> {
        if i == 0 { self.0.access_nodes(path, cx) } else if i == 1 { self.1.access_nodes(path, cx) } else if i == 2 { self.2.access_nodes(path, cx) } else if i == 3 { self.3.access_nodes(path, cx) } else if i == 4 { self.4.access_nodes(path, cx) } else if i == 5 { self.5.access_nodes(path, cx) } else if i == 6 { self.6.access_nodes(path, cx) } else { self.7.access_nodes(path, cx) }
    }

    open spec fn child_access_root(&self, i: int, path: Seq<u64>, cx: Context) -> Option<u64> {
        if i == 0 { self.0.access_root(path, cx) } else if i == 1 { self.1.access_root(path, cx) } else if i == 2 { self.2.access_root(path, cx) } else if i == 3 { self.3.access_root(path, cx) } else if i == 4 { self.4.access_root(path, cx) } else if i == 5 { self.5.access_root(path, cx) } else if i == 6 { self.6.access_root(path, cx) } else { self.7.access_root(path, cx) }
    }

    fn len(&self) -> (n: usize) {
        8
    }

    fn access_child(&self, i: usize, path: &mut IdPath, cx: &Context, nodes: &mut Vec<AccessNode>) -> (r: Option<u64>) {
        match i {
            0 => self.0.access(path, cx, nodes),
            1 => self.1.access(path, cx, nodes),
            2 => self.2.access(path, cx, nodes),
            3 => self.3.access(path, cx, nodes),
            4 => self.4.access(path, cx, nodes),
            5 => self.5.access(path, cx, nodes),
            6 => self.6.access(path, cx, nodes),
            _ => self.7.access(path, cx, nodes),
        }
    }

    fn hittest_child(&self, i: usize, path: &mut IdPath, hits: &Vec<IdPath>, cx: &Context) -> (r: Option<ViewId>) {
        match i {
            0 => self.0.hittest(path, hits, cx),
            1 => self.1.hittest(path, hits, cx),
            2 => self.2.hittest(path, hits, cx),
            3 => self.3.hittest(path, hits, cx),
            4 => self.4.hittest(path, hits, cx),
            5 => self.5.hittest(path, hits, cx),
            6 => self.6.hittest(path, hits, cx),
            _ => self.7.hittest(path, hits, cx),
        }
    }

    fn commands_child(&self, i: usize, path: &mut IdPath, cx: &mut Context, cmds: &mut Vec<CommandInfo>) {
        match i {
            0 => self.0.commands(path, cx, cmds),
            1 => self.1.commands(path, cx, cmds),
            2 => self.2.commands(path, cx, cmds),
            3 => self.3.commands(path, cx, cmds),
            4 => self.4.commands(path, cx, cmds),
            5 => self.5.commands(path, cx, cmds),
            6 => self.6.commands(path, cx, cmds),
            _ => self.7.commands(path, cx, cmds),
        }
    }

    fn gc_child(&self, i: usize, path: &mut IdPath, cx: &mut Context, map: &mut Vec<ViewId>) {
        match i {
            0 => self.0.gc(path, cx, map),
            1 => self.1.gc(path, cx, map),
            2 => self.2.gc(path, cx, map),
            3 => self.3.gc(path, cx, map),
            4 => self.4.gc(path, cx, map),
            5 => self.5.gc(path, cx, map),
            6 => self.6.gc(path, cx, map),
            _ => self.7.gc(path, cx, map),
        }
    }

    fn is_flexible_child(&self, i: usize) -> (b: bool) {
        match i {
            0 => self.0.is_flexible(),
            1 => self.1.is_flexible(),
            2 => self.2.is_flexible(),
            3 => self.3.is_flexible(),
            4 => self.4.is_flexible(),
            5 => self.5.is_flexible(),
            6 => self.6.is_flexible(),
            _ => self.7.is_flexible(),
        }
    }
}

impl<D: 'static, V0: DynView<D>, V1: DynView<D>, V2: DynView<D>, V3: DynView<D>, V4: DynView<D>, V5: DynView<D>, V6: DynView<D>, V7: DynView<D>> ViewTupleOf<D> for (V0, V1, V2, V3, V4, V5, V6, V7) {
    open spec fn ready(&self) -> bool {
        self.0.ready() && self.1.ready() && self.2.ready() && self.3.ready() && self.4.ready() && self.5.ready() && self.6.ready() && self.7.ready()
    }

    open spec fn child_processed(&self, i: int, event: Event<D>, path: Seq<u64>, before: Context, after: Context, added: nat) -> bool {
        if i == 0 { self.0.processed(event, path, before, after, added) } else if i == 1 { self.1.processed(event, path, before, after, added) } else if i == 2 { self.2.processed(event, path, before, after, added) } else if i == 3 { self.3.processed(event, path, before, after, added) } else if i == 4 { self.4.processed(event, path, before, after, added) } else if i == 5 { self.5.processed(event, path, before, after, added) } else if i == 6 { self.6.processed(event, path, before, after, added) } else { self.7.processed(event, path, before, after, added) }
    }

    fn process_child(&self, i: usize, event: &Event<D>, path: &mut IdPath, cx: &mut Context, actions: &mut Vec<Action>) {
        match i {
            0 => self.0.process(event, path, cx, actions),
            1 => self.1.process(event, path, cx, actions),
            2 => self.2.process(event, path, cx, actions),
            3 => self.3.process(event, path, cx, actions),
            4 => self.4.process(event, path, cx, actions),
            5 => self.5.process(event, path, cx, actions),
            6 => self.6.process(event, path, cx, actions),
            _ => self.7.process(event, path, cx, actions),
        }
    }
}

impl<V0: ViewCore, V1: ViewCore, V2: ViewCore, V3: ViewCore, V4: ViewCore, V5: ViewCore, V6: ViewCore, V7: ViewCore, V8: ViewCore> ViewTuple for (V0, V1, V2, V3, V4, V5, V6, V7, V8) {
    open spec fn wf(&self) -> bool {
        self.0.wf() && self.1.wf() && self.2.wf() && self.3.wf() && self.4.wf() && self.5.wf() && self.6.wf() && self.7.wf() && self.8.wf()
    }

    open spec fn spec_len(&self) -> nat {
        9
    }

    open spec fn child_flexible(&self, i: int) -> bool {
        if i == 0 { self.0.flexible() } else if i == 1 { self.1.flexible() } else if i == 2 { self.2.flexible() } else if i == 3 { self.3.flexible() } else if i == 4 { self.4.flexible() } else if i == 5 { self.5.flexible() } else if i == 6 { self.6.flexible() } else if i == 7 { self.7.flexible() } else { self.8.flexible() }
    }

    open spec fn child_hit(&self, i: int, path: Seq<u64>, hits: Seq<Seq<u64>>, cx: Context) -> Option<ViewId> {
        if i == 0 { self.0.hit(path, hits, cx) } else if i == 1 { self.1.hit(path, hits, cx) } else if i == 2 { self.2.hit(path, hits, cx) } else if i == 3 { self.3.hit(path, hits, cx) } else if i == 4 { self.4.hit(path, hits, cx) } else if i == 5 { self.5.hit(path, hits, cx) } else if i == 6 { self.6.hit(path, hits, cx) } else if i == 7 { self.7.hit(path, hits, cx) } else { self.8.hit(path, hits, cx) }
    }

    open spec fn child_menu(&self, i: int, path: Seq<u64>, cx: Context) -> Seq<(Seq<char>, Option<HotKey>)> {
        if i == 0 { self.0.menu(path, cx) } else if i == 1 { self.1.menu(path, cx) } else if i == 2 { self.2.menu(path, cx) } else if i == 3 { self.3.menu(path, cx) } else if i == 4 { self.4.menu(path, cx) } else if i == 5 { self.5.menu(path, cx) } else if i == 6 { self.6.menu(path, cx) } else if i == 7 { self.7.menu(path, cx) } else { self.8.menu(path, cx) }
    }

    open spec fn child_kept(&self, i: int, path: Seq<u64>, cx: Context) -> Seq<ViewId> {
        if i == 0 { self.0.kept(path, cx) } else if i == 1 { self.1.kept(path, cx) } else if i == 2 { self.2.kept(path, cx) } else if i == 3 { self.3.kept(path, cx) } else if i == 4 { self.4.kept(path, cx) } else if i == 5 { self.5.kept(path, cx) } else if i == 6 { self.6.kept(path, cx) } else if i == 7 { self.7.kept(path, cx) } else { self.8.kept(path, cx) }
    }

    open spec fn child_access_nodes(&self, i: int, path: Seq<u64>, cx: Context) -> Seq<AccessEntry> {
        if i == 0 { self.0.access_nodes(path, cx) } else if i == 1 { self.1.access_nodes(path, cx) } else if i == 2 { self.2.access_nodes(path, cx) } else if i == 3 { self.3.access_nodes(path, cx) } else if i == 4 { self.4.access_nodes(path, cx) } else if i == 5 { self.5.access_nodes(path, cx) } else if i == 6 { self.6.access_nodes(path, cx) } else if i == 7 { self.7.access_nodes(path, cx) } else { self.8.access_nodes(path, cx) }
    }

    open spec fn child_access_root(&self, i: int, path: Seq<u64>, cx: Context) -> Option<u64> {
        if i == 0 { self.0.access_root(path, cx) } else if i == 1 { self.1.access_root(path, cx) } else if i == 2 { self.2.access_root(path, cx) } else if i == 3 { self.3.access_root(path, cx) } else if i == 4 { self.4.access_root(path, cx) } else if i == 5 { self.5.access_root(path, cx) } else if i == 6 { self.6.access_root(path, cx) } else if i == 7 { self.7.access_root(path, cx) } else { self.8.access_root(path, cx) }
    }

    fn len(&self) -> (n: usize) {
        9
    }

    fn access_child(&self, i: usize, path: &mut IdPath, cx: &Context, nodes: &mut Vec<AccessNode>) -> (r: Option<u64>) {
        match i {
            0 => self.0.access(path, cx, nodes),
            1 => self.1.access(path, cx, nodes),
            2 => self.2.access(path, cx, nodes),
            3 => self.3.access(path, cx, nodes),
            4 => self.4.access(path, cx, nodes),
            5 => self.5.access(path, cx, nodes),
            6 => self.6.access(path, cx, nodes),
            7 => self.7.access(path, cx, nodes),
            _ => self.8.access(path, cx, nodes),
        }
    }

    fn hittest_child(&self, i: usize, path: &mut IdPath, hits: &Vec<IdPath>, cx: &Context) -> (r: Option<ViewId>) {
        match i {
            0 => self.0.hittest(path, hits, cx),
            1 => self.1.hittest(path, hits, cx),
            2 => self.2.hittest(path, hits, cx),
            3 => self.3.hittest(path, hits, cx),
            4 => self.4.hittest(path, hits, cx),
            5 => self.5.hittest(path, hits, cx),
            6 => self.6.hittest(path, hits, cx),
            7 => self.7.hittest(path, hits, cx),
            _ => self.8.hittest(path, hits, cx),
        }
    }

    fn commands_child(&self, i: usize, path: &mut IdPath, cx: &mut Context, cmds: &mut Vec<CommandInfo>) {
        match i {
            0 => self.0.commands(path, cx, cmds),
            1 => self.1.commands(path, cx, cmds),
            2 => self.2.commands(path, cx, cmds),
            3 => self.3.commands(path, cx, cmds),
            4 => self.4.commands(path, cx, cmds),
            5 => self.5.commands(path, cx, cmds),
            6 => self.6.commands(path, cx, cmds),
            7 => self.7.commands(path, cx, cmds),
            _ => self.8.commands(path, cx, cmds),
        }
    }

    fn gc_child(&self, i: usize, path: &mut IdPath, cx: &mut Context, map: &mut Vec<ViewId>) {
        match i {
            0 => self.0.gc(path, cx, map),
            1 => self.1.gc(path, cx, map),
            2 => self.2.gc(path, cx, map),
            3 => self.3.gc(path, cx, map),
            4 => self.4.gc(path, cx, map),
            5 => self.5.gc(path, cx, map),
            6 => self.6.gc(path, cx, map),
            7 => self.7.gc(path, cx, map),
            _ => self.8.gc(path, cx, map),
        }
    }

    fn is_flexible_child(&self, i: usize) -> (b: bool) {
        match i {
            0 => self.0.is_flexible(),
            1 => self.1.is_flexible(),
            2 => self.2.is_flexible(),
            3 => self.3.is_flexible(),
            4 => self.4.is_flexible(),
            5 => self.5.is_flexible(),
            6 => self.6.is_flexible(),
            7 => self.7.is_flexible(),
            _ => self.8.is_flexible(),
        }
    }
}

impl<D: 'static, V0: DynView<D>, V1: DynView<D>, V2: DynView<D>, V3: DynView<D>, V4: DynView<D>, V5: DynView<D>, V6: DynView<D>, V7: DynView<D>, V8: DynView<D>> ViewTupleOf<D> for (V0, V1, V2, V3, V4, V5, V6, V7, V8) {
    open spec fn ready(&self) -> bool {
        self.0.ready() && self.1.ready() && self.2.ready() && self.3.ready() && self.4.ready() && self.5.ready() && self.6.ready() && self.7.ready() && self.8.ready()
    }

    open spec fn child_processed(&self, i: int, event: Event<D>, path: Seq<u64>, before: Context, after: Context, added: nat) -> bool {
        if i == 0 { self.0.processed(event, path, before, after, added) } else if i == 1 { self.1.processed(event, path, before, after, added) } else if i == 2 { self.2.processed(event, path, before, after, added) } else if i == 3 { self.3.processed(event, path, before, after, added) } else if i == 4 { self.4.processed(event, path, before, after, added) } else if i == 5 { self.5.processed(event, path, before, after, added) } else if i == 6 { self.6.processed(event, path, before, after, added) } else if i == 7 { self.7.processed(event, path, before, after, added) } else { self.8.processed(event, path, before, after, added) }
    }

    fn process_child(&self, i: usize, event: &Event<D>, path: &mut IdPath, cx: &mut Context, actions: &mut Vec<Action>) {
        match i {
            0 => self.0.process(event, path, cx, actions),
            1 => self.1.process(event, path, cx, actions),
            2 => self.2.process(event, path, cx, actions),
            3 => self.3.process(event, path, cx, actions),
            4 => self.4.process(event, path, cx, actions),
            5 => self.5.process(event, path, cx, actions),
            6 => self.6.process(event, path, cx, actions),
            7 => self.7.process(event, path, cx, actions),
            _ => self.8.process(event, path, cx, actions),
        }
    }
}

impl<V0: ViewCore, V1: ViewCore, V2: ViewCore, V3: ViewCore, V4: ViewCore, V5: ViewCore, V6: ViewCore, V7: ViewCore, V8: ViewCore, V9: ViewCore> ViewTuple for (V0, V1, V2, V3, V4, V5, V6, V7, V8, V9) {
    open spec fn wf(&self) -> bool {
        self.0.wf() && self.1.wf() && self.2.wf() && self.3.wf() && self.4.wf() && self.5.wf() && self.6.wf() && self.7.wf() && self.8.wf() && self.9.wf()
    }

    open spec fn spec_len(&self) -> nat {
        10
    }

    open spec fn child_flexible(&self, i: int) -> bool {
        if i == 0 { self.0.flexible() } else if i == 1 { self.1.flexible() } else if i == 2 { self.2.flexible() } else if i == 3 { self.3.flexible() } else if i == 4 { self.4.flexible() } else if i == 5 { self.5.flexible() } else if i == 6 { self.6.flexible() } else if i == 7 { self.7.flexible() } else if i == 8 { self.8.flexible() } else { self.9.flexible() }
    }

    open spec fn child_hit(&self, i: int, path: Seq<u64>, hits: Seq<Seq<u64>>, cx: Context) -> Option<ViewId> {
        if i == 0 { self.0.hit(path, hits, cx) } else if i == 1 { self.1.hit(path, hits, cx) } else if i == 2 { self.2.hit(path, hits, cx) } else if i == 3 { self.3.hit(path, hits, cx) } else if i == 4 { self.4.hit(path, hits, cx) } else if i == 5 { self.5.hit(path, hits, cx) } else if i == 6 { self.6.hit(path, hits, cx) } else if i == 7 { self.7.hit(path, hits, cx) } else if i == 8 { self.8.hit(path, hits, cx) } else { self.9.hit(path, hits, cx) }
    }

    open spec fn child_menu(&self, i: int, path: Seq<u64>, cx: Context) -> Seq<(Seq<char>, Option<HotKey>)> {
        if i == 0 { self.0.menu(path, cx) } else if i == 1 { self.1.menu(path, cx) } else if i == 2 { self.2.menu(path, cx) } else if i == 3 { self.3.menu(path, cx) } else if i == 4 { self.4.menu(path, cx) } else if i == 5 { self.5.menu(path, cx) } else if i == 6 { self.6.menu(path, cx) } else if i == 7 { self.7.menu(path, cx) } else if i == 8 { self.8.menu(path, cx) } else { self.9.menu(path, cx) }
    }

    open spec fn child_kept(&self, i: int, path: Seq<u64>, cx: Context) -> Seq<ViewId> {
        if i == 0 { self.0.kept(path, cx) } else if i == 1 { self.1.kept(path, cx) } else if i == 2 { self.2.kept(path, cx) } else if i == 3 { self.3.kept(path, cx) } else if i == 4 { self.4.kept(path, cx) } else if i == 5 { self.5.kept(path, cx) } else if i == 6 { self.6.kept(path, cx) } else if i == 7 { self.7.kept(path, cx) } else if i == 8 { self.8.kept(path, cx) } else { self.9.kept(path, cx) }
    }

    open spec fn child_access_nodes(&self, i: int, path: Seq<u64>, cx: Context) -> Seq<AccessEntry> {
        if i == 0 { self.0.access_nodes(path, cx) } else if i == 1 { self.1.access_nodes(path, cx) } else if i == 2 { self.2.access_nodes(path, cx) } else if i == 3 { self.3.access_nodes(path, cx) } else if i == 4 { self.4.access_nodes(path, cx) } else if i == 5 { self.5.access_nodes(path, cx) } else if i == 6 { self.6.access_nodes(path, cx) } else if i == 7 { self.7.access_nodes(path, cx) } else if i == 8 { self.8.access_nodes(path, cx) } else { self.9.access_nodes(path, cx) }
    }

    open spec fn child_access_root(&self, i: int, path: Seq<u64>, cx: Context) -> Option<u64> {
        if i == 0 { self.0.access_root(path, cx) } else if i == 1 { self.1.access_root(path, cx) } else if i == 2 { self.2.access_root(path, cx) } else if i == 3 { self.3.access_root(path, cx) } else if i == 4 { self.4.access_root(path, cx) } else if i == 5 { self.5.access_root(path, cx) } else if i == 6 { self.6.access_root(path, cx) } else if i == 7 { self.7.access_root(path, cx) } else if i == 8 { self.8.access_root(path, cx) } else { self.9.access_root(path, cx) }
    }

    fn len(&self) -> (n: usize) {
        10
    }

    fn access_child(&self, i: usize, path: &mut IdPath, cx: &Context, nodes: &mut Vec<AccessNode>) -> (r: Option<u64>) {
        match i {
            0 => self.0.access(path, cx, nodes),
            1 => self.1.access(path, cx, nodes),
            2 => self.2.access(path, cx, nodes),
            3 => self.3.access(path, cx, nodes),
            4 => self.4.access(path, cx, nodes),
            5 => self.5.access(path, cx, nodes),
            6 => self.6.access(path, cx, nodes),
            7 => self.7.access(path, cx, nodes),
            8 => self.8.access(path, cx, nodes),
            _ => self.9.access(path, cx, nodes),
        }
    }

    fn hittest_child(&self, i: usize, path: &mut IdPath, hits: &Vec<IdPath>, cx: &Context) -> (r: Option<ViewId>) {
        match i {
            0 => self.0.hittest(path, hits, cx),
            1 => self.1.hittest(path, hits, cx),
            2 => self.2.hittest(path, hits, cx),
            3 => self.3.hittest(path, hits, cx),
            4 => self.4.hittest(path, hits, cx),
            5 => self.5.hittest(path, hits, cx),
            6 => self.6.hittest(path, hits, cx),
            7 => self.7.hittest(path, hits, cx),
            8 => self.8.hittest(path, hits, cx),
            _ => self.9.hittest(path, hits, cx),
        }
    }

    fn commands_child(&self, i: usize, path: &mut IdPath, cx: &mut Context, cmds: &mut Vec<CommandInfo>) {
        match i {
            0 => self.0.commands(path, cx, cmds),
            1 => self.1.commands(path, cx, cmds),
            2 => self.2.commands(path, cx, cmds),
            3 => self.3.commands(path, cx, cmds),
            4 => self.4.commands(path, cx, cmds),
            5 => self.5.commands(path, cx, cmds),
            6 => self.6.commands(path, cx, cmds),
            7 => self.7.commands(path, cx, cmds),
            8 => self.8.commands(path, cx, cmds),
            _ => self.9.commands(path, cx, cmds),
        }
    }

    fn gc_child(&self, i: usize, path: &mut IdPath, cx: &mut Context, map: &mut Vec<ViewId>) {
        match i {
            0 => self.0.gc(path, cx, map),
            1 => self.1.gc(path, cx, map),
            2 => self.2.gc(path, cx, map),
            3 => self.3.gc(path, cx, map),
            4 => self.4.gc(path, cx, map),
            5 => self.5.gc(path, cx, map),
            6 => self.6.gc(path, cx, map),
            7 => self.7.gc(path, cx, map),
            8 => self.8.gc(path, cx, map),
            _ => self.9.gc(path, cx, map),
        }
    }

    fn is_flexible_child(&self, i: usize) -> (b: bool) {
        match i {
            0 => self.0.is_flexible(),
            1 => self.1.is_flexible(),
            2 => self.2.is_flexible(),
            3 => self.3.is_flexible(),
            4 => self.4.is_flexible(),
            5 => self.5.is_flexible(),
            6 => self.6.is_flexible(),
            7 => self.7.is_flexible(),
            8 => self.8.is_flexible(),
            _ => self.9.is_flexible(),
        }
    }
}

impl<D: 'static, V0: DynView<D>, V1: DynView<D>, V2: DynView<D>, V3: DynView<D>, V4: DynView<D>, V5: DynView<D>, V6: DynView<D>, V7: DynView<D>, V8: DynView<D>, V9: DynView<D>> ViewTupleOf<D> for (V0, V1, V2, V3, V4, V5, V6, V7, V8, V9) {
    open spec fn ready(&self) -> bool {
        self.0.ready() && self.1.ready() && self.2.ready() && self.3.ready() && self.4.ready() && self.5.ready() && self.6.ready() && self.7.ready() && self.8.ready() && self.9.ready()
    }

    open spec fn child_processed(&self, i: int, event: Event<D>, path: Seq<u64>, before: Context, after: Context, added: nat) -> bool {
        if i == 0 { self.0.processed(event, path, before, after, added) } else if i == 1 { self.1.processed(event, path, before, after, added) } else if i == 2 { self.2.processed(event, path, before, after, added) } else if i == 3 { self.3.processed(event, path, before, after, added) } else if i == 4 { self.4.processed(event, path, before, after, added) } else if i == 5 { self.5.processed(event, path, before, after, added) } else if i == 6 { self.6.processed(event, path, before, after, added) } else if i == 7 { self.7.processed(event, path, before, after, added) } else if i == 8 { self.8.processed(event, path, before, after, added) } else { self.9.processed(event, path, before, after, added) }
    }

    fn process_child(&self, i: usize, event: &Event<D>, path: &mut IdPath, cx: &mut Context, actions: &mut Vec<Action>) {
        match i {
            0 => self.0.process(event, path, cx, actions),
            1 => self.1.process(event, path, cx, actions),
            2 => self.2.process(event, path, cx, actions),
            3 => self.3.process(event, path, cx, actions),
            4 => self.4.process(event, path, cx, actions),
            5 => self.5.process(event, path, cx, actions),
            6 => self.6.process(event, path, cx, actions),
            7 => self.7.process(event, path, cx, actions),
            8 => self.8.process(event, path, cx, actions),
            _ => self.9.process(event, path, cx, actions),
        }
    }
}

} // verus!
