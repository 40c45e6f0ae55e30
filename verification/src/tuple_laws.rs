//! Laws tying each position of a tuple of views or commands to the element
//! at that position, and the walks of a stack to those of its views.
use vstd::prelude::*;
use crate::access::{accesskit_role, RoleName};
use crate::context::Context;
use crate::event::Event;
use crate::id::{ViewId, path_id};
use crate::view::{DynView, ViewCore};
use crate::viewtuple::{ViewTuple, ViewTupleOf};
use crate::views::command::{group_menu, CommandBase, CommandGroup, CommandTuple};
use crate::views::stack::{Stack, StackDirection, tuple_processed, tuple_hit, tuple_menu, tuple_kept, tuple_access_nodes, tuple_access_children};

verus! {

/// In a tuple of 1 views, position `i` stands for the `i`-th view: its
/// flexibility, hit, menu, kept ids and accessibility are that view's own,
/// and the tuple is well formed when every view is.
pub proof fn law_view_tuple1_positions<V0: ViewCore>(t: (V0,), path: Seq<u64>, hits: Seq<Seq<u64>>, cx: Context)
    ensures
        t.spec_len() == 1,
        t.wf() == (t.0.wf()),
        t.child_flexible(0) == t.0.flexible(),
        t.child_hit(0, path, hits, cx) == t.0.hit(path, hits, cx),
        t.child_menu(0, path, cx) == t.0.menu(path, cx),
        t.child_kept(0, path, cx) == t.0.kept(path, cx),
        t.child_access_nodes(0, path, cx) == t.0.access_nodes(path, cx),
        t.child_access_root(0, path, cx) == t.0.access_root(path, cx),

{
}

/// In a tuple of 1 views, an event handled at position `i` is handled by
/// the `i`-th view.
pub proof fn law_view_tuple1_events<D: 'static, V0: DynView<D>>(
    t: (V0,),
    event: Event<D>,
    path: Seq<u64>,
    before: Context,
    after: Context,
    added: nat,
)
    ensures
        t.ready() == (t.0.ready()),
        t.child_processed(0, event, path, before, after, added) == t.0.processed(event, path, before, after, added),

{
}

/// A stack of 1 views: its hit is that of the last view that is hit, its
/// menu lists the views' menus in order, it keeps its own id and then, for
/// each view in order, the view's id and what the view keeps, and its
/// accessibility nodes are the views' nodes in order followed by a list
/// node whose children are the views' nodes. View `i` sits at the stack's
/// path extended by `i`.
pub proof fn law_stack1<V0: ViewCore, Dir: StackDirection>(s: Stack<(V0,), Dir>, path: Seq<u64>, hits: Seq<Seq<u64>>, cx: Context)
    ensures
        s.hit(path, hits, cx) == (if s.children.0.hit(path.push(0), hits, cx) is Some { s.children.0.hit(path.push(0), hits, cx) } else { None }),
        s.menu(path, cx) == s.children.0.menu(path.push(0), cx),
        s.kept(path, cx) == seq![path_id(path)] + seq![path_id(path.push(0))] + s.children.0.kept(path.push(0), cx),
        s.access_nodes(path, cx) == (s.children.0.access_nodes(path.push(0), cx)).push((
            path_id(path).id,
            accesskit_role(RoleName::List),
            root_ids(s.children.0.access_root(path.push(0), cx)),
            None,
        )),
{
    reveal_with_fuel(tuple_hit, 2);
    reveal_with_fuel(tuple_menu, 2);
    reveal_with_fuel(tuple_kept, 2);
    reveal_with_fuel(tuple_access_nodes, 2);
    reveal_with_fuel(tuple_access_children, 2);
    law_view_tuple1_positions(s.children, path, hits, cx);
    law_view_tuple1_positions(s.children, path.push(0), hits, cx);
}

/// In a tuple of 2 views, position `i` stands for the `i`-th view: its
/// flexibility, hit, menu, kept ids and accessibility are that view's own,
/// and the tuple is well formed when every view is.
pub proof fn law_view_tuple2_positions<V0: ViewCore, V1: ViewCore>(t: (V0, V1), path: Seq<u64>, hits: Seq<Seq<u64>>, cx: Context)
    ensures
        t.spec_len() == 2,
        t.wf() == (t.0.wf() && t.1.wf()),
        t.child_flexible(0) == t.0.flexible(),
        t.child_hit(0, path, hits, cx) == t.0.hit(path, hits, cx),
        t.child_menu(0, path, cx) == t.0.menu(path, cx),
        t.child_kept(0, path, cx) == t.0.kept(path, cx),
        t.child_access_nodes(0, path, cx) == t.0.access_nodes(path, cx),
        t.child_access_root(0, path, cx) == t.0.access_root(path, cx),
        t.child_flexible(1) == t.1.flexible(),
        t.child_hit(1, path, hits, cx) == t.1.hit(path, hits, cx),
        t.child_menu(1, path, cx) == t.1.menu(path, cx),
        t.child_kept(1, path, cx) == t.1.kept(path, cx),
        t.child_access_nodes(1, path, cx) == t.1.access_nodes(path, cx),
        t.child_access_root(1, path, cx) == t.1.access_root(path, cx),

{
}

/// In a tuple of 2 views, an event handled at position `i` is handled by
/// the `i`-th view.
pub proof fn law_view_tuple2_events<D: 'static, V0: DynView<D>, V1: DynView<D>>(
    t: (V0, V1),
    event: Event<D>,
    path: Seq<u64>,
    before: Context,
    after: Context,
    added: nat,
)
    ensures
        t.ready() == (t.0.ready() && t.1.ready()),
        t.child_processed(0, event, path, before, after, added) == t.0.processed(event, path, before, after, added),
        t.child_processed(1, event, path, before, after, added) == t.1.processed(event, path, before, after, added),

{
}

/// A stack of 2 views: its hit is that of the last view that is hit, its
/// menu lists the views' menus in order, it keeps its own id and then, for
/// each view in order, the view's id and what the view keeps, and its
/// accessibility nodes are the views' nodes in order followed by a list
/// node whose children are the views' nodes. View `i` sits at the stack's
/// path extended by `i`.
pub proof fn law_stack2<V0: ViewCore, V1: ViewCore, Dir: StackDirection>(s: Stack<(V0, V1), Dir>, path: Seq<u64>, hits: Seq<Seq<u64>>, cx: Context)
    ensures
        s.hit(path, hits, cx) == (if s.children.1.hit(path.push(1), hits, cx) is Some { s.children.1.hit(path.push(1), hits, cx) } else { (if s.children.0.hit(path.push(0), hits, cx) is Some { s.children.0.hit(path.push(0), hits, cx) } else { None }) }),
        s.menu(path, cx) == s.children.0.menu(path.push(0), cx) + s.children.1.menu(path.push(1), cx),
        s.kept(path, cx) == seq![path_id(path)] + seq![path_id(path.push(0))] + s.children.0.kept(path.push(0), cx) + seq![path_id(path.push(1))] + s.children.1.kept(path.push(1), cx),
        s.access_nodes(path, cx) == (s.children.0.access_nodes(path.push(0), cx) + s.children.1.access_nodes(path.push(1), cx)).push((
            path_id(path).id,
            accesskit_role(RoleName::List),
            root_ids(s.children.0.access_root(path.push(0), cx)) + root_ids(s.children.1.access_root(path.push(1), cx)),
            None,
        )),
{
    reveal_with_fuel(tuple_hit, 3);
    reveal_with_fuel(tuple_menu, 3);
    reveal_with_fuel(tuple_kept, 3);
    reveal_with_fuel(tuple_access_nodes, 3);
    reveal_with_fuel(tuple_access_children, 3);
    law_view_tuple2_positions(s.children, path, hits, cx);
    law_view_tuple2_positions(s.children, path.push(0), hits, cx);
    law_view_tuple2_positions(s.children, path.push(1), hits, cx);
}

/// In a tuple of 3 views, position `i` stands for the `i`-th view: its
/// flexibility, hit, menu, kept ids and accessibility are that view's own,
/// and the tuple is well formed when every view is.
pub proof fn law_view_tuple3_positions<V0: ViewCore, V1: ViewCore, V2: ViewCore>(t: (V0, V1, V2), path: Seq<u64>, hits: Seq<Seq<u64>>, cx: Context)
    ensures
        t.spec_len() == 3,
        t.wf() == (t.0.wf() && t.1.wf() && t.2.wf()),
        t.child_flexible(0) == t.0.flexible(),
        t.child_hit(0, path, hits, cx) == t.0.hit(path, hits, cx),
        t.child_menu(0, path, cx) == t.0.menu(path, cx),
        t.child_kept(0, path, cx) == t.0.kept(path, cx),
        t.child_access_nodes(0, path, cx) == t.0.access_nodes(path, cx),
        t.child_access_root(0, path, cx) == t.0.access_root(path, cx),
        t.child_flexible(1) == t.1.flexible(),
        t.child_hit(1, path, hits, cx) == t.1.hit(path, hits, cx),
        t.child_menu(1, path, cx) == t.1.menu(path, cx),
        t.child_kept(1, path, cx) == t.1.kept(path, cx),
        t.child_access_nodes(1, path, cx) == t.1.access_nodes(path, cx),
        t.child_access_root(1, path, cx) == t.1.access_root(path, cx),
        t.child_flexible(2) == t.2.flexible(),
        t.child_hit(2, path, hits, cx) == t.2.hit(path, hits, cx),
        t.child_menu(2, path, cx) == t.2.menu(path, cx),
        t.child_kept(2, path, cx) == t.2.kept(path, cx),
        t.child_access_nodes(2, path, cx) == t.2.access_nodes(path, cx),
        t.child_access_root(2, path, cx) == t.2.access_root(path, cx),

{
}

/// In a tuple of 3 views, an event handled at position `i` is handled by
/// the `i`-th view.
pub proof fn law_view_tuple3_events<D: 'static, V0: DynView<D>, V1: DynView<D>, V2: DynView<D>>(
    t: (V0, V1, V2),
    event: Event<D>,
    path: Seq<u64>,
    before: Context,
    after: Context,
    added: nat,
)
    ensures
        t.ready() == (t.0.ready() && t.1.ready() && t.2.ready()),
        t.child_processed(0, event, path, before, after, added) == t.0.processed(event, path, before, after, added),
        t.child_processed(1, event, path, before, after, added) == t.1.processed(event, path, before, after, added),
        t.child_processed(2, event, path, before, after, added) == t.2.processed(event, path, before, after, added),

{
}

/// A stack of 3 views: its hit is that of the last view that is hit, its
/// menu lists the views' menus in order, it keeps its own id and then, for
/// each view in order, the view's id and what the view keeps, and its
/// accessibility nodes are the views' nodes in order followed by a list
/// node whose children are the views' nodes. View `i` sits at the stack's
/// path extended by `i`.
pub proof fn law_stack3<V0: ViewCore, V1: ViewCore, V2: ViewCore, Dir: StackDirection>(s: Stack<(V0, V1, V2), Dir>, path: Seq<u64>, hits: Seq<Seq<u64>>, cx: Context)
    ensures
        s.hit(path, hits, cx) == (if s.children.2.hit(path.push(2), hits, cx) is Some { s.children.2.hit(path.push(2), hits, cx) } else { (if s.children.1.hit(path.push(1), hits, cx) is Some { s.children.1.hit(path.push(1), hits, cx) } else { (if s.children.0.hit(path.push(0), hits, cx) is Some { s.children.0.hit(path.push(0), hits, cx) } else { None }) }) }),
        s.menu(path, cx) == s.children.0.menu(path.push(0), cx) + s.children.1.menu(path.push(1), cx) + s.children.2.menu(path.push(2), cx),
        s.kept(path, cx) == seq![path_id(path)] + seq![path_id(path.push(0))] + s.children.0.kept(path.push(0), cx) + seq![path_id(path.push(1))] + s.children.1.kept(path.push(1), cx) + seq![path_id(path.push(2))] + s.children.2.kept(path.push(2), cx),
        s.access_nodes(path, cx) == (s.children.0.access_nodes(path.push(0), cx) + s.children.1.access_nodes(path.push(1), cx) + s.children.2.access_nodes(path.push(2), cx)).push((
            path_id(path).id,
            accesskit_role(RoleName::List),
            root_ids(s.children.0.access_root(path.push(0), cx)) + root_ids(s.children.1.access_root(path.push(1), cx)) + root_ids(s.children.2.access_root(path.push(2), cx)),
            None,
        )),
{
    reveal_with_fuel(tuple_hit, 4);
    reveal_with_fuel(tuple_menu, 4);
    reveal_with_fuel(tuple_kept, 4);
    reveal_with_fuel(tuple_access_nodes, 4);
    reveal_with_fuel(tuple_access_children, 4);
    law_view_tuple3_positions(s.children, path, hits, cx);
    law_view_tuple3_positions(s.children, path.push(0), hits, cx);
    law_view_tuple3_positions(s.children, path.push(1), hits, cx);
    law_view_tuple3_positions(s.children, path.push(2), hits, cx);
}

/// In a tuple of 4 views, position `i` stands for the `i`-th view: its
/// flexibility, hit, menu, kept ids and accessibility are that view's own,
/// and the tuple is well formed when every view is.
pub proof fn law_view_tuple4_positions<V0: ViewCore, V1: ViewCore, V2: ViewCore, V3: ViewCore>(t: (V0, V1, V2, V3), path: Seq<u64>, hits: Seq<Seq<u64>>, cx: Context)
    ensures
        t.spec_len() == 4,
        t.wf() == (t.0.wf() && t.1.wf() && t.2.wf() && t.3.wf()),
        t.child_flexible(0) == t.0.flexible(),
        t.child_hit(0, path, hits, cx) == t.0.hit(path, hits, cx),
        t.child_menu(0, path, cx) == t.0.menu(path, cx),
        t.child_kept(0, path, cx) == t.0.kept(path, cx),
        t.child_access_nodes(0, path, cx) == t.0.access_nodes(path, cx),
        t.child_access_root(0, path, cx) == t.0.access_root(path, cx),
        t.child_flexible(1) == t.1.flexible(),
        t.child_hit(1, path, hits, cx) == t.1.hit(path, hits, cx),
        t.child_menu(1, path, cx) == t.1.menu(path, cx),
        t.child_kept(1, path, cx) == t.1.kept(path, cx),
        t.child_access_nodes(1, path, cx) == t.1.access_nodes(path, cx),
        t.child_access_root(1, path, cx) == t.1.access_root(path, cx),
        t.child_flexible(2) == t.2.flexible(),
        t.child_hit(2, path, hits, cx) == t.2.hit(path, hits, cx),
        t.child_menu(2, path, cx) == t.2.menu(path, cx),
        t.child_kept(2, path, cx) == t.2.kept(path, cx),
        t.child_access_nodes(2, path, cx) == t.2.access_nodes(path, cx),
        t.child_access_root(2, path, cx) == t.2.access_root(path, cx),
        t.child_flexible(3) == t.3.flexible(),
        t.child_hit(3, path, hits, cx) == t.3.hit(path, hits, cx),
        t.child_menu(3, path, cx) == t.3.menu(path, cx),
        t.child_kept(3, path, cx) == t.3.kept(path, cx),
        t.child_access_nodes(3, path, cx) == t.3.access_nodes(path, cx),
        t.child_access_root(3, path, cx) == t.3.access_root(path, cx),

{
}

/// In a tuple of 4 views, an event handled at position `i` is handled by
/// the `i`-th view.
pub proof fn law_view_tuple4_events<D: 'static, V0: DynView<D>, V1: DynView<D>, V2: DynView<D>, V3: DynView<D>>(
    t: (V0, V1, V2, V3),
    event: Event<D>,
    path: Seq<u64>,
    before: Context,
    after: Context,
    added: nat,
)
    ensures
        t.ready() == (t.0.ready() && t.1.ready() && t.2.ready() && t.3.ready()),
        t.child_processed(0, event, path, before, after, added) == t.0.processed(event, path, before, after, added),
        t.child_processed(1, event, path, before, after, added) == t.1.processed(event, path, before, after, added),
        t.child_processed(2, event, path, before, after, added) == t.2.processed(event, path, before, after, added),
        t.child_processed(3, event, path, before, after, added) == t.3.processed(event, path, before, after, added),

{
}

/// A stack of 4 views: its hit is that of the last view that is hit, its
/// menu lists the views' menus in order, it keeps its own id and then, for
/// each view in order, the view's id and what the view keeps, and its
/// accessibility nodes are the views' nodes in order followed by a list
/// node whose children are the views' nodes. View `i` sits at the stack's
/// path extended by `i`.
pub proof fn law_stack4<V0: ViewCore, V1: ViewCore, V2: ViewCore, V3: ViewCore, Dir: StackDirection>(s: Stack<(V0, V1, V2, V3), Dir>, path: Seq<u64>, hits: Seq<Seq<u64>>, cx: Context)
    ensures
        s.hit(path, hits, cx) == (if s.children.3.hit(path.push(3), hits, cx) is Some { s.children.3.hit(path.push(3), hits, cx) } else { (if s.children.2.hit(path.push(2), hits, cx) is Some { s.children.2.hit(path.push(2), hits, cx) } else { (if s.children.1.hit(path.push(1), hits, cx) is Some { s.children.1.hit(path.push(1), hits, cx) } else { (if s.children.0.hit(path.push(0), hits, cx) is Some { s.children.0.hit(path.push(0), hits, cx) } else { None }) }) }) }),
        s.menu(path, cx) == s.children.0.menu(path.push(0), cx) + s.children.1.menu(path.push(1), cx) + s.children.2.menu(path.push(2), cx) + s.children.3.menu(path.push(3), cx),
        s.kept(path, cx) == seq![path_id(path)] + seq![path_id(path.push(0))] + s.children.0.kept(path.push(0), cx) + seq![path_id(path.push(1))] + s.children.1.kept(path.push(1), cx) + seq![path_id(path.push(2))] + s.children.2.kept(path.push(2), cx) + seq![path_id(path.push(3))] + s.children.3.kept(path.push(3), cx),
        s.access_nodes(path, cx) == (s.children.0.access_nodes(path.push(0), cx) + s.children.1.access_nodes(path.push(1), cx) + s.children.2.access_nodes(path.push(2), cx) + s.children.3.access_nodes(path.push(3), cx)).push((
            path_id(path).id,
            accesskit_role(RoleName::List),
            root_ids(s.children.0.access_root(path.push(0), cx)) + root_ids(s.children.1.access_root(path.push(1), cx)) + root_ids(s.children.2.access_root(path.push(2), cx)) + root_ids(s.children.3.access_root(path.push(3), cx)),
            None,
        )),
{
    reveal_with_fuel(tuple_hit, 5);
    reveal_with_fuel(tuple_menu, 5);
    reveal_with_fuel(tuple_kept, 5);
    reveal_with_fuel(tuple_access_nodes, 5);
    reveal_with_fuel(tuple_access_children, 5);
    law_view_tuple4_positions(s.children, path, hits, cx);
    law_view_tuple4_positions(s.children, path.push(0), hits, cx);
    law_view_tuple4_positions(s.children, path.push(1), hits, cx);
    law_view_tuple4_positions(s.children, path.push(2), hits, cx);
    law_view_tuple4_positions(s.children, path.push(3), hits, cx);
}

/// In a tuple of 5 views, position `i` stands for the `i`-th view: its
/// flexibility, hit, menu, kept ids and accessibility are that view's own,
/// and the tuple is well formed when every view is.
pub proof fn law_view_tuple5_positions<V0: ViewCore, V1: ViewCore, V2: ViewCore, V3: ViewCore, V4: ViewCore>(t: (V0, V1, V2, V3, V4), path: Seq<u64>, hits: Seq<Seq<u64>>, cx: Context)
    ensures
        t.spec_len() == 5,
        t.wf() == (t.0.wf() && t.1.wf() && t.2.wf() && t.3.wf() && t.4.wf()),
        t.child_flexible(0) == t.0.flexible(),
        t.child_hit(0, path, hits, cx) == t.0.hit(path, hits, cx),
        t.child_menu(0, path, cx) == t.0.menu(path, cx),
        t.child_kept(0, path, cx) == t.0.kept(path, cx),
        t.child_access_nodes(0, path, cx) == t.0.access_nodes(path, cx),
        t.child_access_root(0, path, cx) == t.0.access_root(path, cx),
        t.child_flexible(1) == t.1.flexible(),
        t.child_hit(1, path, hits, cx) == t.1.hit(path, hits, cx),
        t.child_menu(1, path, cx) == t.1.menu(path, cx),
        t.child_kept(1, path, cx) == t.1.kept(path, cx),
        t.child_access_nodes(1, path, cx) == t.1.access_nodes(path, cx),
        t.child_access_root(1, path, cx) == t.1.access_root(path, cx),
        t.child_flexible(2) == t.2.flexible(),
        t.child_hit(2, path, hits, cx) == t.2.hit(path, hits, cx),
        t.child_menu(2, path, cx) == t.2.menu(path, cx),
        t.child_kept(2, path, cx) == t.2.kept(path, cx),
        t.child_access_nodes(2, path, cx) == t.2.access_nodes(path, cx),
        t.child_access_root(2, path, cx) == t.2.access_root(path, cx),
        t.child_flexible(3) == t.3.flexible(),
        t.child_hit(3, path, hits, cx) == t.3.hit(path, hits, cx),
        t.child_menu(3, path, cx) == t.3.menu(path, cx),
        t.child_kept(3, path, cx) == t.3.kept(path, cx),
        t.child_access_nodes(3, path, cx) == t.3.access_nodes(path, cx),
        t.child_access_root(3, path, cx) == t.3.access_root(path, cx),
        t.child_flexible(4) == t.4.flexible(),
        t.child_hit(4, path, hits, cx) == t.4.hit(path, hits, cx),
        t.child_menu(4, path, cx) == t.4.menu(path, cx),
        t.child_kept(4, path, cx) == t.4.kept(path, cx),
        t.child_access_nodes(4, path, cx) == t.4.access_nodes(path, cx),
        t.child_access_root(4, path, cx) == t.4.access_root(path, cx),

{
}

/// In a tuple of 5 views, an event handled at position `i` is handled by
/// the `i`-th view.
pub proof fn law_view_tuple5_events<D: 'static, V0: DynView<D>, V1: DynView<D>, V2: DynView<D>, V3: DynView<D>, V4: DynView<D>>(
    t: (V0, V1, V2, V3, V4),
    event: Event<D>,
    path: Seq<u64>,
    before: Context,
    after: Context,
    added: nat,
)
    ensures
        t.ready() == (t.0.ready() && t.1.ready() && t.2.ready() && t.3.ready() && t.4.ready()),
        t.child_processed(0, event, path, before, after, added) == t.0.processed(event, path, before, after, added),
        t.child_processed(1, event, path, before, after, added) == t.1.processed(event, path, before, after, added),
        t.child_processed(2, event, path, before, after, added) == t.2.processed(event, path, before, after, added),
        t.child_processed(3, event, path, before, after, added) == t.3.processed(event, path, before, after, added),
        t.child_processed(4, event, path, before, after, added) == t.4.processed(event, path, before, after, added),

{
}

/// A stack of 5 views: its hit is that of the last view that is hit, its
/// menu lists the views' menus in order, it keeps its own id and then, for
/// each view in order, the view's id and what the view keeps, and its
/// accessibility nodes are the views' nodes in order followed by a list
/// node whose children are the views' nodes. View `i` sits at the stack's
/// path extended by `i`.
pub proof fn law_stack5<V0: ViewCore, V1: ViewCore, V2: ViewCore, V3: ViewCore, V4: ViewCore, Dir: StackDirection>(s: Stack<(V0, V1, V2, V3, V4), Dir>, path: Seq<u64>, hits: Seq<Seq<u64>>, cx: Context)
    ensures
        s.hit(path, hits, cx) == (if s.children.4.hit(path.push(4), hits, cx) is Some { s.children.4.hit(path.push(4), hits, cx) } else { (if s.children.3.hit(path.push(3), hits, cx) is Some { s.children.3.hit(path.push(3), hits, cx) } else { (if s.children.2.hit(path.push(2), hits, cx) is Some { s.children.2.hit(path.push(2), hits, cx) } else { (if s.children.1.hit(path.push(1), hits, cx) is Some { s.children.1.hit(path.push(1), hits, cx) } else { (if s.children.0.hit(path.push(0), hits, cx) is Some { s.children.0.hit(path.push(0), hits, cx) } else { None }) }) }) }) }),
        s.menu(path, cx) == s.children.0.menu(path.push(0), cx) + s.children.1.menu(path.push(1), cx) + s.children.2.menu(path.push(2), cx) + s.children.3.menu(path.push(3), cx) + s.children.4.menu(path.push(4), cx),
        s.kept(path, cx) == seq![path_id(path)] + seq![path_id(path.push(0))] + s.children.0.kept(path.push(0), cx) + seq![path_id(path.push(1))] + s.children.1.kept(path.push(1), cx) + seq![path_id(path.push(2))] + s.children.2.kept(path.push(2), cx) + seq![path_id(path.push(3))] + s.children.3.kept(path.push(3), cx) + seq![path_id(path.push(4))] + s.children.4.kept(path.push(4), cx),
        s.access_nodes(path, cx) == (s.children.0.access_nodes(path.push(0), cx) + s.children.1.access_nodes(path.push(1), cx) + s.children.2.access_nodes(path.push(2), cx) + s.children.3.access_nodes(path.push(3), cx) + s.children.4.access_nodes(path.push(4), cx)).push((
            path_id(path).id,
            accesskit_role(RoleName::List),
            root_ids(s.children.0.access_root(path.push(0), cx)) + root_ids(s.children.1.access_root(path.push(1), cx)) + root_ids(s.children.2.access_root(path.push(2), cx)) + root_ids(s.children.3.access_root(path.push(3), cx)) + root_ids(s.children.4.access_root(path.push(4), cx)),
            None,
        )),
{
    reveal_with_fuel(tuple_hit, 6);
    reveal_with_fuel(tuple_menu, 6);
    reveal_with_fuel(tuple_kept, 6);
    reveal_with_fuel(tuple_access_nodes, 6);
    reveal_with_fuel(tuple_access_children, 6);
    law_view_tuple5_positions(s.children, path, hits, cx);
    law_view_tuple5_positions(s.children, path.push(0), hits, cx);
    law_view_tuple5_positions(s.children, path.push(1), hits, cx);
    law_view_tuple5_positions(s.children, path.push(2), hits, cx);
    law_view_tuple5_positions(s.children, path.push(3), hits, cx);
    law_view_tuple5_positions(s.children, path.push(4), hits, cx);
}

/// In a tuple of 6 views, position `i` stands for the `i`-th view: its
/// flexibility, hit, menu, kept ids and accessibility are that view's own,
/// and the tuple is well formed when every view is.
pub proof fn law_view_tuple6_positions<V0: ViewCore, V1: ViewCore, V2: ViewCore, V3: ViewCore, V4: ViewCore, V5: ViewCore>(t: (V0, V1, V2, V3, V4, V5), path: Seq<u64>, hits: Seq<Seq<u64>>, cx: Context)
    ensures
        t.spec_len() == 6,
        t.wf() == (t.0.wf() && t.1.wf() && t.2.wf() && t.3.wf() && t.4.wf() && t.5.wf()),
        t.child_flexible(0) == t.0.flexible(),
        t.child_hit(0, path, hits, cx) == t.0.hit(path, hits, cx),
        t.child_menu(0, path, cx) == t.0.menu(path, cx),
        t.child_kept(0, path, cx) == t.0.kept(path, cx),
        t.child_access_nodes(0, path, cx) == t.0.access_nodes(path, cx),
        t.child_access_root(0, path, cx) == t.0.access_root(path, cx),
        t.child_flexible(1) == t.1.flexible(),
        t.child_hit(1, path, hits, cx) == t.1.hit(path, hits, cx),
        t.child_menu(1, path, cx) == t.1.menu(path, cx),
        t.child_kept(1, path, cx) == t.1.kept(path, cx),
        t.child_access_nodes(1, path, cx) == t.1.access_nodes(path, cx),
        t.child_access_root(1, path, cx) == t.1.access_root(path, cx),
        t.child_flexible(2) == t.2.flexible(),
        t.child_hit(2, path, hits, cx) == t.2.hit(path, hits, cx),
        t.child_menu(2, path, cx) == t.2.menu(path, cx),
        t.child_kept(2, path, cx) == t.2.kept(path, cx),
        t.child_access_nodes(2, path, cx) == t.2.access_nodes(path, cx),
        t.child_access_root(2, path, cx) == t.2.access_root(path, cx),
        t.child_flexible(3) == t.3.flexible(),
        t.child_hit(3, path, hits, cx) == t.3.hit(path, hits, cx),
        t.child_menu(3, path, cx) == t.3.menu(path, cx),
        t.child_kept(3, path, cx) == t.3.kept(path, cx),
        t.child_access_nodes(3, path, cx) == t.3.access_nodes(path, cx),
        t.child_access_root(3, path, cx) == t.3.access_root(path, cx),
        t.child_flexible(4) == t.4.flexible(),
        t.child_hit(4, path, hits, cx) == t.4.hit(path, hits, cx),
        t.child_menu(4, path, cx) == t.4.menu(path, cx),
        t.child_kept(4, path, cx) == t.4.kept(path, cx),
        t.child_access_nodes(4, path, cx) == t.4.access_nodes(path, cx),
        t.child_access_root(4, path, cx) == t.4.access_root(path, cx),
        t.child_flexible(5) == t.5.flexible(),
        t.child_hit(5, path, hits, cx) == t.5.hit(path, hits, cx),
        t.child_menu(5, path, cx) == t.5.menu(path, cx),
        t.child_kept(5, path, cx) == t.5.kept(path, cx),
        t.child_access_nodes(5, path, cx) == t.5.access_nodes(path, cx),
        t.child_access_root(5, path, cx) == t.5.access_root(path, cx),

{
}

/// In a tuple of 6 views, an event handled at position `i` is handled by
/// the `i`-th view.
pub proof fn law_view_tuple6_events<D: 'static, V0: DynView<D>, V1: DynView<D>, V2: DynView<D>, V3: DynView<D>, V4: DynView<D>, V5: DynView<D>>(
    t: (V0, V1, V2, V3, V4, V5),
    event: Event<D>,
    path: Seq<u64>,
    before: Context,
    after: Context,
    added: nat,
)
    ensures
        t.ready() == (t.0.ready() && t.1.ready() && t.2.ready() && t.3.ready() && t.4.ready() && t.5.ready()),
        t.child_processed(0, event, path, before, after, added) == t.0.processed(event, path, before, after, added),
        t.child_processed(1, event, path, before, after, added) == t.1.processed(event, path, before, after, added),
        t.child_processed(2, event, path, before, after, added) == t.2.processed(event, path, before, after, added),
        t.child_processed(3, event, path, before, after, added) == t.3.processed(event, path, before, after, added),
        t.child_processed(4, event, path, before, after, added) == t.4.processed(event, path, before, after, added),
        t.child_processed(5, event, path, before, after, added) == t.5.processed(event, path, before, after, added),

{
}

/// A stack of 6 views: its hit is that of the last view that is hit, its
/// menu lists the views' menus in order, it keeps its own id and then, for
/// each view in order, the view's id and what the view keeps, and its
/// accessibility nodes are the views' nodes in order followed by a list
/// node whose children are the views' nodes. View `i` sits at the stack's
/// path extended by `i`.
pub proof fn law_stack6<V0: ViewCore, V1: ViewCore, V2: ViewCore, V3: ViewCore, V4: ViewCore, V5: ViewCore, Dir: StackDirection>(s: Stack<(V0, V1, V2, V3, V4, V5), Dir>, path: Seq<u64>, hits: Seq<Seq<u64>>, cx: Context)
    ensures
        s.hit(path, hits, cx) == (if s.children.5.hit(path.push(5), hits, cx) is Some { s.children.5.hit(path.push(5), hits, cx) } else { (if s.children.4.hit(path.push(4), hits, cx) is Some { s.children.4.hit(path.push(4), hits, cx) } else { (if s.children.3.hit(path.push(3), hits, cx) is Some { s.children.3.hit(path.push(3), hits, cx) } else { (if s.children.2.hit(path.push(2), hits, cx) is Some { s.children.2.hit(path.push(2), hits, cx) } else { (if s.children.1.hit(path.push(1), hits, cx) is Some { s.children.1.hit(path.push(1), hits, cx) } else { (if s.children.0.hit(path.push(0), hits, cx) is Some { s.children.0.hit(path.push(0), hits, cx) } else { None }) }) }) }) }) }),
        s.menu(path, cx) == s.children.0.menu(path.push(0), cx) + s.children.1.menu(path.push(1), cx) + s.children.2.menu(path.push(2), cx) + s.children.3.menu(path.push(3), cx) + s.children.4.menu(path.push(4), cx) + s.children.5.menu(path.push(5), cx),
        s.kept(path, cx) == seq![path_id(path)] + seq![path_id(path.push(0))] + s.children.0.kept(path.push(0), cx) + seq![path_id(path.push(1))] + s.children.1.kept(path.push(1), cx) + seq![path_id(path.push(2))] + s.children.2.kept(path.push(2), cx) + seq![path_id(path.push(3))] + s.children.3.kept(path.push(3), cx) + seq![path_id(path.push(4))] + s.children.4.kept(path.push(4), cx) + seq![path_id(path.push(5))] + s.children.5.kept(path.push(5), cx),
        s.access_nodes(path, cx) == (s.children.0.access_nodes(path.push(0), cx) + s.children.1.access_nodes(path.push(1), cx) + s.children.2.access_nodes(path.push(2), cx) + s.children.3.access_nodes(path.push(3), cx) + s.children.4.access_nodes(path.push(4), cx) + s.children.5.access_nodes(path.push(5), cx)).push((
            path_id(path).id,
            accesskit_role(RoleName::List),
            root_ids(s.children.0.access_root(path.push(0), cx)) + root_ids(s.children.1.access_root(path.push(1), cx)) + root_ids(s.children.2.access_root(path.push(2), cx)) + root_ids(s.children.3.access_root(path.push(3), cx)) + root_ids(s.children.4.access_root(path.push(4), cx)) + root_ids(s.children.5.access_root(path.push(5), cx)),
            None,
        )),
{
    reveal_with_fuel(tuple_hit, 7);
    reveal_with_fuel(tuple_menu, 7);
    reveal_with_fuel(tuple_kept, 7);
    reveal_with_fuel(tuple_access_nodes, 7);
    reveal_with_fuel(tuple_access_children, 7);
    law_view_tuple6_positions(s.children, path, hits, cx);
    law_view_tuple6_positions(s.children, path.push(0), hits, cx);
    law_view_tuple6_positions(s.children, path.push(1), hits, cx);
    law_view_tuple6_positions(s.children, path.push(2), hits, cx);
    law_view_tuple6_positions(s.children, path.push(3), hits, cx);
    law_view_tuple6_positions(s.children, path.push(4), hits, cx);
    law_view_tuple6_positions(s.children, path.push(5), hits, cx);
}

/// In a tuple of 7 views, position `i` stands for the `i`-th view: its
/// flexibility, hit, menu, kept ids and accessibility are that view's own,
/// and the tuple is well formed when every view is.
pub proof fn law_view_tuple7_positions<V0: ViewCore, V1: ViewCore, V2: ViewCore, V3: ViewCore, V4: ViewCore, V5: ViewCore, V6: ViewCore>(t: (V0, V1, V2, V3, V4, V5, V6), path: Seq<u64>, hits: Seq<Seq<u64>>, cx: Context)
    ensures
        t.spec_len() == 7,
        t.wf() == (t.0.wf() && t.1.wf() && t.2.wf() && t.3.wf() && t.4.wf() && t.5.wf() && t.6.wf()),
        t.child_flexible(0) == t.0.flexible(),
        t.child_hit(0, path, hits, cx) == t.0.hit(path, hits, cx),
        t.child_menu(0, path, cx) == t.0.menu(path, cx),
        t.child_kept(0, path, cx) == t.0.kept(path, cx),
        t.child_access_nodes(0, path, cx) == t.0.access_nodes(path, cx),
        t.child_access_root(0, path, cx) == t.0.access_root(path, cx),
        t.child_flexible(1) == t.1.flexible(),
        t.child_hit(1, path, hits, cx) == t.1.hit(path, hits, cx),
        t.child_menu(1, path, cx) == t.1.menu(path, cx),
        t.child_kept(1, path, cx) == t.1.kept(path, cx),
        t.child_access_nodes(1, path, cx) == t.1.access_nodes(path, cx),
        t.child_access_root(1, path, cx) == t.1.access_root(path, cx),
        t.child_flexible(2) == t.2.flexible(),
        t.child_hit(2, path, hits, cx) == t.2.hit(path, hits, cx),
        t.child_menu(2, path, cx) == t.2.menu(path, cx),
        t.child_kept(2, path, cx) == t.2.kept(path, cx),
        t.child_access_nodes(2, path, cx) == t.2.access_nodes(path, cx),
        t.child_access_root(2, path, cx) == t.2.access_root(path, cx),
        t.child_flexible(3) == t.3.flexible(),
        t.child_hit(3, path, hits, cx) == t.3.hit(path, hits, cx),
        t.child_menu(3, path, cx) == t.3.menu(path, cx),
        t.child_kept(3, path, cx) == t.3.kept(path, cx),
        t.child_access_nodes(3, path, cx) == t.3.access_nodes(path, cx),
        t.child_access_root(3, path, cx) == t.3.access_root(path, cx),
        t.child_flexible(4) == t.4.flexible(),
        t.child_hit(4, path, hits, cx) == t.4.hit(path, hits, cx),
        t.child_menu(4, path, cx) == t.4.menu(path, cx),
        t.child_kept(4, path, cx) == t.4.kept(path, cx),
        t.child_access_nodes(4, path, cx) == t.4.access_nodes(path, cx),
        t.child_access_root(4, path, cx) == t.4.access_root(path, cx),
        t.child_flexible(5) == t.5.flexible(),
        t.child_hit(5, path, hits, cx) == t.5.hit(path, hits, cx),
        t.child_menu(5, path, cx) == t.5.menu(path, cx),
        t.child_kept(5, path, cx) == t.5.kept(path, cx),
        t.child_access_nodes(5, path, cx) == t.5.access_nodes(path, cx),
        t.child_access_root(5, path, cx) == t.5.access_root(path, cx),
        t.child_flexible(6) == t.6.flexible(),
        t.child_hit(6, path, hits, cx) == t.6.hit(path, hits, cx),
        t.child_menu(6, path, cx) == t.6.menu(path, cx),
        t.child_kept(6, path, cx) == t.6.kept(path, cx),
        t.child_access_nodes(6, path, cx) == t.6.access_nodes(path, cx),
        t.child_access_root(6, path, cx) == t.6.access_root(path, cx),

{
}

/// In a tuple of 7 views, an event handled at position `i` is handled by
/// the `i`-th view.
pub proof fn law_view_tuple7_events<D: 'static, V0: DynView<D>, V1: DynView<D>, V2: DynView<D>, V3: DynView<D>, V4: DynView<D>, V5: DynView<D>, V6: DynView<D>>(
    t: (V0, V1, V2, V3, V4, V5, V6),
    event: Event<D>,
    path: Seq<u64>,
    before: Context,
    after: Context,
    added: nat,
)
    ensures
        t.ready() == (t.0.ready() && t.1.ready() && t.2.ready() && t.3.ready() && t.4.ready() && t.5.ready() && t.6.ready()),
        t.child_processed(0, event, path, before, after, added) == t.0.processed(event, path, before, after, added),
        t.child_processed(1, event, path, before, after, added) == t.1.processed(event, path, before, after, added),
        t.child_processed(2, event, path, before, after, added) == t.2.processed(event, path, before, after, added),
        t.child_processed(3, event, path, before, after, added) == t.3.processed(event, path, before, after, added),
        t.child_processed(4, event, path, before, after, added) == t.4.processed(event, path, before, after, added),
        t.child_processed(5, event, path, before, after, added) == t.5.processed(event, path, before, after, added),
        t.child_processed(6, event, path, before, after, added) == t.6.processed(event, path, before, after, added),

{
}

/// A stack of 7 views: its hit is that of the last view that is hit, its
/// menu lists the views' menus in order, it keeps its own id and then, for
/// each view in order, the view's id and what the view keeps, and its
/// accessibility nodes are the views' nodes in order followed by a list
/// node whose children are the views' nodes. View `i` sits at the stack's
/// path extended by `i`.
pub proof fn law_stack7<V0: ViewCore, V1: ViewCore, V2: ViewCore, V3: ViewCore, V4: ViewCore, V5: ViewCore, V6: ViewCore, Dir: StackDirection>(s: Stack<(V0, V1, V2, V3, V4, V5, V6), Dir>, path: Seq<u64>, hits: Seq<Seq<u64>>, cx: Context)
    ensures
        s.hit(path, hits, cx) == (if s.children.6.hit(path.push(6), hits, cx) is Some { s.children.6.hit(path.push(6), hits, cx) } else { (if s.children.5.hit(path.push(5), hits, cx) is Some { s.children.5.hit(path.push(5), hits, cx) } else { (if s.children.4.hit(path.push(4), hits, cx) is Some { s.children.4.hit(path.push(4), hits, cx) } else { (if s.children.3.hit(path.push(3), hits, cx) is Some { s.children.3.hit(path.push(3), hits, cx) } else { (if s.children.2.hit(path.push(2), hits, cx) is Some { s.children.2.hit(path.push(2), hits, cx) } else { (if s.children.1.hit(path.push(1), hits, cx) is Some { s.children.1.hit(path.push(1), hits, cx) } else { (if s.children.0.hit(path.push(0), hits, cx) is Some { s.children.0.hit(path.push(0), hits, cx) } else { None }) }) }) }) }) }) }),
        s.menu(path, cx) == s.children.0.menu(path.push(0), cx) + s.children.1.menu(path.push(1), cx) + s.children.2.menu(path.push(2), cx) + s.children.3.menu(path.push(3), cx) + s.children.4.menu(path.push(4), cx) + s.children.5.menu(path.push(5), cx) + s.children.6.menu(path.push(6), cx),
        s.kept(path, cx) == seq![path_id(path)] + seq![path_id(path.push(0))] + s.children.0.kept(path.push(0), cx) + seq![path_id(path.push(1))] + s.children.1.kept(path.push(1), cx) + seq![path_id(path.push(2))] + s.children.2.kept(path.push(2), cx) + seq![path_id(path.push(3))] + s.children.3.kept(path.push(3), cx) + seq![path_id(path.push(4))] + s.children.4.kept(path.push(4), cx) + seq![path_id(path.push(5))] + s.children.5.kept(path.push(5), cx) + seq![path_id(path.push(6))] + s.children.6.kept(path.push(6), cx),
        s.access_nodes(path, cx) == (s.children.0.access_nodes(path.push(0), cx) + s.children.1.access_nodes(path.push(1), cx) + s.children.2.access_nodes(path.push(2), cx) + s.children.3.access_nodes(path.push(3), cx) + s.children.4.access_nodes(path.push(4), cx) + s.children.5.access_nodes(path.push(5), cx) + s.children.6.access_nodes(path.push(6), cx)).push((
            path_id(path).id,
            accesskit_role(RoleName::List),
            root_ids(s.children.0.access_root(path.push(0), cx)) + root_ids(s.children.1.access_root(path.push(1), cx)) + root_ids(s.children.2.access_root(path.push(2), cx)) + root_ids(s.children.3.access_root(path.push(3), cx)) + root_ids(s.children.4.access_root(path.push(4), cx)) + root_ids(s.children.5.access_root(path.push(5), cx)) + root_ids(s.children.6.access_root(path.push(6), cx)),
            None,
        )),
{
    reveal_with_fuel(tuple_hit, 8);
    reveal_with_fuel(tuple_menu, 8);
    reveal_with_fuel(tuple_kept, 8);
    reveal_with_fuel(tuple_access_nodes, 8);
    reveal_with_fuel(tuple_access_children, 8);
    law_view_tuple7_positions(s.children, path, hits, cx);
    law_view_tuple7_positions(s.children, path.push(0), hits, cx);
    law_view_tuple7_positions(s.children, path.push(1), hits, cx);
    law_view_tuple7_positions(s.children, path.push(2), hits, cx);
    law_view_tuple7_positions(s.children, path.push(3), hits, cx);
    law_view_tuple7_positions(s.children, path.push(4), hits, cx);
    law_view_tuple7_positions(s.children, path.push(5), hits, cx);
    law_view_tuple7_positions(s.children, path.push(6), hits, cx);
}

/// In a tuple of 8 views, position `i` stands for the `i`-th view: its
/// flexibility, hit, menu, kept ids and accessibility are that view's own,
/// and the tuple is well formed when every view is.
pub proof fn law_view_tuple8_positions<V0: ViewCore, V1: ViewCore, V2: ViewCore, V3: ViewCore, V4: ViewCore, V5: ViewCore, V6: ViewCore, V7: ViewCore>(t: (V0, V1, V2, V3, V4, V5, V6, V7), path: Seq<u64>, hits: Seq<Seq<u64>>, cx: Context)
    ensures
        t.spec_len() == 8,
        t.wf() == (t.0.wf() && t.1.wf() && t.2.wf() && t.3.wf() && t.4.wf() && t.5.wf() && t.6.wf() && t.7.wf()),
        t.child_flexible(0) == t.0.flexible(),
        t.child_hit(0, path, hits, cx) == t.0.hit(path, hits, cx),
        t.child_menu(0, path, cx) == t.0.menu(path, cx),
        t.child_kept(0, path, cx) == t.0.kept(path, cx),
        t.child_access_nodes(0, path, cx) == t.0.access_nodes(path, cx),
        t.child_access_root(0, path, cx) == t.0.access_root(path, cx),
        t.child_flexible(1) == t.1.flexible(),
        t.child_hit(1, path, hits, cx) == t.1.hit(path, hits, cx),
        t.child_menu(1, path, cx) == t.1.menu(path, cx),
        t.child_kept(1, path, cx) == t.1.kept(path, cx),
        t.child_access_nodes(1, path, cx) == t.1.access_nodes(path, cx),
        t.child_access_root(1, path, cx) == t.1.access_root(path, cx),
        t.child_flexible(2) == t.2.flexible(),
        t.child_hit(2, path, hits, cx) == t.2.hit(path, hits, cx),
        t.child_menu(2, path, cx) == t.2.menu(path, cx),
        t.child_kept(2, path, cx) == t.2.kept(path, cx),
        t.child_access_nodes(2, path, cx) == t.2.access_nodes(path, cx),
        t.child_access_root(2, path, cx) == t.2.access_root(path, cx),
        t.child_flexible(3) == t.3.flexible(),
        t.child_hit(3, path, hits, cx) == t.3.hit(path, hits, cx),
        t.child_menu(3, path, cx) == t.3.menu(path, cx),
        t.child_kept(3, path, cx) == t.3.kept(path, cx),
        t.child_access_nodes(3, path, cx) == t.3.access_nodes(path, cx),
        t.child_access_root(3, path, cx) == t.3.access_root(path, cx),
        t.child_flexible(4) == t.4.flexible(),
        t.child_hit(4, path, hits, cx) == t.4.hit(path, hits, cx),
        t.child_menu(4, path, cx) == t.4.menu(path, cx),
        t.child_kept(4, path, cx) == t.4.kept(path, cx),
        t.child_access_nodes(4, path, cx) == t.4.access_nodes(path, cx),
        t.child_access_root(4, path, cx) == t.4.access_root(path, cx),
        t.child_flexible(5) == t.5.flexible(),
        t.child_hit(5, path, hits, cx) == t.5.hit(path, hits, cx),
        t.child_menu(5, path, cx) == t.5.menu(path, cx),
        t.child_kept(5, path, cx) == t.5.kept(path, cx),
        t.child_access_nodes(5, path, cx) == t.5.access_nodes(path, cx),
        t.child_access_root(5, path, cx) == t.5.access_root(path, cx),
        t.child_flexible(6) == t.6.flexible(),
        t.child_hit(6, path, hits, cx) == t.6.hit(path, hits, cx),
        t.child_menu(6, path, cx) == t.6.menu(path, cx),
        t.child_kept(6, path, cx) == t.6.kept(path, cx),
        t.child_access_nodes(6, path, cx) == t.6.access_nodes(path, cx),
        t.child_access_root(6, path, cx) == t.6.access_root(path, cx),
        t.child_flexible(7) == t.7.flexible(),
        t.child_hit(7, path, hits, cx) == t.7.hit(path, hits, cx),
        t.child_menu(7, path, cx) == t.7.menu(path, cx),
        t.child_kept(7, path, cx) == t.7.kept(path, cx),
        t.child_access_nodes(7, path, cx) == t.7.access_nodes(path, cx),
        t.child_access_root(7, path, cx) == t.7.access_root(path, cx),

{
}

/// In a tuple of 8 views, an event handled at position `i` is handled by
/// the `i`-th view.
pub proof fn law_view_tuple8_events<D: 'static, V0: DynView<D>, V1: DynView<D>, V2: DynView<D>, V3: DynView<D>, V4: DynView<D>, V5: DynView<D>, V6: DynView<D>, V7: DynView<D>>(
    t: (V0, V1, V2, V3, V4, V5, V6, V7),
    event: Event<D>,
    path: Seq<u64>,
    before: Context,
    after: Context,
    added: nat,
)
    ensures
        t.ready() == (t.0.ready() && t.1.ready() && t.2.ready() && t.3.ready() && t.4.ready() && t.5.ready() && t.6.ready() && t.7.ready()),
        t.child_processed(0, event, path, before, after, added) == t.0.processed(event, path, before, after, added),
        t.child_processed(1, event, path, before, after, added) == t.1.processed(event, path, before, after, added),
        t.child_processed(2, event, path, before, after, added) == t.2.processed(event, path, before, after, added),
        t.child_processed(3, event, path, before, after, added) == t.3.processed(event, path, before, after, added),
        t.child_processed(4, event, path, before, after, added) == t.4.processed(event, path, before, after, added),
        t.child_processed(5, event, path, before, after, added) == t.5.processed(event, path, before, after, added),
        t.child_processed(6, event, path, before, after, added) == t.6.processed(event, path, before, after, added),
        t.child_processed(7, event, path, before, after, added) == t.7.processed(event, path, before, after, added),

{
}

/// A stack of 8 views: its hit is that of the last view that is hit, its
/// menu lists the views' menus in order, it keeps its own id and then, for
/// each view in order, the view's id and what the view keeps, and its
/// accessibility nodes are the views' nodes in order followed by a list
/// node whose children are the views' nodes. View `i` sits at the stack's
/// path extended by `i`.
pub proof fn law_stack8<V0: ViewCore, V1: ViewCore, V2: ViewCore, V3: ViewCore, V4: ViewCore, V5: ViewCore, V6: ViewCore, V7: ViewCore, Dir: StackDirection>(s: Stack<(V0, V1, V2, V3, V4, V5, V6, V7), Dir>, path: Seq<u64>, hits: Seq<Seq<u64>>, cx: Context)
    ensures
        s.hit(path, hits, cx) == (if s.children.7.hit(path.push(7), hits, cx) is Some { s.children.7.hit(path.push(7), hits, cx) } else { (if s.children.6.hit(path.push(6), hits, cx) is Some { s.children.6.hit(path.push(6), hits, cx) } else { (if s.children.5.hit(path.push(5), hits, cx) is Some { s.children.5.hit(path.push(5), hits, cx) } else { (if s.children.4.hit(path.push(4), hits, cx) is Some { s.children.4.hit(path.push(4), hits, cx) } else { (if s.children.3.hit(path.push(3), hits, cx) is Some { s.children.3.hit(path.push(3), hits, cx) } else { (if s.children.2.hit(path.push(2), hits, cx) is Some { s.children.2.hit(path.push(2), hits, cx) } else { (if s.children.1.hit(path.push(1), hits, cx) is Some { s.children.1.hit(path.push(1), hits, cx) } else { (if s.children.0.hit(path.push(0), hits, cx) is Some { s.children.0.hit(path.push(0), hits, cx) } else { None }) }) }) }) }) }) }) }),
        s.menu(path, cx) == s.children.0.menu(path.push(0), cx) + s.children.1.menu(path.push(1), cx) + s.children.2.menu(path.push(2), cx) + s.children.3.menu(path.push(3), cx) + s.children.4.menu(path.push(4), cx) + s.children.5.menu(path.push(5), cx) + s.children.6.menu(path.push(6), cx) + s.children.7.menu(path.push(7), cx),
        s.kept(path, cx) == seq![path_id(path)] + seq![path_id(path.push(0))] + s.children.0.kept(path.push(0), cx) + seq![path_id(path.push(1))] + s.children.1.kept(path.push(1), cx) + seq![path_id(path.push(2))] + s.children.2.kept(path.push(2), cx) + seq![path_id(path.push(3))] + s.children.3.kept(path.push(3), cx) + seq![path_id(path.push(4))] + s.children.4.kept(path.push(4), cx) + seq![path_id(path.push(5))] + s.children.5.kept(path.push(5), cx) + seq![path_id(path.push(6))] + s.children.6.kept(path.push(6), cx) + seq![path_id(path.push(7))] + s.children.7.kept(path.push(7), cx),
        s.access_nodes(path, cx) == (s.children.0.access_nodes(path.push(0), cx) + s.children.1.access_nodes(path.push(1), cx) + s.children.2.access_nodes(path.push(2), cx) + s.children.3.access_nodes(path.push(3), cx) + s.children.4.access_nodes(path.push(4), cx) + s.children.5.access_nodes(path.push(5), cx) + s.children.6.access_nodes(path.push(6), cx) + s.children.7.access_nodes(path.push(7), cx)).push((
            path_id(path).id,
            accesskit_role(RoleName::List),
            root_ids(s.children.0.access_root(path.push(0), cx)) + root_ids(s.children.1.access_root(path.push(1), cx)) + root_ids(s.children.2.access_root(path.push(2), cx)) + root_ids(s.children.3.access_root(path.push(3), cx)) + root_ids(s.children.4.access_root(path.push(4), cx)) + root_ids(s.children.5.access_root(path.push(5), cx)) + root_ids(s.children.6.access_root(path.push(6), cx)) + root_ids(s.children.7.access_root(path.push(7), cx)),
            None,
        )),
{
    reveal_with_fuel(tuple_hit, 9);
    reveal_with_fuel(tuple_menu, 9);
    reveal_with_fuel(tuple_kept, 9);
    reveal_with_fuel(tuple_access_nodes, 9);
    reveal_with_fuel(tuple_access_children, 9);
    law_view_tuple8_positions(s.children, path, hits, cx);
    law_view_tuple8_positions(s.children, path.push(0), hits, cx);
    law_view_tuple8_positions(s.children, path.push(1), hits, cx);
    law_view_tuple8_positions(s.children, path.push(2), hits, cx);
    law_view_tuple8_positions(s.children, path.push(3), hits, cx);
    law_view_tuple8_positions(s.children, path.push(4), hits, cx);
    law_view_tuple8_positions(s.children, path.push(5), hits, cx);
    law_view_tuple8_positions(s.children, path.push(6), hits, cx);
    law_view_tuple8_positions(s.children, path.push(7), hits, cx);
}

/// In a tuple of 9 views, position `i` stands for the `i`-th view: its
/// flexibility, hit, menu, kept ids and accessibility are that view's own,
/// and the tuple is well formed when every view is.
pub proof fn law_view_tuple9_positions<V0: ViewCore, V1: ViewCore, V2: ViewCore, V3: ViewCore, V4: ViewCore, V5: ViewCore, V6: ViewCore, V7: ViewCore, V8: ViewCore>(t: (V0, V1, V2, V3, V4, V5, V6, V7, V8), path: Seq<u64>, hits: Seq<Seq<u64>>, cx: Context)
    ensures
        t.spec_len() == 9,
        t.wf() == (t.0.wf() && t.1.wf() && t.2.wf() && t.3.wf() && t.4.wf() && t.5.wf() && t.6.wf() && t.7.wf() && t.8.wf()),
        t.child_flexible(0) == t.0.flexible(),
        t.child_hit(0, path, hits, cx) == t.0.hit(path, hits, cx),
        t.child_menu(0, path, cx) == t.0.menu(path, cx),
        t.child_kept(0, path, cx) == t.0.kept(path, cx),
        t.child_access_nodes(0, path, cx) == t.0.access_nodes(path, cx),
        t.child_access_root(0, path, cx) == t.0.access_root(path, cx),
        t.child_flexible(1) == t.1.flexible(),
        t.child_hit(1, path, hits, cx) == t.1.hit(path, hits, cx),
        t.child_menu(1, path, cx) == t.1.menu(path, cx),
        t.child_kept(1, path, cx) == t.1.kept(path, cx),
        t.child_access_nodes(1, path, cx) == t.1.access_nodes(path, cx),
        t.child_access_root(1, path, cx) == t.1.access_root(path, cx),
        t.child_flexible(2) == t.2.flexible(),
        t.child_hit(2, path, hits, cx) == t.2.hit(path, hits, cx),
        t.child_menu(2, path, cx) == t.2.menu(path, cx),
        t.child_kept(2, path, cx) == t.2.kept(path, cx),
        t.child_access_nodes(2, path, cx) == t.2.access_nodes(path, cx),
        t.child_access_root(2, path, cx) == t.2.access_root(path, cx),
        t.child_flexible(3) == t.3.flexible(),
        t.child_hit(3, path, hits, cx) == t.3.hit(path, hits, cx),
        t.child_menu(3, path, cx) == t.3.menu(path, cx),
        t.child_kept(3, path, cx) == t.3.kept(path, cx),
        t.child_access_nodes(3, path, cx) == t.3.access_nodes(path, cx),
        t.child_access_root(3, path, cx) == t.3.access_root(path, cx),
        t.child_flexible(4) == t.4.flexible(),
        t.child_hit(4, path, hits, cx) == t.4.hit(path, hits, cx),
        t.child_menu(4, path, cx) == t.4.menu(path, cx),
        t.child_kept(4, path, cx) == t.4.kept(path, cx),
        t.child_access_nodes(4, path, cx) == t.4.access_nodes(path, cx),
        t.child_access_root(4, path, cx) == t.4.access_root(path, cx),
        t.child_flexible(5) == t.5.flexible(),
        t.child_hit(5, path, hits, cx) == t.5.hit(path, hits, cx),
        t.child_menu(5, path, cx) == t.5.menu(path, cx),
        t.child_kept(5, path, cx) == t.5.kept(path, cx),
        t.child_access_nodes(5, path, cx) == t.5.access_nodes(path, cx),
        t.child_access_root(5, path, cx) == t.5.access_root(path, cx),
        t.child_flexible(6) == t.6.flexible(),
        t.child_hit(6, path, hits, cx) == t.6.hit(path, hits, cx),
        t.child_menu(6, path, cx) == t.6.menu(path, cx),
        t.child_kept(6, path, cx) == t.6.kept(path, cx),
        t.child_access_nodes(6, path, cx) == t.6.access_nodes(path, cx),
        t.child_access_root(6, path, cx) == t.6.access_root(path, cx),
        t.child_flexible(7) == t.7.flexible(),
        t.child_hit(7, path, hits, cx) == t.7.hit(path, hits, cx),
        t.child_menu(7, path, cx) == t.7.menu(path, cx),
        t.child_kept(7, path, cx) == t.7.kept(path, cx),
        t.child_access_nodes(7, path, cx) == t.7.access_nodes(path, cx),
        t.child_access_root(7, path, cx) == t.7.access_root(path, cx),
        t.child_flexible(8) == t.8.flexible(),
        t.child_hit(8, path, hits, cx) == t.8.hit(path, hits, cx),
        t.child_menu(8, path, cx) == t.8.menu(path, cx),
        t.child_kept(8, path, cx) == t.8.kept(path, cx),
        t.child_access_nodes(8, path, cx) == t.8.access_nodes(path, cx),
        t.child_access_root(8, path, cx) == t.8.access_root(path, cx),

{
}

/// In a tuple of 9 views, an event handled at position `i` is handled by
/// the `i`-th view.
pub proof fn law_view_tuple9_events<D: 'static, V0: DynView<D>, V1: DynView<D>, V2: DynView<D>, V3: DynView<D>, V4: DynView<D>, V5: DynView<D>, V6: DynView<D>, V7: DynView<D>, V8: DynView<D>>(
    t: (V0, V1, V2, V3, V4, V5, V6, V7, V8),
    event: Event<D>,
    path: Seq<u64>,
    before: Context,
    after: Context,
    added: nat,
)
    ensures
        t.ready() == (t.0.ready() && t.1.ready() && t.2.ready() && t.3.ready() && t.4.ready() && t.5.ready() && t.6.ready() && t.7.ready() && t.8.ready()),
        t.child_processed(0, event, path, before, after, added) == t.0.processed(event, path, before, after, added),
        t.child_processed(1, event, path, before, after, added) == t.1.processed(event, path, before, after, added),
        t.child_processed(2, event, path, before, after, added) == t.2.processed(event, path, before, after, added),
        t.child_processed(3, event, path, before, after, added) == t.3.processed(event, path, before, after, added),
        t.child_processed(4, event, path, before, after, added) == t.4.processed(event, path, before, after, added),
        t.child_processed(5, event, path, before, after, added) == t.5.processed(event, path, before, after, added),
        t.child_processed(6, event, path, before, after, added) == t.6.processed(event, path, before, after, added),
        t.child_processed(7, event, path, before, after, added) == t.7.processed(event, path, before, after, added),
        t.child_processed(8, event, path, before, after, added) == t.8.processed(event, path, before, after, added),

{
}

/// A stack of 9 views: its hit is that of the last view that is hit, its
/// menu lists the views' menus in order, it keeps its own id and then, for
/// each view in order, the view's id and what the view keeps, and its
/// accessibility nodes are the views' nodes in order followed by a list
/// node whose children are the views' nodes. View `i` sits at the stack's
/// path extended by `i`.
pub proof fn law_stack9<V0: ViewCore, V1: ViewCore, V2: ViewCore, V3: ViewCore, V4: ViewCore, V5: ViewCore, V6: ViewCore, V7: ViewCore, V8: ViewCore, Dir: StackDirection>(s: Stack<(V0, V1, V2, V3, V4, V5, V6, V7, V8), Dir>, path: Seq<u64>, hits: Seq<Seq<u64>>, cx: Context)
    ensures
        s.hit(path, hits, cx) == (if s.children.8.hit(path.push(8), hits, cx) is Some { s.children.8.hit(path.push(8), hits, cx) } else { (if s.children.7.hit(path.push(7), hits, cx) is Some { s.children.7.hit(path.push(7), hits, cx) } else { (if s.children.6.hit(path.push(6), hits, cx) is Some { s.children.6.hit(path.push(6), hits, cx) } else { (if s.children.5.hit(path.push(5), hits, cx) is Some { s.children.5.hit(path.push(5), hits, cx) } else { (if s.children.4.hit(path.push(4), hits, cx) is Some { s.children.4.hit(path.push(4), hits, cx) } else { (if s.children.3.hit(path.push(3), hits, cx) is Some { s.children.3.hit(path.push(3), hits, cx) } else { (if s.children.2.hit(path.push(2), hits, cx) is Some { s.children.2.hit(path.push(2), hits, cx) } else { (if s.children.1.hit(path.push(1), hits, cx) is Some { s.children.1.hit(path.push(1), hits, cx) } else { (if s.children.0.hit(path.push(0), hits, cx) is Some { s.children.0.hit(path.push(0), hits, cx) } else { None }) }) }) }) }) }) }) }) }),
        s.menu(path, cx) == s.children.0.menu(path.push(0), cx) + s.children.1.menu(path.push(1), cx) + s.children.2.menu(path.push(2), cx) + s.children.3.menu(path.push(3), cx) + s.children.4.menu(path.push(4), cx) + s.children.5.menu(path.push(5), cx) + s.children.6.menu(path.push(6), cx) + s.children.7.menu(path.push(7), cx) + s.children.8.menu(path.push(8), cx),
        s.kept(path, cx) == seq![path_id(path)] + seq![path_id(path.push(0))] + s.children.0.kept(path.push(0), cx) + seq![path_id(path.push(1))] + s.children.1.kept(path.push(1), cx) + seq![path_id(path.push(2))] + s.children.2.kept(path.push(2), cx) + seq![path_id(path.push(3))] + s.children.3.kept(path.push(3), cx) + seq![path_id(path.push(4))] + s.children.4.kept(path.push(4), cx) + seq![path_id(path.push(5))] + s.children.5.kept(path.push(5), cx) + seq![path_id(path.push(6))] + s.children.6.kept(path.push(6), cx) + seq![path_id(path.push(7))] + s.children.7.kept(path.push(7), cx) + seq![path_id(path.push(8))] + s.children.8.kept(path.push(8), cx),
        s.access_nodes(path, cx) == (s.children.0.access_nodes(path.push(0), cx) + s.children.1.access_nodes(path.push(1), cx) + s.children.2.access_nodes(path.push(2), cx) + s.children.3.access_nodes(path.push(3), cx) + s.children.4.access_nodes(path.push(4), cx) + s.children.5.access_nodes(path.push(5), cx) + s.children.6.access_nodes(path.push(6), cx) + s.children.7.access_nodes(path.push(7), cx) + s.children.8.access_nodes(path.push(8), cx)).push((
            path_id(path).id,
            accesskit_role(RoleName::List),
            root_ids(s.children.0.access_root(path.push(0), cx)) + root_ids(s.children.1.access_root(path.push(1), cx)) + root_ids(s.children.2.access_root(path.push(2), cx)) + root_ids(s.children.3.access_root(path.push(3), cx)) + root_ids(s.children.4.access_root(path.push(4), cx)) + root_ids(s.children.5.access_root(path.push(5), cx)) + root_ids(s.children.6.access_root(path.push(6), cx)) + root_ids(s.children.7.access_root(path.push(7), cx)) + root_ids(s.children.8.access_root(path.push(8), cx)),
            None,
        )),
{
    reveal_with_fuel(tuple_hit, 10);
    reveal_with_fuel(tuple_menu, 10);
    reveal_with_fuel(tuple_kept, 10);
    reveal_with_fuel(tuple_access_nodes, 10);
    reveal_with_fuel(tuple_access_children, 10);
    law_view_tuple9_positions(s.children, path, hits, cx);
    law_view_tuple9_positions(s.children, path.push(0), hits, cx);
    law_view_tuple9_positions(s.children, path.push(1), hits, cx);
    law_view_tuple9_positions(s.children, path.push(2), hits, cx);
    law_view_tuple9_positions(s.children, path.push(3), hits, cx);
    law_view_tuple9_positions(s.children, path.push(4), hits, cx);
    law_view_tuple9_positions(s.children, path.push(5), hits, cx);
    law_view_tuple9_positions(s.children, path.push(6), hits, cx);
    law_view_tuple9_positions(s.children, path.push(7), hits, cx);
    law_view_tuple9_positions(s.children, path.push(8), hits, cx);
}

/// In a tuple of 10 views, position `i` stands for the `i`-th view: its
/// flexibility, hit, menu, kept ids and accessibility are that view's own,
/// and the tuple is well formed when every view is.
pub proof fn law_view_tuple10_positions<V0: ViewCore, V1: ViewCore, V2: ViewCore, V3: ViewCore, V4: ViewCore, V5: ViewCore, V6: ViewCore, V7: ViewCore, V8: ViewCore, V9: ViewCore>(t: (V0, V1, V2, V3, V4, V5, V6, V7, V8, V9), path: Seq<u64>, hits: Seq<Seq<u64>>, cx: Context)
    ensures
        t.spec_len() == 10,
        t.wf() == (t.0.wf() && t.1.wf() && t.2.wf() && t.3.wf() && t.4.wf() && t.5.wf() && t.6.wf() && t.7.wf() && t.8.wf() && t.9.wf()),
        t.child_flexible(0) == t.0.flexible(),
        t.child_hit(0, path, hits, cx) == t.0.hit(path, hits, cx),
        t.child_menu(0, path, cx) == t.0.menu(path, cx),
        t.child_kept(0, path, cx) == t.0.kept(path, cx),
        t.child_access_nodes(0, path, cx) == t.0.access_nodes(path, cx),
        t.child_access_root(0, path, cx) == t.0.access_root(path, cx),
        t.child_flexible(1) == t.1.flexible(),
        t.child_hit(1, path, hits, cx) == t.1.hit(path, hits, cx),
        t.child_menu(1, path, cx) == t.1.menu(path, cx),
        t.child_kept(1, path, cx) == t.1.kept(path, cx),
        t.child_access_nodes(1, path, cx) == t.1.access_nodes(path, cx),
        t.child_access_root(1, path, cx) == t.1.access_root(path, cx),
        t.child_flexible(2) == t.2.flexible(),
        t.child_hit(2, path, hits, cx) == t.2.hit(path, hits, cx),
        t.child_menu(2, path, cx) == t.2.menu(path, cx),
        t.child_kept(2, path, cx) == t.2.kept(path, cx),
        t.child_access_nodes(2, path, cx) == t.2.access_nodes(path, cx),
        t.child_access_root(2, path, cx) == t.2.access_root(path, cx),
        t.child_flexible(3) == t.3.flexible(),
        t.child_hit(3, path, hits, cx) == t.3.hit(path, hits, cx),
        t.child_menu(3, path, cx) == t.3.menu(path, cx),
        t.child_kept(3, path, cx) == t.3.kept(path, cx),
        t.child_access_nodes(3, path, cx) == t.3.access_nodes(path, cx),
        t.child_access_root(3, path, cx) == t.3.access_root(path, cx),
        t.child_flexible(4) == t.4.flexible(),
        t.child_hit(4, path, hits, cx) == t.4.hit(path, hits, cx),
        t.child_menu(4, path, cx) == t.4.menu(path, cx),
        t.child_kept(4, path, cx) == t.4.kept(path, cx),
        t.child_access_nodes(4, path, cx) == t.4.access_nodes(path, cx),
        t.child_access_root(4, path, cx) == t.4.access_root(path, cx),
        t.child_flexible(5) == t.5.flexible(),
        t.child_hit(5, path, hits, cx) == t.5.hit(path, hits, cx),
        t.child_menu(5, path, cx) == t.5.menu(path, cx),
        t.child_kept(5, path, cx) == t.5.kept(path, cx),
        t.child_access_nodes(5, path, cx) == t.5.access_nodes(path, cx),
        t.child_access_root(5, path, cx) == t.5.access_root(path, cx),
        t.child_flexible(6) == t.6.flexible(),
        t.child_hit(6, path, hits, cx) == t.6.hit(path, hits, cx),
        t.child_menu(6, path, cx) == t.6.menu(path, cx),
        t.child_kept(6, path, cx) == t.6.kept(path, cx),
        t.child_access_nodes(6, path, cx) == t.6.access_nodes(path, cx),
        t.child_access_root(6, path, cx) == t.6.access_root(path, cx),
        t.child_flexible(7) == t.7.flexible(),
        t.child_hit(7, path, hits, cx) == t.7.hit(path, hits, cx),
        t.child_menu(7, path, cx) == t.7.menu(path, cx),
        t.child_kept(7, path, cx) == t.7.kept(path, cx),
        t.child_access_nodes(7, path, cx) == t.7.access_nodes(path, cx),
        t.child_access_root(7, path, cx) == t.7.access_root(path, cx),
        t.child_flexible(8) == t.8.flexible(),
        t.child_hit(8, path, hits, cx) == t.8.hit(path, hits, cx),
        t.child_menu(8, path, cx) == t.8.menu(path, cx),
        t.child_kept(8, path, cx) == t.8.kept(path, cx),
        t.child_access_nodes(8, path, cx) == t.8.access_nodes(path, cx),
        t.child_access_root(8, path, cx) == t.8.access_root(path, cx),
        t.child_flexible(9) == t.9.flexible(),
        t.child_hit(9, path, hits, cx) == t.9.hit(path, hits, cx),
        t.child_menu(9, path, cx) == t.9.menu(path, cx),
        t.child_kept(9, path, cx) == t.9.kept(path, cx),
        t.child_access_nodes(9, path, cx) == t.9.access_nodes(path, cx),
        t.child_access_root(9, path, cx) == t.9.access_root(path, cx),

{
}

/// In a tuple of 10 views, an event handled at position `i` is handled by
/// the `i`-th view.
pub proof fn law_view_tuple10_events<D: 'static, V0: DynView<D>, V1: DynView<D>, V2: DynView<D>, V3: DynView<D>, V4: DynView<D>, V5: DynView<D>, V6: DynView<D>, V7: DynView<D>, V8: DynView<D>, V9: DynView<D>>(
    t: (V0, V1, V2, V3, V4, V5, V6, V7, V8, V9),
    event: Event<D>,
    path: Seq<u64>,
    before: Context,
    after: Context,
    added: nat,
)
    ensures
        t.ready() == (t.0.ready() && t.1.ready() && t.2.ready() && t.3.ready() && t.4.ready() && t.5.ready() && t.6.ready() && t.7.ready() && t.8.ready() && t.9.ready()),
        t.child_processed(0, event, path, before, after, added) == t.0.processed(event, path, before, after, added),
        t.child_processed(1, event, path, before, after, added) == t.1.processed(event, path, before, after, added),
        t.child_processed(2, event, path, before, after, added) == t.2.processed(event, path, before, after, added),
        t.child_processed(3, event, path, before, after, added) == t.3.processed(event, path, before, after, added),
        t.child_processed(4, event, path, before, after, added) == t.4.processed(event, path, before, after, added),
        t.child_processed(5, event, path, before, after, added) == t.5.processed(event, path, before, after, added),
        t.child_processed(6, event, path, before, after, added) == t.6.processed(event, path, before, after, added),
        t.child_processed(7, event, path, before, after, added) == t.7.processed(event, path, before, after, added),
        t.child_processed(8, event, path, before, after, added) == t.8.processed(event, path, before, after, added),
        t.child_processed(9, event, path, before, after, added) == t.9.processed(event, path, before, after, added),

{
}

/// A stack of 10 views: its hit is that of the last view that is hit, its
/// menu lists the views' menus in order, it keeps its own id and then, for
/// each view in order, the view's id and what the view keeps, and its
/// accessibility nodes are the views' nodes in order followed by a list
/// node whose children are the views' nodes. View `i` sits at the stack's
/// path extended by `i`.
pub proof fn law_stack10<V0: ViewCore, V1: ViewCore, V2: ViewCore, V3: ViewCore, V4: ViewCore, V5: ViewCore, V6: ViewCore, V7: ViewCore, V8: ViewCore, V9: ViewCore, Dir: StackDirection>(s: Stack<(V0, V1, V2, V3, V4, V5, V6, V7, V8, V9), Dir>, path: Seq<u64>, hits: Seq<Seq<u64>>, cx: Context)
    ensures
        s.hit(path, hits, cx) == (if s.children.9.hit(path.push(9), hits, cx) is Some { s.children.9.hit(path.push(9), hits, cx) } else { (if s.children.8.hit(path.push(8), hits, cx) is Some { s.children.8.hit(path.push(8), hits, cx) } else { (if s.children.7.hit(path.push(7), hits, cx) is Some { s.children.7.hit(path.push(7), hits, cx) } else { (if s.children.6.hit(path.push(6), hits, cx) is Some { s.children.6.hit(path.push(6), hits, cx) } else { (if s.children.5.hit(path.push(5), hits, cx) is Some { s.children.5.hit(path.push(5), hits, cx) } else { (if s.children.4.hit(path.push(4), hits, cx) is Some { s.children.4.hit(path.push(4), hits, cx) } else { (if s.children.3.hit(path.push(3), hits, cx) is Some { s.children.3.hit(path.push(3), hits, cx) } else { (if s.children.2.hit(path.push(2), hits, cx) is Some { s.children.2.hit(path.push(2), hits, cx) } else { (if s.children.1.hit(path.push(1), hits, cx) is Some { s.children.1.hit(path.push(1), hits, cx) } else { (if s.children.0.hit(path.push(0), hits, cx) is Some { s.children.0.hit(path.push(0), hits, cx) } else { None }) }) }) }) }) }) }) }) }) }),
        s.menu(path, cx) == s.children.0.menu(path.push(0), cx) + s.children.1.menu(path.push(1), cx) + s.children.2.menu(path.push(2), cx) + s.children.3.menu(path.push(3), cx) + s.children.4.menu(path.push(4), cx) + s.children.5.menu(path.push(5), cx) + s.children.6.menu(path.push(6), cx) + s.children.7.menu(path.push(7), cx) + s.children.8.menu(path.push(8), cx) + s.children.9.menu(path.push(9), cx),
        s.kept(path, cx) == seq![path_id(path)] + seq![path_id(path.push(0))] + s.children.0.kept(path.push(0), cx) + seq![path_id(path.push(1))] + s.children.1.kept(path.push(1), cx) + seq![path_id(path.push(2))] + s.children.2.kept(path.push(2), cx) + seq![path_id(path.push(3))] + s.children.3.kept(path.push(3), cx) + seq![path_id(path.push(4))] + s.children.4.kept(path.push(4), cx) + seq![path_id(path.push(5))] + s.children.5.kept(path.push(5), cx) + seq![path_id(path.push(6))] + s.children.6.kept(path.push(6), cx) + seq![path_id(path.push(7))] + s.children.7.kept(path.push(7), cx) + seq![path_id(path.push(8))] + s.children.8.kept(path.push(8), cx) + seq![path_id(path.push(9))] + s.children.9.kept(path.push(9), cx),
        s.access_nodes(path, cx) == (s.children.0.access_nodes(path.push(0), cx) + s.children.1.access_nodes(path.push(1), cx) + s.children.2.access_nodes(path.push(2), cx) + s.children.3.access_nodes(path.push(3), cx) + s.children.4.access_nodes(path.push(4), cx) + s.children.5.access_nodes(path.push(5), cx) + s.children.6.access_nodes(path.push(6), cx) + s.children.7.access_nodes(path.push(7), cx) + s.children.8.access_nodes(path.push(8), cx) + s.children.9.access_nodes(path.push(9), cx)).push((
            path_id(path).id,
            accesskit_role(RoleName::List),
            root_ids(s.children.0.access_root(path.push(0), cx)) + root_ids(s.children.1.access_root(path.push(1), cx)) + root_ids(s.children.2.access_root(path.push(2), cx)) + root_ids(s.children.3.access_root(path.push(3), cx)) + root_ids(s.children.4.access_root(path.push(4), cx)) + root_ids(s.children.5.access_root(path.push(5), cx)) + root_ids(s.children.6.access_root(path.push(6), cx)) + root_ids(s.children.7.access_root(path.push(7), cx)) + root_ids(s.children.8.access_root(path.push(8), cx)) + root_ids(s.children.9.access_root(path.push(9), cx)),
            None,
        )),
{
    reveal_with_fuel(tuple_hit, 11);
    reveal_with_fuel(tuple_menu, 11);
    reveal_with_fuel(tuple_kept, 11);
    reveal_with_fuel(tuple_access_nodes, 11);
    reveal_with_fuel(tuple_access_children, 11);
    law_view_tuple10_positions(s.children, path, hits, cx);
    law_view_tuple10_positions(s.children, path.push(0), hits, cx);
    law_view_tuple10_positions(s.children, path.push(1), hits, cx);
    law_view_tuple10_positions(s.children, path.push(2), hits, cx);
    law_view_tuple10_positions(s.children, path.push(3), hits, cx);
    law_view_tuple10_positions(s.children, path.push(4), hits, cx);
    law_view_tuple10_positions(s.children, path.push(5), hits, cx);
    law_view_tuple10_positions(s.children, path.push(6), hits, cx);
    law_view_tuple10_positions(s.children, path.push(7), hits, cx);
    law_view_tuple10_positions(s.children, path.push(8), hits, cx);
    law_view_tuple10_positions(s.children, path.push(9), hits, cx);
}

/// In a tuple of 1 commands, position `i` stands for the `i`-th command:
/// the name and hotkey reported there and what holds once it has run are
/// that command's own.
pub proof fn law_command_tuple1<A: CommandBase>(t: (A,))
    ensures
        t.spec_len() == 1,
        t.runnable() == (t.0.runnable()),
        t.name_at(0) == t.0.spec_name(),
        t.key_at(0) == t.0.spec_key(),
        t.ran_at(0) == t.0.ran(),

{
}

/// In a tuple of 2 commands, position `i` stands for the `i`-th command:
/// the name and hotkey reported there and what holds once it has run are
/// that command's own.
pub proof fn law_command_tuple2<A: CommandBase, B: CommandBase>(t: (A, B))
    ensures
        t.spec_len() == 2,
        t.runnable() == (t.0.runnable() && t.1.runnable()),
        t.name_at(0) == t.0.spec_name(),
        t.key_at(0) == t.0.spec_key(),
        t.ran_at(0) == t.0.ran(),
        t.name_at(1) == t.1.spec_name(),
        t.key_at(1) == t.1.spec_key(),
        t.ran_at(1) == t.1.ran(),

{
}

/// In a tuple of 3 commands, position `i` stands for the `i`-th command:
/// the name and hotkey reported there and what holds once it has run are
/// that command's own.
pub proof fn law_command_tuple3<A: CommandBase, B: CommandBase, C: CommandBase>(t: (A, B, C))
    ensures
        t.spec_len() == 3,
        t.runnable() == (t.0.runnable() && t.1.runnable() && t.2.runnable()),
        t.name_at(0) == t.0.spec_name(),
        t.key_at(0) == t.0.spec_key(),
        t.ran_at(0) == t.0.ran(),
        t.name_at(1) == t.1.spec_name(),
        t.key_at(1) == t.1.spec_key(),
        t.ran_at(1) == t.1.ran(),
        t.name_at(2) == t.2.spec_name(),
        t.key_at(2) == t.2.spec_key(),
        t.ran_at(2) == t.2.ran(),

{
}

/// In a tuple of 4 commands, position `i` stands for the `i`-th command:
/// the name and hotkey reported there and what holds once it has run are
/// that command's own.
pub proof fn law_command_tuple4<A: CommandBase, B: CommandBase, C: CommandBase, D: CommandBase>(t: (A, B, C, D))
    ensures
        t.spec_len() == 4,
        t.runnable() == (t.0.runnable() && t.1.runnable() && t.2.runnable() && t.3.runnable()),
        t.name_at(0) == t.0.spec_name(),
        t.key_at(0) == t.0.spec_key(),
        t.ran_at(0) == t.0.ran(),
        t.name_at(1) == t.1.spec_name(),
        t.key_at(1) == t.1.spec_key(),
        t.ran_at(1) == t.1.ran(),
        t.name_at(2) == t.2.spec_name(),
        t.key_at(2) == t.2.spec_key(),
        t.ran_at(2) == t.2.ran(),
        t.name_at(3) == t.3.spec_name(),
        t.key_at(3) == t.3.spec_key(),
        t.ran_at(3) == t.3.ran(),

{
}

/// In a tuple of 5 commands, position `i` stands for the `i`-th command:
/// the name and hotkey reported there and what holds once it has run are
/// that command's own.
pub proof fn law_command_tuple5<A: CommandBase, B: CommandBase, C: CommandBase, D: CommandBase, E: CommandBase>(t: (A, B, C, D, E))
    ensures
        t.spec_len() == 5,
        t.runnable() == (t.0.runnable() && t.1.runnable() && t.2.runnable() && t.3.runnable() && t.4.runnable()),
        t.name_at(0) == t.0.spec_name(),
        t.key_at(0) == t.0.spec_key(),
        t.ran_at(0) == t.0.ran(),
        t.name_at(1) == t.1.spec_name(),
        t.key_at(1) == t.1.spec_key(),
        t.ran_at(1) == t.1.ran(),
        t.name_at(2) == t.2.spec_name(),
        t.key_at(2) == t.2.spec_key(),
        t.ran_at(2) == t.2.ran(),
        t.name_at(3) == t.3.spec_name(),
        t.key_at(3) == t.3.spec_key(),
        t.ran_at(3) == t.3.ran(),
        t.name_at(4) == t.4.spec_name(),
        t.key_at(4) == t.4.spec_key(),
        t.ran_at(4) == t.4.ran(),

{
}

/// In a tuple of 6 commands, position `i` stands for the `i`-th command:
/// the name and hotkey reported there and what holds once it has run are
/// that command's own.
pub proof fn law_command_tuple6<A: CommandBase, B: CommandBase, C: CommandBase, D: CommandBase, E: CommandBase, F: CommandBase>(t: (A, B, C, D, E, F))
    ensures
        t.spec_len() == 6,
        t.runnable() == (t.0.runnable() && t.1.runnable() && t.2.runnable() && t.3.runnable() && t.4.runnable() && t.5.runnable()),
        t.name_at(0) == t.0.spec_name(),
        t.key_at(0) == t.0.spec_key(),
        t.ran_at(0) == t.0.ran(),
        t.name_at(1) == t.1.spec_name(),
        t.key_at(1) == t.1.spec_key(),
        t.ran_at(1) == t.1.ran(),
        t.name_at(2) == t.2.spec_name(),
        t.key_at(2) == t.2.spec_key(),
        t.ran_at(2) == t.2.ran(),
        t.name_at(3) == t.3.spec_name(),
        t.key_at(3) == t.3.spec_key(),
        t.ran_at(3) == t.3.ran(),
        t.name_at(4) == t.4.spec_name(),
        t.key_at(4) == t.4.spec_key(),
        t.ran_at(4) == t.4.ran(),
        t.name_at(5) == t.5.spec_name(),
        t.key_at(5) == t.5.spec_key(),
        t.ran_at(5) == t.5.ran(),

{
}

/// In a tuple of 7 commands, position `i` stands for the `i`-th command:
/// the name and hotkey reported there and what holds once it has run are
/// that command's own.
pub proof fn law_command_tuple7<A: CommandBase, B: CommandBase, C: CommandBase, D: CommandBase, E: CommandBase, F: CommandBase, G: CommandBase>(t: (A, B, C, D, E, F, G))
    ensures
        t.spec_len() == 7,
        t.runnable() == (t.0.runnable() && t.1.runnable() && t.2.runnable() && t.3.runnable() && t.4.runnable() && t.5.runnable() && t.6.runnable()),
        t.name_at(0) == t.0.spec_name(),
        t.key_at(0) == t.0.spec_key(),
        t.ran_at(0) == t.0.ran(),
        t.name_at(1) == t.1.spec_name(),
        t.key_at(1) == t.1.spec_key(),
        t.ran_at(1) == t.1.ran(),
        t.name_at(2) == t.2.spec_name(),
        t.key_at(2) == t.2.spec_key(),
        t.ran_at(2) == t.2.ran(),
        t.name_at(3) == t.3.spec_name(),
        t.key_at(3) == t.3.spec_key(),
        t.ran_at(3) == t.3.ran(),
        t.name_at(4) == t.4.spec_name(),
        t.key_at(4) == t.4.spec_key(),
        t.ran_at(4) == t.4.ran(),
        t.name_at(5) == t.5.spec_name(),
        t.key_at(5) == t.5.spec_key(),
        t.ran_at(5) == t.5.ran(),
        t.name_at(6) == t.6.spec_name(),
        t.key_at(6) == t.6.spec_key(),
        t.ran_at(6) == t.6.ran(),

{
}

/// In a tuple of 8 commands, position `i` stands for the `i`-th command:
/// the name and hotkey reported there and what holds once it has run are
/// that command's own.
pub proof fn law_command_tuple8<A: CommandBase, B: CommandBase, C: CommandBase, D: CommandBase, E: CommandBase, F: CommandBase, G: CommandBase, H: CommandBase>(t: (A, B, C, D, E, F, G, H))
    ensures
        t.spec_len() == 8,
        t.runnable() == (t.0.runnable() && t.1.runnable() && t.2.runnable() && t.3.runnable() && t.4.runnable() && t.5.runnable() && t.6.runnable() && t.7.runnable()),
        t.name_at(0) == t.0.spec_name(),
        t.key_at(0) == t.0.spec_key(),
        t.ran_at(0) == t.0.ran(),
        t.name_at(1) == t.1.spec_name(),
        t.key_at(1) == t.1.spec_key(),
        t.ran_at(1) == t.1.ran(),
        t.name_at(2) == t.2.spec_name(),
        t.key_at(2) == t.2.spec_key(),
        t.ran_at(2) == t.2.ran(),
        t.name_at(3) == t.3.spec_name(),
        t.key_at(3) == t.3.spec_key(),
        t.ran_at(3) == t.3.ran(),
        t.name_at(4) == t.4.spec_name(),
        t.key_at(4) == t.4.spec_key(),
        t.ran_at(4) == t.4.ran(),
        t.name_at(5) == t.5.spec_name(),
        t.key_at(5) == t.5.spec_key(),
        t.ran_at(5) == t.5.ran(),
        t.name_at(6) == t.6.spec_name(),
        t.key_at(6) == t.6.spec_key(),
        t.ran_at(6) == t.6.ran(),
        t.name_at(7) == t.7.spec_name(),
        t.key_at(7) == t.7.spec_key(),
        t.ran_at(7) == t.7.ran(),

{
}

/// The ids of an accessibility node that may be absent: none or one.
pub open spec fn root_ids(r: Option<u64>) -> Seq<u64> {
    match r {
        Some(id) => seq![id],
        None => Seq::empty(),
    }
}

/// The sum of the numbers in `a`.
pub open spec fn total(a: Seq<nat>) -> nat
    decreases a.len(),
{
    if a.len() == 0 {
        0
    } else {
        a[0] + total(a.drop_first())
    }
}

/// Views `c..n` of `vt`, each at `path` extended by its position, handle
/// `event` in turn, the last first: view `c + j` turns `m[j + 1]` into
/// `m[j]`, adding `a[j]` actions.
pub open spec fn handled_in_turn<D, VT: ViewTupleOf<D>>(
    vt: VT,
    event: Event<D>,
    path: Seq<u64>,
    m: Seq<Context>,
    a: Seq<nat>,
    c: nat,
    n: nat,
) -> bool {
    &&& m.len() == n - c + 1
    &&& a.len() == n - c
    &&& forall|j: int| 0 <= j < n - c ==> #[trigger] vt.child_processed(c + j, event, path.push((c + j) as u64), m[j + 1], m[j], a[j])
}

/// What a stack's views do to an event, from the view at `c` on, is each
/// view's own handling in turn, the contexts chained and the actions
/// added up.
pub proof fn lemma_processed_in_turn<D, VT: ViewTupleOf<D>>(
    vt: VT,
    event: Event<D>,
    path: Seq<u64>,
    before: Context,
    after: Context,
    added: nat,
    c: nat,
    n: nat,
)
    requires
        c <= n,
        tuple_processed(vt, event, path, before, after, added, c, n),
    ensures
        exists|m: Seq<Context>, a: Seq<nat>|
            #[trigger] handled_in_turn(vt, event, path, m, a, c, n)
            && m[0] == after && m[n - c] == before && total(a) == added,
    decreases n - c,
{
    if c >= n {
        let m = seq![after];
        let a = Seq::<nat>::empty();
        assert(handled_in_turn(vt, event, path, m, a, c, n));
    } else {
        let (mid, a0) = choose|mid: Context, a0: nat|
            #![trigger vt.child_processed(c as int, event, path.push(c as u64), mid, after, a0)]
            a0 <= added
            && tuple_processed(vt, event, path, before, mid, (added - a0) as nat, (c + 1) as nat, n)
            && vt.child_processed(c as int, event, path.push(c as u64), mid, after, a0);
        lemma_processed_in_turn(vt, event, path, before, mid, (added - a0) as nat, (c + 1) as nat, n);
        let (m1, a1) = choose|m1: Seq<Context>, a1: Seq<nat>|
            #[trigger] handled_in_turn(vt, event, path, m1, a1, (c + 1) as nat, n)
            && m1[0] == mid && m1[n - (c + 1)] == before && total(a1) == (added - a0) as nat;
        let m = seq![after] + m1;
        let a = seq![a0] + a1;
        assert(a.drop_first() =~= a1);
        assert forall|j: int| 0 <= j < n - c implies #[trigger] vt.child_processed(c + j, event, path.push((c + j) as u64), m[j + 1], m[j], a[j]) by {
            if j > 0 {
                assert(vt.child_processed((c + 1) + (j - 1), event, path.push(((c + 1) + (j - 1)) as u64), m1[(j - 1) + 1], m1[j - 1], a1[j - 1]));
            }
        }
        assert(handled_in_turn(vt, event, path, m, a, c, n));
    }
}

/// A stack of 1 views hands an event to each of its views in turn, the
/// last (front-most) first, each at the stack's path extended by its
/// position and in the context the one after it left; the actions added are
/// those the views add.
pub proof fn law_stack1_events<D: 'static, V0: DynView<D>, Dir: StackDirection>(
    s: Stack<(V0,), Dir>,
    event: Event<D>,
    path: Seq<u64>,
    before: Context,
    after: Context,
    added: nat,
)
    requires
        s.processed(event, path, before, after, added),
    ensures
        exists|m: Seq<Context>, a: Seq<nat>|
            #![trigger total(a), m.len()]
            m.len() == 2 && a.len() == 1 && m[0] == after && m[1] == before && total(a) == added
            && s.children.0.processed(event, path.push(0), m[1], m[0], a[0]),
{
    lemma_processed_in_turn(s.children, event, path, before, after, added, 0, 1);
    let (m, a) = choose|m: Seq<Context>, a: Seq<nat>|
        #[trigger] handled_in_turn(s.children, event, path, m, a, 0, 1)
        && m[0] == after && m[1] == before && total(a) == added;
    let ghost c: nat = 0;
    let ghost j: int = 0;
    assert(s.children.child_processed(c + j, event, path.push((c + j) as u64), m[j + 1], m[j], a[j]));
    law_view_tuple1_events(s.children, event, path.push(0), m[1], m[0], a[0]);
    assert(m.len() == 2 && total(a) == added);
}

/// A stack of 2 views hands an event to each of its views in turn, the
/// last (front-most) first, each at the stack's path extended by its
/// position and in the context the one after it left; the actions added are
/// those the views add.
pub proof fn law_stack2_events<D: 'static, V0: DynView<D>, V1: DynView<D>, Dir: StackDirection>(
    s: Stack<(V0, V1), Dir>,
    event: Event<D>,
    path: Seq<u64>,
    before: Context,
    after: Context,
    added: nat,
)
    requires
        s.processed(event, path, before, after, added),
    ensures
        exists|m: Seq<Context>, a: Seq<nat>|
            #![trigger total(a), m.len()]
            m.len() == 3 && a.len() == 2 && m[0] == after && m[2] == before && total(a) == added
            && s.children.0.processed(event, path.push(0), m[1], m[0], a[0])
            && s.children.1.processed(event, path.push(1), m[2], m[1], a[1]),
{
    lemma_processed_in_turn(s.children, event, path, before, after, added, 0, 2);
    let (m, a) = choose|m: Seq<Context>, a: Seq<nat>|
        #[trigger] handled_in_turn(s.children, event, path, m, a, 0, 2)
        && m[0] == after && m[2] == before && total(a) == added;
    let ghost c: nat = 0;
    let ghost j: int = 0;
    assert(s.children.child_processed(c + j, event, path.push((c + j) as u64), m[j + 1], m[j], a[j]));
    law_view_tuple2_events(s.children, event, path.push(0), m[1], m[0], a[0]);
    let ghost j: int = 1;
    assert(s.children.child_processed(c + j, event, path.push((c + j) as u64), m[j + 1], m[j], a[j]));
    law_view_tuple2_events(s.children, event, path.push(1), m[2], m[1], a[1]);
    assert(m.len() == 3 && total(a) == added);
}

/// A stack of 3 views hands an event to each of its views in turn, the
/// last (front-most) first, each at the stack's path extended by its
/// position and in the context the one after it left; the actions added are
/// those the views add.
pub proof fn law_stack3_events<D: 'static, V0: DynView<D>, V1: DynView<D>, V2: DynView<D>, Dir: StackDirection>(
    s: Stack<(V0, V1, V2), Dir>,
    event: Event<D>,
    path: Seq<u64>,
    before: Context,
    after: Context,
    added: nat,
)
    requires
        s.processed(event, path, before, after, added),
    ensures
        exists|m: Seq<Context>, a: Seq<nat>|
            #![trigger total(a), m.len()]
            m.len() == 4 && a.len() == 3 && m[0] == after && m[3] == before && total(a) == added
            && s.children.0.processed(event, path.push(0), m[1], m[0], a[0])
            && s.children.1.processed(event, path.push(1), m[2], m[1], a[1])
            && s.children.2.processed(event, path.push(2), m[3], m[2], a[2]),
{
    lemma_processed_in_turn(s.children, event, path, before, after, added, 0, 3);
    let (m, a) = choose|m: Seq<Context>, a: Seq<nat>|
        #[trigger] handled_in_turn(s.children, event, path, m, a, 0, 3)
        && m[0] == after && m[3] == before && total(a) == added;
    let ghost c: nat = 0;
    let ghost j: int = 0;
    assert(s.children.child_processed(c + j, event, path.push((c + j) as u64), m[j + 1], m[j], a[j]));
    law_view_tuple3_events(s.children, event, path.push(0), m[1], m[0], a[0]);
    let ghost j: int = 1;
    assert(s.children.child_processed(c + j, event, path.push((c + j) as u64), m[j + 1], m[j], a[j]));
    law_view_tuple3_events(s.children, event, path.push(1), m[2], m[1], a[1]);
    let ghost j: int = 2;
    assert(s.children.child_processed(c + j, event, path.push((c + j) as u64), m[j + 1], m[j], a[j]));
    law_view_tuple3_events(s.children, event, path.push(2), m[3], m[2], a[2]);
    assert(m.len() == 4 && total(a) == added);
}

/// A stack of 4 views hands an event to each of its views in turn, the
/// last (front-most) first, each at the stack's path extended by its
/// position and in the context the one after it left; the actions added are
/// those the views add.
pub proof fn law_stack4_events<D: 'static, V0: DynView<D>, V1: DynView<D>, V2: DynView<D>, V3: DynView<D>, Dir: StackDirection>(
    s: Stack<(V0, V1, V2, V3), Dir>,
    event: Event<D>,
    path: Seq<u64>,
    before: Context,
    after: Context,
    added: nat,
)
    requires
        s.processed(event, path, before, after, added),
    ensures
        exists|m: Seq<Context>, a: Seq<nat>|
            #![trigger total(a), m.len()]
            m.len() == 5 && a.len() == 4 && m[0] == after && m[4] == before && total(a) == added
            && s.children.0.processed(event, path.push(0), m[1], m[0], a[0])
            && s.children.1.processed(event, path.push(1), m[2], m[1], a[1])
            && s.children.2.processed(event, path.push(2), m[3], m[2], a[2])
            && s.children.3.processed(event, path.push(3), m[4], m[3], a[3]),
{
    lemma_processed_in_turn(s.children, event, path, before, after, added, 0, 4);
    let (m, a) = choose|m: Seq<Context>, a: Seq<nat>|
        #[trigger] handled_in_turn(s.children, event, path, m, a, 0, 4)
        && m[0] == after && m[4] == before && total(a) == added;
    let ghost c: nat = 0;
    let ghost j: int = 0;
    assert(s.children.child_processed(c + j, event, path.push((c + j) as u64), m[j + 1], m[j], a[j]));
    law_view_tuple4_events(s.children, event, path.push(0), m[1], m[0], a[0]);
    let ghost j: int = 1;
    assert(s.children.child_processed(c + j, event, path.push((c + j) as u64), m[j + 1], m[j], a[j]));
    law_view_tuple4_events(s.children, event, path.push(1), m[2], m[1], a[1]);
    let ghost j: int = 2;
    assert(s.children.child_processed(c + j, event, path.push((c + j) as u64), m[j + 1], m[j], a[j]));
    law_view_tuple4_events(s.children, event, path.push(2), m[3], m[2], a[2]);
    let ghost j: int = 3;
    assert(s.children.child_processed(c + j, event, path.push((c + j) as u64), m[j + 1], m[j], a[j]));
    law_view_tuple4_events(s.children, event, path.push(3), m[4], m[3], a[3]);
    assert(m.len() == 5 && total(a) == added);
}

/// A stack of 5 views hands an event to each of its views in turn, the
/// last (front-most) first, each at the stack's path extended by its
/// position and in the context the one after it left; the actions added are
/// those the views add.
pub proof fn law_stack5_events<D: 'static, V0: DynView<D>, V1: DynView<D>, V2: DynView<D>, V3: DynView<D>, V4: DynView<D>, Dir: StackDirection>(
    s: Stack<(V0, V1, V2, V3, V4), Dir>,
    event: Event<D>,
    path: Seq<u64>,
    before: Context,
    after: Context,
    added: nat,
)
    requires
        s.processed(event, path, before, after, added),
    ensures
        exists|m: Seq<Context>, a: Seq<nat>|
            #![trigger total(a), m.len()]
            m.len() == 6 && a.len() == 5 && m[0] == after && m[5] == before && total(a) == added
            && s.children.0.processed(event, path.push(0), m[1], m[0], a[0])
            && s.children.1.processed(event, path.push(1), m[2], m[1], a[1])
            && s.children.2.processed(event, path.push(2), m[3], m[2], a[2])
            && s.children.3.processed(event, path.push(3), m[4], m[3], a[3])
            && s.children.4.processed(event, path.push(4), m[5], m[4], a[4]),
{
    lemma_processed_in_turn(s.children, event, path, before, after, added, 0, 5);
    let (m, a) = choose|m: Seq<Context>, a: Seq<nat>|
        #[trigger] handled_in_turn(s.children, event, path, m, a, 0, 5)
        && m[0] == after && m[5] == before && total(a) == added;
    let ghost c: nat = 0;
    let ghost j: int = 0;
    assert(s.children.child_processed(c + j, event, path.push((c + j) as u64), m[j + 1], m[j], a[j]));
    law_view_tuple5_events(s.children, event, path.push(0), m[1], m[0], a[0]);
    let ghost j: int = 1;
    assert(s.children.child_processed(c + j, event, path.push((c + j) as u64), m[j + 1], m[j], a[j]));
    law_view_tuple5_events(s.children, event, path.push(1), m[2], m[1], a[1]);
    let ghost j: int = 2;
    assert(s.children.child_processed(c + j, event, path.push((c + j) as u64), m[j + 1], m[j], a[j]));
    law_view_tuple5_events(s.children, event, path.push(2), m[3], m[2], a[2]);
    let ghost j: int = 3;
    assert(s.children.child_processed(c + j, event, path.push((c + j) as u64), m[j + 1], m[j], a[j]));
    law_view_tuple5_events(s.children, event, path.push(3), m[4], m[3], a[3]);
    let ghost j: int = 4;
    assert(s.children.child_processed(c + j, event, path.push((c + j) as u64), m[j + 1], m[j], a[j]));
    law_view_tuple5_events(s.children, event, path.push(4), m[5], m[4], a[4]);
    assert(m.len() == 6 && total(a) == added);
}

/// A stack of 6 views hands an event to each of its views in turn, the
/// last (front-most) first, each at the stack's path extended by its
/// position and in the context the one after it left; the actions added are
/// those the views add.
pub proof fn law_stack6_events<D: 'static, V0: DynView<D>, V1: DynView<D>, V2: DynView<D>, V3: DynView<D>, V4: DynView<D>, V5: DynView<D>, Dir: StackDirection>(
    s: Stack<(V0, V1, V2, V3, V4, V5), Dir>,
    event: Event<D>,
    path: Seq<u64>,
    before: Context,
    after: Context,
    added: nat,
)
    requires
        s.processed(event, path, before, after, added),
    ensures
        exists|m: Seq<Context>, a: Seq<nat>|
            #![trigger total(a), m.len()]
            m.len() == 7 && a.len() == 6 && m[0] == after && m[6] == before && total(a) == added
            && s.children.0.processed(event, path.push(0), m[1], m[0], a[0])
            && s.children.1.processed(event, path.push(1), m[2], m[1], a[1])
            && s.children.2.processed(event, path.push(2), m[3], m[2], a[2])
            && s.children.3.processed(event, path.push(3), m[4], m[3], a[3])
            && s.children.4.processed(event, path.push(4), m[5], m[4], a[4])
            && s.children.5.processed(event, path.push(5), m[6], m[5], a[5]),
{
    lemma_processed_in_turn(s.children, event, path, before, after, added, 0, 6);
    let (m, a) = choose|m: Seq<Context>, a: Seq<nat>|
        #[trigger] handled_in_turn(s.children, event, path, m, a, 0, 6)
        && m[0] == after && m[6] == before && total(a) == added;
    let ghost c: nat = 0;
    let ghost j: int = 0;
    assert(s.children.child_processed(c + j, event, path.push((c + j) as u64), m[j + 1], m[j], a[j]));
    law_view_tuple6_events(s.children, event, path.push(0), m[1], m[0], a[0]);
    let ghost j: int = 1;
    assert(s.children.child_processed(c + j, event, path.push((c + j) as u64), m[j + 1], m[j], a[j]));
    law_view_tuple6_events(s.children, event, path.push(1), m[2], m[1], a[1]);
    let ghost j: int = 2;
    assert(s.children.child_processed(c + j, event, path.push((c + j) as u64), m[j + 1], m[j], a[j]));
    law_view_tuple6_events(s.children, event, path.push(2), m[3], m[2], a[2]);
    let ghost j: int = 3;
    assert(s.children.child_processed(c + j, event, path.push((c + j) as u64), m[j + 1], m[j], a[j]));
    law_view_tuple6_events(s.children, event, path.push(3), m[4], m[3], a[3]);
    let ghost j: int = 4;
    assert(s.children.child_processed(c + j, event, path.push((c + j) as u64), m[j + 1], m[j], a[j]));
    law_view_tuple6_events(s.children, event, path.push(4), m[5], m[4], a[4]);
    let ghost j: int = 5;
    assert(s.children.child_processed(c + j, event, path.push((c + j) as u64), m[j + 1], m[j], a[j]));
    law_view_tuple6_events(s.children, event, path.push(5), m[6], m[5], a[5]);
    assert(m.len() == 7 && total(a) == added);
}

/// A stack of 7 views hands an event to each of its views in turn, the
/// last (front-most) first, each at the stack's path extended by its
/// position and in the context the one after it left; the actions added are
/// those the views add.
pub proof fn law_stack7_events<D: 'static, V0: DynView<D>, V1: DynView<D>, V2: DynView<D>, V3: DynView<D>, V4: DynView<D>, V5: DynView<D>, V6: DynView<D>, Dir: StackDirection>(
    s: Stack<(V0, V1, V2, V3, V4, V5, V6), Dir>,
    event: Event<D>,
    path: Seq<u64>,
    before: Context,
    after: Context,
    added: nat,
)
    requires
        s.processed(event, path, before, after, added),
    ensures
        exists|m: Seq<Context>, a: Seq<nat>|
            #![trigger total(a), m.len()]
            m.len() == 8 && a.len() == 7 && m[0] == after && m[7] == before && total(a) == added
            && s.children.0.processed(event, path.push(0), m[1], m[0], a[0])
            && s.children.1.processed(event, path.push(1), m[2], m[1], a[1])
            && s.children.2.processed(event, path.push(2), m[3], m[2], a[2])
            && s.children.3.processed(event, path.push(3), m[4], m[3], a[3])
            && s.children.4.processed(event, path.push(4), m[5], m[4], a[4])
            && s.children.5.processed(event, path.push(5), m[6], m[5], a[5])
            && s.children.6.processed(event, path.push(6), m[7], m[6], a[6]),
{
    lemma_processed_in_turn(s.children, event, path, before, after, added, 0, 7);
    let (m, a) = choose|m: Seq<Context>, a: Seq<nat>|
        #[trigger] handled_in_turn(s.children, event, path, m, a, 0, 7)
        && m[0] == after && m[7] == before && total(a) == added;
    let ghost c: nat = 0;
    let ghost j: int = 0;
    assert(s.children.child_processed(c + j, event, path.push((c + j) as u64), m[j + 1], m[j], a[j]));
    law_view_tuple7_events(s.children, event, path.push(0), m[1], m[0], a[0]);
    let ghost j: int = 1;
    assert(s.children.child_processed(c + j, event, path.push((c + j) as u64), m[j + 1], m[j], a[j]));
    law_view_tuple7_events(s.children, event, path.push(1), m[2], m[1], a[1]);
    let ghost j: int = 2;
    assert(s.children.child_processed(c + j, event, path.push((c + j) as u64), m[j + 1], m[j], a[j]));
    law_view_tuple7_events(s.children, event, path.push(2), m[3], m[2], a[2]);
    let ghost j: int = 3;
    assert(s.children.child_processed(c + j, event, path.push((c + j) as u64), m[j + 1], m[j], a[j]));
    law_view_tuple7_events(s.children, event, path.push(3), m[4], m[3], a[3]);
    let ghost j: int = 4;
    assert(s.children.child_processed(c + j, event, path.push((c + j) as u64), m[j + 1], m[j], a[j]));
    law_view_tuple7_events(s.children, event, path.push(4), m[5], m[4], a[4]);
    let ghost j: int = 5;
    assert(s.children.child_processed(c + j, event, path.push((c + j) as u64), m[j + 1], m[j], a[j]));
    law_view_tuple7_events(s.children, event, path.push(5), m[6], m[5], a[5]);
    let ghost j: int = 6;
    assert(s.children.child_processed(c + j, event, path.push((c + j) as u64), m[j + 1], m[j], a[j]));
    law_view_tuple7_events(s.children, event, path.push(6), m[7], m[6], a[6]);
    assert(m.len() == 8 && total(a) == added);
}

/// A stack of 8 views hands an event to each of its views in turn, the
/// last (front-most) first, each at the stack's path extended by its
/// position and in the context the one after it left; the actions added are
/// those the views add.
pub proof fn law_stack8_events<D: 'static, V0: DynView<D>, V1: DynView<D>, V2: DynView<D>, V3: DynView<D>, V4: DynView<D>, V5: DynView<D>, V6: DynView<D>, V7: DynView<D>, Dir: StackDirection>(
    s: Stack<(V0, V1, V2, V3, V4, V5, V6, V7), Dir>,
    event: Event<D>,
    path: Seq<u64>,
    before: Context,
    after: Context,
    added: nat,
)
    requires
        s.processed(event, path, before, after, added),
    ensures
        exists|m: Seq<Context>, a: Seq<nat>|
            #![trigger total(a), m.len()]
            m.len() == 9 && a.len() == 8 && m[0] == after && m[8] == before && total(a) == added
            && s.children.0.processed(event, path.push(0), m[1], m[0], a[0])
            && s.children.1.processed(event, path.push(1), m[2], m[1], a[1])
            && s.children.2.processed(event, path.push(2), m[3], m[2], a[2])
            && s.children.3.processed(event, path.push(3), m[4], m[3], a[3])
            && s.children.4.processed(event, path.push(4), m[5], m[4], a[4])
            && s.children.5.processed(event, path.push(5), m[6], m[5], a[5])
            && s.children.6.processed(event, path.push(6), m[7], m[6], a[6])
            && s.children.7.processed(event, path.push(7), m[8], m[7], a[7]),
{
    lemma_processed_in_turn(s.children, event, path, before, after, added, 0, 8);
    let (m, a) = choose|m: Seq<Context>, a: Seq<nat>|
        #[trigger] handled_in_turn(s.children, event, path, m, a, 0, 8)
        && m[0] == after && m[8] == before && total(a) == added;
    let ghost c: nat = 0;
    let ghost j: int = 0;
    assert(s.children.child_processed(c + j, event, path.push((c + j) as u64), m[j + 1], m[j], a[j]));
    law_view_tuple8_events(s.children, event, path.push(0), m[1], m[0], a[0]);
    let ghost j: int = 1;
    assert(s.children.child_processed(c + j, event, path.push((c + j) as u64), m[j + 1], m[j], a[j]));
    law_view_tuple8_events(s.children, event, path.push(1), m[2], m[1], a[1]);
    let ghost j: int = 2;
    assert(s.children.child_processed(c + j, event, path.push((c + j) as u64), m[j + 1], m[j], a[j]));
    law_view_tuple8_events(s.children, event, path.push(2), m[3], m[2], a[2]);
    let ghost j: int = 3;
    assert(s.children.child_processed(c + j, event, path.push((c + j) as u64), m[j + 1], m[j], a[j]));
    law_view_tuple8_events(s.children, event, path.push(3), m[4], m[3], a[3]);
    let ghost j: int = 4;
    assert(s.children.child_processed(c + j, event, path.push((c + j) as u64), m[j + 1], m[j], a[j]));
    law_view_tuple8_events(s.children, event, path.push(4), m[5], m[4], a[4]);
    let ghost j: int = 5;
    assert(s.children.child_processed(c + j, event, path.push((c + j) as u64), m[j + 1], m[j], a[j]));
    law_view_tuple8_events(s.children, event, path.push(5), m[6], m[5], a[5]);
    let ghost j: int = 6;
    assert(s.children.child_processed(c + j, event, path.push((c + j) as u64), m[j + 1], m[j], a[j]));
    law_view_tuple8_events(s.children, event, path.push(6), m[7], m[6], a[6]);
    let ghost j: int = 7;
    assert(s.children.child_processed(c + j, event, path.push((c + j) as u64), m[j + 1], m[j], a[j]));
    law_view_tuple8_events(s.children, event, path.push(7), m[8], m[7], a[7]);
    assert(m.len() == 9 && total(a) == added);
}

/// A stack of 9 views hands an event to each of its views in turn, the
/// last (front-most) first, each at the stack's path extended by its
/// position and in the context the one after it left; the actions added are
/// those the views add.
pub proof fn law_stack9_events<D: 'static, V0: DynView<D>, V1: DynView<D>, V2: DynView<D>, V3: DynView<D>, V4: DynView<D>, V5: DynView<D>, V6: DynView<D>, V7: DynView<D>, V8: DynView<D>, Dir: StackDirection>(
    s: Stack<(V0, V1, V2, V3, V4, V5, V6, V7, V8), Dir>,
    event: Event<D>,
    path: Seq<u64>,
    before: Context,
    after: Context,
    added: nat,
)
    requires
        s.processed(event, path, before, after, added),
    ensures
        exists|m: Seq<Context>, a: Seq<nat>|
            #![trigger total(a), m.len()]
            m.len() == 10 && a.len() == 9 && m[0] == after && m[9] == before && total(a) == added
            && s.children.0.processed(event, path.push(0), m[1], m[0], a[0])
            && s.children.1.processed(event, path.push(1), m[2], m[1], a[1])
            && s.children.2.processed(event, path.push(2), m[3], m[2], a[2])
            && s.children.3.processed(event, path.push(3), m[4], m[3], a[3])
            && s.children.4.processed(event, path.push(4), m[5], m[4], a[4])
            && s.children.5.processed(event, path.push(5), m[6], m[5], a[5])
            && s.children.6.processed(event, path.push(6), m[7], m[6], a[6])
            && s.children.7.processed(event, path.push(7), m[8], m[7], a[7])
            && s.children.8.processed(event, path.push(8), m[9], m[8], a[8]),
{
    lemma_processed_in_turn(s.children, event, path, before, after, added, 0, 9);
    let (m, a) = choose|m: Seq<Context>, a: Seq<nat>|
        #[trigger] handled_in_turn(s.children, event, path, m, a, 0, 9)
        && m[0] == after && m[9] == before && total(a) == added;
    let ghost c: nat = 0;
    let ghost j: int = 0;
    assert(s.children.child_processed(c + j, event, path.push((c + j) as u64), m[j + 1], m[j], a[j]));
    law_view_tuple9_events(s.children, event, path.push(0), m[1], m[0], a[0]);
    let ghost j: int = 1;
    assert(s.children.child_processed(c + j, event, path.push((c + j) as u64), m[j + 1], m[j], a[j]));
    law_view_tuple9_events(s.children, event, path.push(1), m[2], m[1], a[1]);
    let ghost j: int = 2;
    assert(s.children.child_processed(c + j, event, path.push((c + j) as u64), m[j + 1], m[j], a[j]));
    law_view_tuple9_events(s.children, event, path.push(2), m[3], m[2], a[2]);
    let ghost j: int = 3;
    assert(s.children.child_processed(c + j, event, path.push((c + j) as u64), m[j + 1], m[j], a[j]));
    law_view_tuple9_events(s.children, event, path.push(3), m[4], m[3], a[3]);
    let ghost j: int = 4;
    assert(s.children.child_processed(c + j, event, path.push((c + j) as u64), m[j + 1], m[j], a[j]));
    law_view_tuple9_events(s.children, event, path.push(4), m[5], m[4], a[4]);
    let ghost j: int = 5;
    assert(s.children.child_processed(c + j, event, path.push((c + j) as u64), m[j + 1], m[j], a[j]));
    law_view_tuple9_events(s.children, event, path.push(5), m[6], m[5], a[5]);
    let ghost j: int = 6;
    assert(s.children.child_processed(c + j, event, path.push((c + j) as u64), m[j + 1], m[j], a[j]));
    law_view_tuple9_events(s.children, event, path.push(6), m[7], m[6], a[6]);
    let ghost j: int = 7;
    assert(s.children.child_processed(c + j, event, path.push((c + j) as u64), m[j + 1], m[j], a[j]));
    law_view_tuple9_events(s.children, event, path.push(7), m[8], m[7], a[7]);
    let ghost j: int = 8;
    assert(s.children.child_processed(c + j, event, path.push((c + j) as u64), m[j + 1], m[j], a[j]));
    law_view_tuple9_events(s.children, event, path.push(8), m[9], m[8], a[8]);
    assert(m.len() == 10 && total(a) == added);
}

/// A stack of 10 views hands an event to each of its views in turn, the
/// last (front-most) first, each at the stack's path extended by its
/// position and in the context the one after it left; the actions added are
/// those the views add.
pub proof fn law_stack10_events<D: 'static, V0: DynView<D>, V1: DynView<D>, V2: DynView<D>, V3: DynView<D>, V4: DynView<D>, V5: DynView<D>, V6: DynView<D>, V7: DynView<D>, V8: DynView<D>, V9: DynView<D>, Dir: StackDirection>(
    s: Stack<(V0, V1, V2, V3, V4, V5, V6, V7, V8, V9), Dir>,
    event: Event<D>,
    path: Seq<u64>,
    before: Context,
    after: Context,
    added: nat,
)
    requires
        s.processed(event, path, before, after, added),
    ensures
        exists|m: Seq<Context>, a: Seq<nat>|
            #![trigger total(a), m.len()]
            m.len() == 11 && a.len() == 10 && m[0] == after && m[10] == before && total(a) == added
            && s.children.0.processed(event, path.push(0), m[1], m[0], a[0])
            && s.children.1.processed(event, path.push(1), m[2], m[1], a[1])
            && s.children.2.processed(event, path.push(2), m[3], m[2], a[2])
            && s.children.3.processed(event, path.push(3), m[4], m[3], a[3])
            && s.children.4.processed(event, path.push(4), m[5], m[4], a[4])
            && s.children.5.processed(event, path.push(5), m[6], m[5], a[5])
            && s.children.6.processed(event, path.push(6), m[7], m[6], a[6])
            && s.children.7.processed(event, path.push(7), m[8], m[7], a[7])
            && s.children.8.processed(event, path.push(8), m[9], m[8], a[8])
            && s.children.9.processed(event, path.push(9), m[10], m[9], a[9]),
{
    lemma_processed_in_turn(s.children, event, path, before, after, added, 0, 10);
    let (m, a) = choose|m: Seq<Context>, a: Seq<nat>|
        #[trigger] handled_in_turn(s.children, event, path, m, a, 0, 10)
        && m[0] == after && m[10] == before && total(a) == added;
    let ghost c: nat = 0;
    let ghost j: int = 0;
    assert(s.children.child_processed(c + j, event, path.push((c + j) as u64), m[j + 1], m[j], a[j]));
    law_view_tuple10_events(s.children, event, path.push(0), m[1], m[0], a[0]);
    let ghost j: int = 1;
    assert(s.children.child_processed(c + j, event, path.push((c + j) as u64), m[j + 1], m[j], a[j]));
    law_view_tuple10_events(s.children, event, path.push(1), m[2], m[1], a[1]);
    let ghost j: int = 2;
    assert(s.children.child_processed(c + j, event, path.push((c + j) as u64), m[j + 1], m[j], a[j]));
    law_view_tuple10_events(s.children, event, path.push(2), m[3], m[2], a[2]);
    let ghost j: int = 3;
    assert(s.children.child_processed(c + j, event, path.push((c + j) as u64), m[j + 1], m[j], a[j]));
    law_view_tuple10_events(s.children, event, path.push(3), m[4], m[3], a[3]);
    let ghost j: int = 4;
    assert(s.children.child_processed(c + j, event, path.push((c + j) as u64), m[j + 1], m[j], a[j]));
    law_view_tuple10_events(s.children, event, path.push(4), m[5], m[4], a[4]);
    let ghost j: int = 5;
    assert(s.children.child_processed(c + j, event, path.push((c + j) as u64), m[j + 1], m[j], a[j]));
    law_view_tuple10_events(s.children, event, path.push(5), m[6], m[5], a[5]);
    let ghost j: int = 6;
    assert(s.children.child_processed(c + j, event, path.push((c + j) as u64), m[j + 1], m[j], a[j]));
    law_view_tuple10_events(s.children, event, path.push(6), m[7], m[6], a[6]);
    let ghost j: int = 7;
    assert(s.children.child_processed(c + j, event, path.push((c + j) as u64), m[j + 1], m[j], a[j]));
    law_view_tuple10_events(s.children, event, path.push(7), m[8], m[7], a[7]);
    let ghost j: int = 8;
    assert(s.children.child_processed(c + j, event, path.push((c + j) as u64), m[j + 1], m[j], a[j]));
    law_view_tuple10_events(s.children, event, path.push(8), m[9], m[8], a[8]);
    let ghost j: int = 9;
    assert(s.children.child_processed(c + j, event, path.push((c + j) as u64), m[j + 1], m[j], a[j]));
    law_view_tuple10_events(s.children, event, path.push(9), m[10], m[9], a[9]);
    assert(m.len() == 11 && total(a) == added);
}

/// A group of 1 commands lists, after the commands of its view, the names
/// and hotkeys of its commands in order; a command event runs every command
/// of the group that carries the event's name, and its view handles every
/// event.
pub proof fn law_command_group1<D: 'static, V: DynView<D>, C0: CommandBase>(
    g: CommandGroup<V, (C0,)>,
    event: Event<D>,
    path: Seq<u64>,
    cx: Context,
    before: Context,
    after: Context,
    added: nat,
)
    ensures
        g.menu(path, cx) == g.child.menu(path.push(0), cx) + seq![(g.cmds.0.spec_name(), g.cmds.0.spec_key())],
        g.processed(event, path, before, after, added) ==> {
            &&& g.child.processed(event, path.push(0), before, after, added)
            &&& event is Command ==> {
                &&& g.cmds.0.spec_name() == event->Command_0@ ==> g.cmds.0.ran()
            }
        },
{
    law_command_tuple1(g.cmds);
    assert(group_menu(g.cmds) =~= seq![(g.cmds.0.spec_name(), g.cmds.0.spec_key())]);
    if g.processed(event, path, before, after, added) && event is Command {
        assert(g.cmds.name_at(0) == g.cmds.0.spec_name());
    }
}

/// A group of 2 commands lists, after the commands of its view, the names
/// and hotkeys of its commands in order; a command event runs every command
/// of the group that carries the event's name, and its view handles every
/// event.
pub proof fn law_command_group2<D: 'static, V: DynView<D>, C0: CommandBase, C1: CommandBase>(
    g: CommandGroup<V, (C0, C1)>,
    event: Event<D>,
    path: Seq<u64>,
    cx: Context,
    before: Context,
    after: Context,
    added: nat,
)
    ensures
        g.menu(path, cx) == g.child.menu(path.push(0), cx) + seq![(g.cmds.0.spec_name(), g.cmds.0.spec_key()), (g.cmds.1.spec_name(), g.cmds.1.spec_key())],
        g.processed(event, path, before, after, added) ==> {
            &&& g.child.processed(event, path.push(0), before, after, added)
            &&& event is Command ==> {
                &&& g.cmds.0.spec_name() == event->Command_0@ ==> g.cmds.0.ran()
                &&& g.cmds.1.spec_name() == event->Command_0@ ==> g.cmds.1.ran()
            }
        },
{
    law_command_tuple2(g.cmds);
    assert(group_menu(g.cmds) =~= seq![(g.cmds.0.spec_name(), g.cmds.0.spec_key()), (g.cmds.1.spec_name(), g.cmds.1.spec_key())]);
    if g.processed(event, path, before, after, added) && event is Command {
        assert(g.cmds.name_at(0) == g.cmds.0.spec_name());
        assert(g.cmds.name_at(1) == g.cmds.1.spec_name());
    }
}

/// A group of 3 commands lists, after the commands of its view, the names
/// and hotkeys of its commands in order; a command event runs every command
/// of the group that carries the event's name, and its view handles every
/// event.
pub proof fn law_command_group3<D: 'static, V: DynView<D>, C0: CommandBase, C1: CommandBase, C2: CommandBase>(
    g: CommandGroup<V, (C0, C1, C2)>,
    event: Event<D>,
    path: Seq<u64>,
    cx: Context,
    before: Context,
    after: Context,
    added: nat,
)
    ensures
        g.menu(path, cx) == g.child.menu(path.push(0), cx) + seq![(g.cmds.0.spec_name(), g.cmds.0.spec_key()), (g.cmds.1.spec_name(), g.cmds.1.spec_key()), (g.cmds.2.spec_name(), g.cmds.2.spec_key())],
        g.processed(event, path, before, after, added) ==> {
            &&& g.child.processed(event, path.push(0), before, after, added)
            &&& event is Command ==> {
                &&& g.cmds.0.spec_name() == event->Command_0@ ==> g.cmds.0.ran()
                &&& g.cmds.1.spec_name() == event->Command_0@ ==> g.cmds.1.ran()
                &&& g.cmds.2.spec_name() == event->Command_0@ ==> g.cmds.2.ran()
            }
        },
{
    law_command_tuple3(g.cmds);
    assert(group_menu(g.cmds) =~= seq![(g.cmds.0.spec_name(), g.cmds.0.spec_key()), (g.cmds.1.spec_name(), g.cmds.1.spec_key()), (g.cmds.2.spec_name(), g.cmds.2.spec_key())]);
    if g.processed(event, path, before, after, added) && event is Command {
        assert(g.cmds.name_at(0) == g.cmds.0.spec_name());
        assert(g.cmds.name_at(1) == g.cmds.1.spec_name());
        assert(g.cmds.name_at(2) == g.cmds.2.spec_name());
    }
}

/// A group of 4 commands lists, after the commands of its view, the names
/// and hotkeys of its commands in order; a command event runs every command
/// of the group that carries the event's name, and its view handles every
/// event.
pub proof fn law_command_group4<D: 'static, V: DynView<D>, C0: CommandBase, C1: CommandBase, C2: CommandBase, C3: CommandBase>(
    g: CommandGroup<V, (C0, C1, C2, C3)>,
    event: Event<D>,
    path: Seq<u64>,
    cx: Context,
    before: Context,
    after: Context,
    added: nat,
)
    ensures
        g.menu(path, cx) == g.child.menu(path.push(0), cx) + seq![(g.cmds.0.spec_name(), g.cmds.0.spec_key()), (g.cmds.1.spec_name(), g.cmds.1.spec_key()), (g.cmds.2.spec_name(), g.cmds.2.spec_key()), (g.cmds.3.spec_name(), g.cmds.3.spec_key())],
        g.processed(event, path, before, after, added) ==> {
            &&& g.child.processed(event, path.push(0), before, after, added)
            &&& event is Command ==> {
                &&& g.cmds.0.spec_name() == event->Command_0@ ==> g.cmds.0.ran()
                &&& g.cmds.1.spec_name() == event->Command_0@ ==> g.cmds.1.ran()
                &&& g.cmds.2.spec_name() == event->Command_0@ ==> g.cmds.2.ran()
                &&& g.cmds.3.spec_name() == event->Command_0@ ==> g.cmds.3.ran()
            }
        },
{
    law_command_tuple4(g.cmds);
    assert(group_menu(g.cmds) =~= seq![(g.cmds.0.spec_name(), g.cmds.0.spec_key()), (g.cmds.1.spec_name(), g.cmds.1.spec_key()), (g.cmds.2.spec_name(), g.cmds.2.spec_key()), (g.cmds.3.spec_name(), g.cmds.3.spec_key())]);
    if g.processed(event, path, before, after, added) && event is Command {
        assert(g.cmds.name_at(0) == g.cmds.0.spec_name());
        assert(g.cmds.name_at(1) == g.cmds.1.spec_name());
        assert(g.cmds.name_at(2) == g.cmds.2.spec_name());
        assert(g.cmds.name_at(3) == g.cmds.3.spec_name());
    }
}

/// A group of 5 commands lists, after the commands of its view, the names
/// and hotkeys of its commands in order; a command event runs every command
/// of the group that carries the event's name, and its view handles every
/// event.
pub proof fn law_command_group5<D: 'static, V: DynView<D>, C0: CommandBase, C1: CommandBase, C2: CommandBase, C3: CommandBase, C4: CommandBase>(
    g: CommandGroup<V, (C0, C1, C2, C3, C4)>,
    event: Event<D>,
    path: Seq<u64>,
    cx: Context,
    before: Context,
    after: Context,
    added: nat,
)
    ensures
        g.menu(path, cx) == g.child.menu(path.push(0), cx) + seq![(g.cmds.0.spec_name(), g.cmds.0.spec_key()), (g.cmds.1.spec_name(), g.cmds.1.spec_key()), (g.cmds.2.spec_name(), g.cmds.2.spec_key()), (g.cmds.3.spec_name(), g.cmds.3.spec_key()), (g.cmds.4.spec_name(), g.cmds.4.spec_key())],
        g.processed(event, path, before, after, added) ==> {
            &&& g.child.processed(event, path.push(0), before, after, added)
            &&& event is Command ==> {
                &&& g.cmds.0.spec_name() == event->Command_0@ ==> g.cmds.0.ran()
                &&& g.cmds.1.spec_name() == event->Command_0@ ==> g.cmds.1.ran()
                &&& g.cmds.2.spec_name() == event->Command_0@ ==> g.cmds.2.ran()
                &&& g.cmds.3.spec_name() == event->Command_0@ ==> g.cmds.3.ran()
                &&& g.cmds.4.spec_name() == event->Command_0@ ==> g.cmds.4.ran()
            }
        },
{
    law_command_tuple5(g.cmds);
    assert(group_menu(g.cmds) =~= seq![(g.cmds.0.spec_name(), g.cmds.0.spec_key()), (g.cmds.1.spec_name(), g.cmds.1.spec_key()), (g.cmds.2.spec_name(), g.cmds.2.spec_key()), (g.cmds.3.spec_name(), g.cmds.3.spec_key()), (g.cmds.4.spec_name(), g.cmds.4.spec_key())]);
    if g.processed(event, path, before, after, added) && event is Command {
        assert(g.cmds.name_at(0) == g.cmds.0.spec_name());
        assert(g.cmds.name_at(1) == g.cmds.1.spec_name());
        assert(g.cmds.name_at(2) == g.cmds.2.spec_name());
        assert(g.cmds.name_at(3) == g.cmds.3.spec_name());
        assert(g.cmds.name_at(4) == g.cmds.4.spec_name());
    }
}

/// A group of 6 commands lists, after the commands of its view, the names
/// and hotkeys of its commands in order; a command event runs every command
/// of the group that carries the event's name, and its view handles every
/// event.
pub proof fn law_command_group6<D: 'static, V: DynView<D>, C0: CommandBase, C1: CommandBase, C2: CommandBase, C3: CommandBase, C4: CommandBase, C5: CommandBase>(
    g: CommandGroup<V, (C0, C1, C2, C3, C4, C5)>,
    event: Event<D>,
    path: Seq<u64>,
    cx: Context,
    before: Context,
    after: Context,
    added: nat,
)
    ensures
        g.menu(path, cx) == g.child.menu(path.push(0), cx) + seq![(g.cmds.0.spec_name(), g.cmds.0.spec_key()), (g.cmds.1.spec_name(), g.cmds.1.spec_key()), (g.cmds.2.spec_name(), g.cmds.2.spec_key()), (g.cmds.3.spec_name(), g.cmds.3.spec_key()), (g.cmds.4.spec_name(), g.cmds.4.spec_key()), (g.cmds.5.spec_name(), g.cmds.5.spec_key())],
        g.processed(event, path, before, after, added) ==> {
            &&& g.child.processed(event, path.push(0), before, after, added)
            &&& event is Command ==> {
                &&& g.cmds.0.spec_name() == event->Command_0@ ==> g.cmds.0.ran()
                &&& g.cmds.1.spec_name() == event->Command_0@ ==> g.cmds.1.ran()
                &&& g.cmds.2.spec_name() == event->Command_0@ ==> g.cmds.2.ran()
                &&& g.cmds.3.spec_name() == event->Command_0@ ==> g.cmds.3.ran()
                &&& g.cmds.4.spec_name() == event->Command_0@ ==> g.cmds.4.ran()
                &&& g.cmds.5.spec_name() == event->Command_0@ ==> g.cmds.5.ran()
            }
        },
{
    law_command_tuple6(g.cmds);
    assert(group_menu(g.cmds) =~= seq![(g.cmds.0.spec_name(), g.cmds.0.spec_key()), (g.cmds.1.spec_name(), g.cmds.1.spec_key()), (g.cmds.2.spec_name(), g.cmds.2.spec_key()), (g.cmds.3.spec_name(), g.cmds.3.spec_key()), (g.cmds.4.spec_name(), g.cmds.4.spec_key()), (g.cmds.5.spec_name(), g.cmds.5.spec_key())]);
    if g.processed(event, path, before, after, added) && event is Command {
        assert(g.cmds.name_at(0) == g.cmds.0.spec_name());
        assert(g.cmds.name_at(1) == g.cmds.1.spec_name());
        assert(g.cmds.name_at(2) == g.cmds.2.spec_name());
        assert(g.cmds.name_at(3) == g.cmds.3.spec_name());
        assert(g.cmds.name_at(4) == g.cmds.4.spec_name());
        assert(g.cmds.name_at(5) == g.cmds.5.spec_name());
    }
}

/// A group of 7 commands lists, after the commands of its view, the names
/// and hotkeys of its commands in order; a command event runs every command
/// of the group that carries the event's name, and its view handles every
/// event.
pub proof fn law_command_group7<D: 'static, V: DynView<D>, C0: CommandBase, C1: CommandBase, C2: CommandBase, C3: CommandBase, C4: CommandBase, C5: CommandBase, C6: CommandBase>(
    g: CommandGroup<V, (C0, C1, C2, C3, C4, C5, C6)>,
    event: Event<D>,
    path: Seq<u64>,
    cx: Context,
    before: Context,
    after: Context,
    added: nat,
)
    ensures
        g.menu(path, cx) == g.child.menu(path.push(0), cx) + seq![(g.cmds.0.spec_name(), g.cmds.0.spec_key()), (g.cmds.1.spec_name(), g.cmds.1.spec_key()), (g.cmds.2.spec_name(), g.cmds.2.spec_key()), (g.cmds.3.spec_name(), g.cmds.3.spec_key()), (g.cmds.4.spec_name(), g.cmds.4.spec_key()), (g.cmds.5.spec_name(), g.cmds.5.spec_key()), (g.cmds.6.spec_name(), g.cmds.6.spec_key())],
        g.processed(event, path, before, after, added) ==> {
            &&& g.child.processed(event, path.push(0), before, after, added)
            &&& event is Command ==> {
                &&& g.cmds.0.spec_name() == event->Command_0@ ==> g.cmds.0.ran()
                &&& g.cmds.1.spec_name() == event->Command_0@ ==> g.cmds.1.ran()
                &&& g.cmds.2.spec_name() == event->Command_0@ ==> g.cmds.2.ran()
                &&& g.cmds.3.spec_name() == event->Command_0@ ==> g.cmds.3.ran()
                &&& g.cmds.4.spec_name() == event->Command_0@ ==> g.cmds.4.ran()
                &&& g.cmds.5.spec_name() == event->Command_0@ ==> g.cmds.5.ran()
                &&& g.cmds.6.spec_name() == event->Command_0@ ==> g.cmds.6.ran()
            }
        },
{
    law_command_tuple7(g.cmds);
    assert(group_menu(g.cmds) =~= seq![(g.cmds.0.spec_name(), g.cmds.0.spec_key()), (g.cmds.1.spec_name(), g.cmds.1.spec_key()), (g.cmds.2.spec_name(), g.cmds.2.spec_key()), (g.cmds.3.spec_name(), g.cmds.3.spec_key()), (g.cmds.4.spec_name(), g.cmds.4.spec_key()), (g.cmds.5.spec_name(), g.cmds.5.spec_key()), (g.cmds.6.spec_name(), g.cmds.6.spec_key())]);
    if g.processed(event, path, before, after, added) && event is Command {
        assert(g.cmds.name_at(0) == g.cmds.0.spec_name());
        assert(g.cmds.name_at(1) == g.cmds.1.spec_name());
        assert(g.cmds.name_at(2) == g.cmds.2.spec_name());
        assert(g.cmds.name_at(3) == g.cmds.3.spec_name());
        assert(g.cmds.name_at(4) == g.cmds.4.spec_name());
        assert(g.cmds.name_at(5) == g.cmds.5.spec_name());
        assert(g.cmds.name_at(6) == g.cmds.6.spec_name());
    }
}

/// A group of 8 commands lists, after the commands of its view, the names
/// and hotkeys of its commands in order; a command event runs every command
/// of the group that carries the event's name, and its view handles every
/// event.
pub proof fn law_command_group8<D: 'static, V: DynView<D>, C0: CommandBase, C1: CommandBase, C2: CommandBase, C3: CommandBase, C4: CommandBase, C5: CommandBase, C6: CommandBase, C7: CommandBase>(
    g: CommandGroup<V, (C0, C1, C2, C3, C4, C5, C6, C7)>,
    event: Event<D>,
    path: Seq<u64>,
    cx: Context,
    before: Context,
    after: Context,
    added: nat,
)
    ensures
        g.menu(path, cx) == g.child.menu(path.push(0), cx) + seq![(g.cmds.0.spec_name(), g.cmds.0.spec_key()), (g.cmds.1.spec_name(), g.cmds.1.spec_key()), (g.cmds.2.spec_name(), g.cmds.2.spec_key()), (g.cmds.3.spec_name(), g.cmds.3.spec_key()), (g.cmds.4.spec_name(), g.cmds.4.spec_key()), (g.cmds.5.spec_name(), g.cmds.5.spec_key()), (g.cmds.6.spec_name(), g.cmds.6.spec_key()), (g.cmds.7.spec_name(), g.cmds.7.spec_key())],
        g.processed(event, path, before, after, added) ==> {
            &&& g.child.processed(event, path.push(0), before, after, added)
            &&& event is Command ==> {
                &&& g.cmds.0.spec_name() == event->Command_0@ ==> g.cmds.0.ran()
                &&& g.cmds.1.spec_name() == event->Command_0@ ==> g.cmds.1.ran()
                &&& g.cmds.2.spec_name() == event->Command_0@ ==> g.cmds.2.ran()
                &&& g.cmds.3.spec_name() == event->Command_0@ ==> g.cmds.3.ran()
                &&& g.cmds.4.spec_name() == event->Command_0@ ==> g.cmds.4.ran()
                &&& g.cmds.5.spec_name() == event->Command_0@ ==> g.cmds.5.ran()
                &&& g.cmds.6.spec_name() == event->Command_0@ ==> g.cmds.6.ran()
                &&& g.cmds.7.spec_name() == event->Command_0@ ==> g.cmds.7.ran()
            }
        },
{
    law_command_tuple8(g.cmds);
    assert(group_menu(g.cmds) =~= seq![(g.cmds.0.spec_name(), g.cmds.0.spec_key()), (g.cmds.1.spec_name(), g.cmds.1.spec_key()), (g.cmds.2.spec_name(), g.cmds.2.spec_key()), (g.cmds.3.spec_name(), g.cmds.3.spec_key()), (g.cmds.4.spec_name(), g.cmds.4.spec_key()), (g.cmds.5.spec_name(), g.cmds.5.spec_key()), (g.cmds.6.spec_name(), g.cmds.6.spec_key()), (g.cmds.7.spec_name(), g.cmds.7.spec_key())]);
    if g.processed(event, path, before, after, added) && event is Command {
        assert(g.cmds.name_at(0) == g.cmds.0.spec_name());
        assert(g.cmds.name_at(1) == g.cmds.1.spec_name());
        assert(g.cmds.name_at(2) == g.cmds.2.spec_name());
        assert(g.cmds.name_at(3) == g.cmds.3.spec_name());
        assert(g.cmds.name_at(4) == g.cmds.4.spec_name());
        assert(g.cmds.name_at(5) == g.cmds.5.spec_name());
        assert(g.cmds.name_at(6) == g.cmds.6.spec_name());
        assert(g.cmds.name_at(7) == g.cmds.7.spec_name());
    }
}

} // verus!
