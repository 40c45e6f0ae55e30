//! The decisions the window's event loop makes around the view tree: routing
//! an event to the root view and what to do with the cursor afterwards.
use vstd::prelude::*;
use crate::access::{access_of, AccessEntry, AccessNode};
use crate::context::Context;
use crate::event::{Event, HotKey};
use crate::view::{menu_of, Action, CommandInfo, DynView, ViewCore};

verus! {

/// What the window does with the cursor after an event.
#[derive(Clone, Copy, PartialEq, Eq, Debug, Structural)]
pub enum CursorGrab {
    /// Lock the cursor and hide it.
    Grab,
    /// Free the cursor and show it.
    Release,
    /// Leave the cursor as it is.
    Keep,
}

/// The cursor change for a context whose views ask for a grab (or not),
/// given whether the cursor was grabbed before.
pub open spec fn grab_change(cx: Context) -> CursorGrab {
    if cx.grab_cursor && !cx.prev_grab_cursor {
        CursorGrab::Grab
    } else if !cx.grab_cursor && cx.prev_grab_cursor {
        CursorGrab::Release
    } else {
        CursorGrab::Keep
    }
}

/// Decides the cursor change after an event and remembers the request as
/// the cursor's state.
pub fn update_cursor_grab(cx: &mut Context) -> (g: CursorGrab)
    ensures
        g == grab_change(*old(cx)),
        *final(cx) == (Context { prev_grab_cursor: old(cx).grab_cursor, ..*old(cx) }),
{
    let g = if cx.grab_cursor && !cx.prev_grab_cursor {
        CursorGrab::Grab
    } else if !cx.grab_cursor && cx.prev_grab_cursor {
        CursorGrab::Release
    } else {
        CursorGrab::Keep
    };
    cx.prev_grab_cursor = cx.grab_cursor;
    g
}

/// Routes `event` to the root view, which sits at path `[0]`, then decides
/// the cursor change. Returns that change and the actions no view handled.
pub fn process_event<D, V: DynView<D>>(cx: &mut Context, view: &V, event: &Event<D>) -> (r: (CursorGrab, Vec<Action>))
    requires
        view.wf(),
        view.ready(),
        event.wf(),
    ensures
        exists|mid: Context|
            #![trigger view.processed(*event, seq![0u64], *old(cx), mid, r.1@.len())]
            view.processed(*event, seq![0u64], *old(cx), mid, r.1@.len())
            && r.0 == grab_change(mid)
            && *final(cx) == (Context { prev_grab_cursor: mid.grab_cursor, ..mid }),
{
    let mut path: Vec<u64> = Vec::new();
    path.push(0);
    assert(path@ =~= seq![0u64]);
    let mut actions: Vec<Action> = Vec::new();
    let ghost cx0 = *cx;
    view.process(event, &mut path, cx, &mut actions);
    let ghost mid = *cx;
    assert(view.processed(*event, seq![0u64], cx0, mid, actions@.len()));
    let g = update_cursor_grab(cx);
    let r = (g, actions);
    assert(view.processed(*event, seq![0u64], cx0, mid, r.1@.len())
        && r.0 == grab_change(mid)
        && *cx == (Context { prev_grab_cursor: mid.grab_cursor, ..mid }));
    r
}

/// The menu commands of the view tree whose root sits at path `[0]`, in
/// order.
pub fn collect_commands<V: ViewCore>(cx: &mut Context, view: &V) -> (cmds: Vec<CommandInfo>)
    requires
        view.wf(),
    ensures
        *final(cx) == *old(cx),
        menu_of(cmds@) == view.menu(seq![0u64], *old(cx)),
{
    let mut path: Vec<u64> = Vec::new();
    path.push(0);
    assert(path@ =~= seq![0u64]);
    let mut cmds: Vec<CommandInfo> = Vec::new();
    assert(menu_of(cmds@) =~= Seq::<(Seq<char>, Option<HotKey>)>::empty());
    view.commands(&mut path, cx, &mut cmds);
    assert(menu_of(cmds@) =~= view.menu(seq![0u64], *old(cx)));
    cmds
}

/// The accessibility nodes of the view tree whose root sits at path `[0]`,
/// and the id of the root's own node.
pub fn collect_access<V: ViewCore>(cx: &Context, view: &V) -> (r: (Vec<AccessNode>, Option<u64>))
    requires
        view.wf(),
    ensures
        access_of(r.0@) == view.access_nodes(seq![0u64], *cx),
        r.1 == view.access_root(seq![0u64], *cx),
{
    let mut path: Vec<u64> = Vec::new();
    path.push(0);
    assert(path@ =~= seq![0u64]);
    let mut nodes: Vec<AccessNode> = Vec::new();
    assert(access_of(nodes@) =~= Seq::<AccessEntry>::empty());
    let root = view.access(&mut path, cx, &mut nodes);
    assert(access_of(nodes@) =~= view.access_nodes(seq![0u64], *cx));
    (nodes, root)
}

} // verus!
