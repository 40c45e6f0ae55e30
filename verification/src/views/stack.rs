//! Stacks: tuples of views laid out side by side, on top of each other or
//! back to front. Child `c` of a stack sits at the stack's path extended by `c`.
use vstd::prelude::*;
use std::marker::PhantomData;
use crate::access::{access_of, accesskit_role, lemma_access_push, role, AccessEntry, AccessNode, RoleName};
use crate::context::Context;
use crate::event::{Event, HotKey};
use crate::id::{IdPath, ViewId, path_id, view_id};
use crate::view::{menu_of, Action, CommandInfo, DynView, ViewCore, extends, lemma_hit_under_parent};
use crate::viewtuple::{ViewTuple, ViewTupleOf};

verus! {

/// How the views of a stack are arranged.
#[derive(Clone, Copy, PartialEq, Eq, Debug, Structural)]
pub enum StackOrientation {
    /// Views are stacked horizontally (right to left).
    Horizontal,
    /// Views are stacked vertically (top to bottom).
    Vertical,
    /// Views are stacked back to front.
    Z,
}

/// Selects the orientation of a stack by type.
pub trait StackDirection: 'static {
    spec fn spec_orientation() -> StackOrientation;

    fn orientation() -> (o: StackOrientation)
        ensures
            o == Self::spec_orientation(),
    ;
}

/// Children are laid out horizontally.
pub struct HorizontalDirection {}

impl StackDirection for HorizontalDirection {
    open spec fn spec_orientation() -> StackOrientation {
        StackOrientation::Horizontal
    }

    fn orientation() -> (o: StackOrientation) {
        StackOrientation::Horizontal
    }
}

/// Children are laid out vertically.
pub struct VerticalDirection {}

impl StackDirection for VerticalDirection {
    open spec fn spec_orientation() -> StackOrientation {
        StackOrientation::Vertical
    }

    fn orientation() -> (o: StackOrientation) {
        StackOrientation::Vertical
    }
}

/// Children are laid out back to front.
pub struct ZDirection {}

impl StackDirection for ZDirection {
    open spec fn spec_orientation() -> StackOrientation {
        StackOrientation::Z
    }

    fn orientation() -> (o: StackOrientation) {
        StackOrientation::Z
    }
}

/// A stack of the views of the tuple `VT`, arranged as `Dir` says.
pub struct Stack<VT, Dir> {
    pub children: VT,
    pub phantom_direction: PhantomData<Dir>,
}

impl<VT: ViewTuple, Dir: StackDirection> Stack<VT, Dir> {
    /// A stack of `children`.
    pub fn new(children: VT) -> (s: Self)
        ensures
            s.children == children,
    {
        Self { children, phantom_direction: PhantomData }
    }

    /// How the children are arranged.
    pub fn orientation(&self) -> (o: StackOrientation)
        ensures
            o == Dir::spec_orientation(),
    {
        Dir::orientation()
    }
}

/// The hit of the last of the first `n` views of `vt` that has one, each
/// view sitting at `path` extended by its position.
pub open spec fn tuple_hit<VT: ViewTuple>(vt: VT, path: Seq<u64>, hits: Seq<Seq<u64>>, cx: Context, n: nat) -> Option<ViewId>
    decreases n,
{
    if n == 0 {
        None
    } else {
        let c = (n - 1) as nat;
        match vt.child_hit(c as int, path.push(c as u64), hits, cx) {
            Some(v) => Some(v),
            None => tuple_hit(vt, path, hits, cx, c),
        }
    }
}

/// The menu commands of the first `n` views of `vt`, in order.
pub open spec fn tuple_menu<VT: ViewTuple>(vt: VT, path: Seq<u64>, cx: Context, n: nat) -> Seq<(Seq<char>, Option<HotKey>)>
    decreases n,
{
    if n == 0 {
        Seq::empty()
    } else {
        let c = (n - 1) as nat;
        tuple_menu(vt, path, cx, c) + vt.child_menu(c as int, path.push(c as u64), cx)
    }
}

/// For each of the first `n` views of `vt`, its id followed by the ids it keeps.
pub open spec fn tuple_kept<VT: ViewTuple>(vt: VT, path: Seq<u64>, cx: Context, n: nat) -> Seq<ViewId>
    decreases n,
{
    if n == 0 {
        Seq::empty()
    } else {
        let c = (n - 1) as nat;
        tuple_kept(vt, path, cx, c) + seq![path_id(path.push(c as u64))] + vt.child_kept(c as int, path.push(c as u64), cx)
    }
}

/// The accessibility nodes of the first `n` views of `vt`, in order.
pub open spec fn tuple_access_nodes<VT: ViewTuple>(vt: VT, path: Seq<u64>, cx: Context, n: nat) -> Seq<AccessEntry>
    decreases n,
{
    if n == 0 {
        Seq::empty()
    } else {
        let c = (n - 1) as nat;
        tuple_access_nodes(vt, path, cx, c) + vt.child_access_nodes(c as int, path.push(c as u64), cx)
    }
}

/// The ids of the nodes of the first `n` views of `vt` that have one, in order.
pub open spec fn tuple_access_children<VT: ViewTuple>(vt: VT, path: Seq<u64>, cx: Context, n: nat) -> Seq<u64>
    decreases n,
{
    if n == 0 {
        Seq::empty()
    } else {
        let c = (n - 1) as nat;
        tuple_access_children(vt, path, cx, c) + match vt.child_access_root(c as int, path.push(c as u64), cx) {
            Some(id) => seq![id],
            None => Seq::empty(),
        }
    }
}

impl<VT: ViewTuple, Dir: StackDirection> ViewCore for Stack<VT, Dir> {
    open spec fn wf(&self) -> bool {
        self.children.wf()
    }

    open spec fn flexible(&self) -> bool {
        false
    }

    /// The hit of the last child that has one.
    open spec fn hit(&self, path: Seq<u64>, hits: Seq<Seq<u64>>, cx: Context) -> Option<ViewId> {
        tuple_hit(self.children, path, hits, cx, self.children.spec_len())
    }

    /// The commands of the children, in order.
    open spec fn menu(&self, path: Seq<u64>, cx: Context) -> Seq<(Seq<char>, Option<HotKey>)> {
        tuple_menu(self.children, path, cx, self.children.spec_len())
    }

    /// The stack's own id, then for each child its id followed by the ids
    /// under it.
    open spec fn kept(&self, path: Seq<u64>, cx: Context) -> Seq<ViewId> {
        seq![path_id(path)] + tuple_kept(self.children, path, cx, self.children.spec_len())
    }

    /// The children's nodes, then the stack's own: a list whose children are
    /// the children's own nodes, in order.
    open spec fn access_nodes(&self, path: Seq<u64>, cx: Context) -> Seq<AccessEntry> {
        tuple_access_nodes(self.children, path, cx, self.children.spec_len()).push((
            path_id(path).id,
            accesskit_role(RoleName::List),
            tuple_access_children(self.children, path, cx, self.children.spec_len()),
            None,
        ))
    }

    open spec fn access_root(&self, path: Seq<u64>, cx: Context) -> Option<u64> {
        Some(path_id(path).id)
    }

    fn hittest(&self, path: &mut IdPath, hits: &Vec<IdPath>, cx: &Context) -> (r: Option<ViewId>) {
        let n = self.children.len();
        let ghost p0 = path@;
        let mut c = n;
        while c > 0
            invariant
                n == self.children.spec_len(),
                c <= n,
                self.children.wf(),
                path@ == p0,
                self.hit(p0, hits.deep_view(), *cx) == tuple_hit(self.children, p0, hits.deep_view(), *cx, c as nat),
            p0 == old(path)@,
                decreases c,
        {
            c -= 1;
            path.push(c as u64);
            let h = self.children.hittest_child(c, path, hits, cx);
            path.pop();
            if let Some(v) = h {
                proof {
                    lemma_hit_under_parent(hits.deep_view(), p0, c as u64, v);
                }
                return h;
            }
        }
        None
    }

    fn commands(&self, path: &mut IdPath, cx: &mut Context, cmds: &mut Vec<CommandInfo>) {
        let n = self.children.len();
        let ghost p0 = path@;
        let ghost c0 = cmds@;
        let ghost cx0 = *cx;
        for c in 0..n
            invariant
                n == self.children.spec_len(),
                self.children.wf(),
                path@ == p0,
                *cx == cx0,
                menu_of(cmds@) == menu_of(c0) + tuple_menu(self.children, p0, cx0, c as nat),
        {
            let ghost before = cmds@;
            path.push(c as u64);
            self.children.commands_child(c, path, cx, cmds);
            path.pop();
            proof {
                assert(menu_of(cmds@) =~= menu_of(c0) + tuple_menu(self.children, p0, cx0, (c + 1) as nat));
            }
        }
    }

    fn gc(&self, path: &mut IdPath, cx: &mut Context, map: &mut Vec<ViewId>) {
        let ghost p0 = path@;
        let ghost m0 = map@;
        let ghost cx0 = *cx;
        map.push(view_id(path));
        let n = self.children.len();
        for c in 0..n
            invariant
                n == self.children.spec_len(),
                self.children.wf(),
                path@ == p0,
                *cx == cx0,
                map@ == m0 + seq![path_id(p0)] + tuple_kept(self.children, p0, cx0, c as nat),
        {
            path.push(c as u64);
            map.push(view_id(path));
            self.children.gc_child(c, path, cx, map);
            path.pop();
            proof {
                assert(map@ =~= m0 + seq![path_id(p0)] + tuple_kept(self.children, p0, cx0, (c + 1) as nat));
            }
        }
        proof {
            assert(map@ =~= m0 + self.kept(p0, cx0));
        }
    }

    fn access(&self, path: &mut IdPath, cx: &Context, nodes: &mut Vec<AccessNode>) -> (r: Option<u64>) {
        let n = self.children.len();
        let ghost p0 = path@;
        let ghost a0 = nodes@;
        let mut children: Vec<u64> = Vec::new();
        for c in 0..n
            invariant
                n == self.children.spec_len(),
                self.children.wf(),
                path@ == p0,
                access_of(nodes@) == access_of(a0) + tuple_access_nodes(self.children, p0, *cx, c as nat),
                children@ == tuple_access_children(self.children, p0, *cx, c as nat),
        {
            path.push(c as u64);
            let id = self.children.access_child(c, path, cx, nodes);
            path.pop();
            match id {
                Some(i) => children.push(i),
                None => {},
            }
            proof {
                assert(access_of(nodes@) =~= access_of(a0) + tuple_access_nodes(self.children, p0, *cx, (c + 1) as nat));
                assert(children@ =~= tuple_access_children(self.children, p0, *cx, (c + 1) as nat));
            }
        }
        let aid = view_id(path).id;
        let node = AccessNode { id: aid, role: role(RoleName::List), children, name: None };
        let ghost before = nodes@;
        proof {
            lemma_access_push(before, node);
        }
        nodes.push(node);
        assert(access_of(nodes@) =~= access_of(a0) + self.access_nodes(p0, *cx));
        Some(aid)
    }

    fn is_flexible(&self) -> (b: bool) {
        false
    }
}

/// Handling `event` by the views `c..n` of `vt`, the last one first, each
/// sitting at `path` extended by its position: the views after `c` turn
/// `before` into some `mid`, then view `c` turns `mid` into `after`.
pub open spec fn tuple_processed<D, VT: ViewTupleOf<D>>(
    vt: VT,
    event: Event<D>,
    path: Seq<u64>,
    before: Context,
    after: Context,
    added: nat,
    c: nat,
    n: nat,
) -> bool
    decreases n - c,
{
    if c >= n {
        after == before && added == 0
    } else {
        exists|mid: Context, a: nat|
            #![trigger vt.child_processed(c as int, event, path.push(c as u64), mid, after, a)]
            a <= added
            && tuple_processed(vt, event, path, before, mid, (added - a) as nat, (c + 1) as nat, n)
            && vt.child_processed(c as int, event, path.push(c as u64), mid, after, a)
    }
}

/// One more view handled: `c` after the views `c + 1..n`.
proof fn lemma_tuple_processed_step<D, VT: ViewTupleOf<D>>(
    vt: VT,
    event: Event<D>,
    path: Seq<u64>,
    before: Context,
    mid: Context,
    after: Context,
    a1: nat,
    a2: nat,
    c: nat,
    n: nat,
)
    requires
        c < n,
        tuple_processed(vt, event, path, before, mid, a1, (c + 1) as nat, n),
        vt.child_processed(c as int, event, path.push(c as u64), mid, after, a2),
    ensures
        tuple_processed(vt, event, path, before, after, a1 + a2, c, n),
{
    assert(((a1 + a2) - a2) as nat == a1);
}

impl<D: 'static, VT: ViewTupleOf<D>, Dir: StackDirection> DynView<D> for Stack<VT, Dir> {
    open spec fn ready(&self) -> bool {
        self.children.ready()
    }

    /// Children handle the event last to first, the front-most first, each
    /// in the context the one after it left.
    open spec fn processed(&self, event: Event<D>, path: Seq<u64>, before: Context, after: Context, added: nat) -> bool {
        tuple_processed(self.children, event, path, before, after, added, 0, self.children.spec_len())
    }

    fn process(&self, event: &Event<D>, path: &mut IdPath, cx: &mut Context, actions: &mut Vec<Action>) {
        let n = self.children.len();
        let ghost p0 = path@;
        let ghost a0 = actions@;
        let ghost cx0 = *cx;
        let mut c = n;
        while c > 0
            invariant
                n == self.children.spec_len(),
                self.children.wf(),
                self.children.ready(),
                event.wf(),
                c <= n,
                path@ == p0,
                extends(a0, actions@),
                tuple_processed(self.children, *event, p0, cx0, *cx, (actions@.len() - a0.len()) as nat, c as nat, n as nat),
            decreases c,
        {
            c -= 1;
            let ghost mid = *cx;
            let ghost a1 = (actions@.len() - a0.len()) as nat;
            let ghost len_mid = actions@.len();
            path.push(c as u64);
            self.children.process_child(c, event, path, cx, actions);
            path.pop();
            proof {
                let a2 = (actions@.len() - len_mid) as nat;
                lemma_tuple_processed_step(self.children, *event, p0, cx0, mid, *cx, a1, a2, c as nat, n as nat);
            }
        }
    }
}

/// Horizontal stack of up to 10 views in a tuple (`ViewTuple` is implemented
/// for tuples of 1 to 10 views). Each item can be a different view type.
pub fn hstack<VT: ViewTuple>(children: VT) -> (s: Stack<VT, HorizontalDirection>)
    ensures
        s.children == children,
{
    Stack::<VT, HorizontalDirection>::new(children)
}

/// Vertical stack of up to 10 views in a tuple (`ViewTuple` is implemented for
/// tuples of 1 to 10 views). Each item can be a different view type.
pub fn vstack<VT: ViewTuple>(children: VT) -> (s: Stack<VT, VerticalDirection>)
    ensures
        s.children == children,
{
    Stack::<VT, VerticalDirection>::new(children)
}

/// Stack of up to 10 overlaid views in a tuple (`ViewTuple` is implemented for
/// tuples of 1 to 10 views). Each item can be a different view type.
pub fn zstack<VT: ViewTuple>(children: VT) -> (s: Stack<VT, ZDirection>)
    ensures
        s.children == children,
{
    Stack::<VT, ZDirection>::new(children)
}

} // verus!
