//! Lists: one view per item of a vector, each under the hash of its item.
use vstd::prelude::*;
use std::hash::Hash;
use crate::access::{access_of, accesskit_role, lemma_access_push, role, AccessEntry, AccessNode, RoleName};
use crate::context::Context;
use crate::event::{Event, HotKey};
use crate::id::{IdPath, ViewId, path_id, view_id};
use crate::view::{menu_of, Action, CommandInfo, DynView, ViewCore, extends, hash_value, lemma_hit_under_parent};

verus! {

/// How the views of a list are arranged.
#[derive(Clone, Copy, PartialEq, Eq, Debug, Structural)]
pub enum ListOrientation {
    Horizontal,
    Vertical,
    Z,
}

/// A list of the views that `func` builds for the items `ids`. The view of
/// item `i` sits under the hash `keys[i]` of the item.
pub struct List<ID, F> {
    pub orientation: ListOrientation,
    pub ids: Vec<ID>,
    pub keys: Vec<u64>,
    pub func: F,
}

/// The view that `f` builds for `id`.
pub open spec fn item_view<ID, V, F: Fn(&ID) -> V>(f: F, id: &ID) -> V {
    choose|v: V| f.ensures((id,), v)
}

/// `f` builds the same view each time it is given the same item.
pub open spec fn builds_items_deterministically<ID, V, F: Fn(&ID) -> V>(f: F) -> bool {
    forall|id: &ID, v1: V, v2: V| #[trigger] f.ensures((id,), v1) && #[trigger] f.ensures((id,), v2) ==> v1 == v2
}

/// A view that `f` returned for `id` is the one it builds.
pub proof fn lemma_item_view<ID, V, F: Fn(&ID) -> V>(f: F, id: &ID, v: V)
    requires
        f.ensures((id,), v),
        builds_items_deterministically(f),
    ensures
        item_view(f, id) == v,
{
}

/// The hit of the last of the first `n` items' views that has one.
pub open spec fn list_hit<ID, V: ViewCore, F: Fn(&ID) -> V>(
    ids: Seq<ID>,
    keys: Seq<u64>,
    f: F,
    path: Seq<u64>,
    hits: Seq<Seq<u64>>,
    cx: Context,
    n: nat,
) -> Option<ViewId>
    decreases n,
{
    if n == 0 {
        None
    } else {
        let c = (n - 1) as int;
        match item_view(f, &ids[c]).hit(path.push(keys[c]), hits, cx) {
            Some(v) => Some(v),
            None => list_hit(ids, keys, f, path, hits, cx, c as nat),
        }
    }
}

/// The menu commands of the first `n` items' views, in order.
pub open spec fn list_menu<ID, V: ViewCore, F: Fn(&ID) -> V>(
    ids: Seq<ID>,
    keys: Seq<u64>,
    f: F,
    path: Seq<u64>,
    cx: Context,
    n: nat,
) -> Seq<(Seq<char>, Option<HotKey>)>
    decreases n,
{
    if n == 0 {
        Seq::empty()
    } else {
        let c = (n - 1) as int;
        list_menu(ids, keys, f, path, cx, c as nat) + item_view(f, &ids[c]).menu(path.push(keys[c]), cx)
    }
}

/// For each of the first `n` items, the id of its view followed by the ids
/// that view keeps.
pub open spec fn list_kept<ID, V: ViewCore, F: Fn(&ID) -> V>(
    ids: Seq<ID>,
    keys: Seq<u64>,
    f: F,
    path: Seq<u64>,
    cx: Context,
    n: nat,
) -> Seq<ViewId>
    decreases n,
{
    if n == 0 {
        Seq::empty()
    } else {
        let c = (n - 1) as int;
        list_kept(ids, keys, f, path, cx, c as nat) + seq![path_id(path.push(keys[c]))]
            + item_view(f, &ids[c]).kept(path.push(keys[c]), cx)
    }
}

/// The accessibility nodes of the views of the first `n` items, in order.
pub open spec fn list_access_nodes<ID, V: ViewCore, F: Fn(&ID) -> V>(
    ids: Seq<ID>,
    keys: Seq<u64>,
    f: F,
    path: Seq<u64>,
    cx: Context,
    n: nat,
) -> Seq<AccessEntry>
    decreases n,
{
    if n == 0 {
        Seq::empty()
    } else {
        let c = (n - 1) as int;
        list_access_nodes(ids, keys, f, path, cx, c as nat) + item_view(f, &ids[c]).access_nodes(path.push(keys[c]), cx)
    }
}

/// The ids of the nodes of the views of the first `n` items that have one,
/// in order.
pub open spec fn list_access_children<ID, V: ViewCore, F: Fn(&ID) -> V>(
    ids: Seq<ID>,
    keys: Seq<u64>,
    f: F,
    path: Seq<u64>,
    cx: Context,
    n: nat,
) -> Seq<u64>
    decreases n,
{
    if n == 0 {
        Seq::empty()
    } else {
        let c = (n - 1) as int;
        list_access_children(ids, keys, f, path, cx, c as nat) + match item_view(f, &ids[c]).access_root(path.push(keys[c]), cx) {
            Some(id) => seq![id],
            None => Seq::empty(),
        }
    }
}

impl<ID: Hash + 'static, V: ViewCore, F: Fn(&ID) -> V + 'static> ViewCore for List<ID, F> {
    open spec fn wf(&self) -> bool {
        &&& self.keys@.len() == self.ids@.len()
        &&& forall|id: &ID| self.func.requires((id,))
        &&& forall|id: &ID, v: V| self.func.ensures((id,), v) ==> v.wf()
        &&& builds_items_deterministically(self.func)
    }

    open spec fn flexible(&self) -> bool {
        false
    }

    /// The items' nodes, then the list's own: a list whose children are the
    /// items' own nodes, in order.
    open spec fn access_nodes(&self, path: Seq<u64>, cx: Context) -> Seq<AccessEntry> {
        list_access_nodes(self.ids@, self.keys@, self.func, path, cx, self.ids@.len()).push((
            path_id(path).id,
            accesskit_role(RoleName::List),
            list_access_children(self.ids@, self.keys@, self.func, path, cx, self.ids@.len()),
            None,
        ))
    }

    open spec fn access_root(&self, path: Seq<u64>, cx: Context) -> Option<u64> {
        Some(path_id(path).id)
    }

    /// The hit of the last item's view that has one.
    open spec fn hit(&self, path: Seq<u64>, hits: Seq<Seq<u64>>, cx: Context) -> Option<ViewId> {
        list_hit(self.ids@, self.keys@, self.func, path, hits, cx, self.ids@.len())
    }

    /// The commands of the items' views, in order.
    open spec fn menu(&self, path: Seq<u64>, cx: Context) -> Seq<(Seq<char>, Option<HotKey>)> {
        list_menu(self.ids@, self.keys@, self.func, path, cx, self.ids@.len())
    }

    /// The list's own id, then for each item the id of its view followed by
    /// the ids under it.
    open spec fn kept(&self, path: Seq<u64>, cx: Context) -> Seq<ViewId> {
        seq![path_id(path)] + list_kept(self.ids@, self.keys@, self.func, path, cx, self.ids@.len())
    }

    fn hittest(&self, path: &mut IdPath, hits: &Vec<IdPath>, cx: &Context) -> (r: Option<ViewId>) {
        let ghost p0 = path@;
        let mut c = self.ids.len();
        while c > 0
            invariant
                c <= self.ids@.len(),
                self.wf(),
                path@ == p0,
                self.hit(p0, hits.deep_view(), *cx) == list_hit(self.ids@, self.keys@, self.func, p0, hits.deep_view(), *cx, c as nat),
            p0 == old(path)@,
                decreases c,
        {
            c -= 1;
            let k = self.keys[c];
            let child = (self.func)(&self.ids[c]);
            proof {
                lemma_item_view(self.func, &self.ids@[c as int], child);
            }
            path.push(k);
            let h = child.hittest(path, hits, cx);
            path.pop();
            if let Some(v) = h {
                proof {
                    lemma_hit_under_parent(hits.deep_view(), p0, k, v);
                }
                return h;
            }
        }
        None
    }

    fn commands(&self, path: &mut IdPath, cx: &mut Context, cmds: &mut Vec<CommandInfo>) {
        let ghost p0 = path@;
        let ghost c0 = cmds@;
        let ghost cx0 = *cx;
        let n = self.ids.len();
        for c in 0..n
            invariant
                n == self.ids@.len(),
                self.wf(),
                path@ == p0,
                *cx == cx0,
                menu_of(cmds@) == menu_of(c0) + list_menu(self.ids@, self.keys@, self.func, p0, cx0, c as nat),
        {
            let child = (self.func)(&self.ids[c]);
            proof {
                lemma_item_view(self.func, &self.ids@[c as int], child);
            }
            path.push(self.keys[c]);
            child.commands(path, cx, cmds);
            path.pop();
            proof {
                assert(menu_of(cmds@) =~= menu_of(c0) + list_menu(self.ids@, self.keys@, self.func, p0, cx0, (c + 1) as nat));
            }
        }
    }

    fn gc(&self, path: &mut IdPath, cx: &mut Context, map: &mut Vec<ViewId>) {
        let ghost p0 = path@;
        let ghost m0 = map@;
        let ghost cx0 = *cx;
        map.push(view_id(path));
        let n = self.ids.len();
        for c in 0..n
            invariant
                n == self.ids@.len(),
                self.wf(),
                path@ == p0,
                *cx == cx0,
                map@ == m0 + seq![path_id(p0)] + list_kept(self.ids@, self.keys@, self.func, p0, cx0, c as nat),
        {
            let child = (self.func)(&self.ids[c]);
            proof {
                lemma_item_view(self.func, &self.ids@[c as int], child);
            }
            path.push(self.keys[c]);
            map.push(view_id(path));
            child.gc(path, cx, map);
            path.pop();
            proof {
                assert(map@ =~= m0 + seq![path_id(p0)] + list_kept(self.ids@, self.keys@, self.func, p0, cx0, (c + 1) as nat));
            }
        }
        proof {
            assert(map@ =~= m0 + self.kept(p0, cx0));
        }
    }

    fn access(&self, path: &mut IdPath, cx: &Context, nodes: &mut Vec<AccessNode>) -> (r: Option<u64>) {
        let ghost p0 = path@;
        let ghost a0 = nodes@;
        let n = self.ids.len();
        let mut children: Vec<u64> = Vec::new();
        for c in 0..n
            invariant
                n == self.ids@.len(),
                self.wf(),
                path@ == p0,
                access_of(nodes@) == access_of(a0) + list_access_nodes(self.ids@, self.keys@, self.func, p0, *cx, c as nat),
                children@ == list_access_children(self.ids@, self.keys@, self.func, p0, *cx, c as nat),
        {
            let child = (self.func)(&self.ids[c]);
            proof {
                lemma_item_view(self.func, &self.ids@[c as int], child);
            }
            path.push(self.keys[c]);
            let id = child.access(path, cx, nodes);
            path.pop();
            match id {
                Some(i) => children.push(i),
                None => {},
            }
            proof {
                assert(access_of(nodes@) =~= access_of(a0) + list_access_nodes(self.ids@, self.keys@, self.func, p0, *cx, (c + 1) as nat));
                assert(children@ =~= list_access_children(self.ids@, self.keys@, self.func, p0, *cx, (c + 1) as nat));
            }
        }
        let aid = view_id(path).id;
        let node = AccessNode { id: aid, role: role(RoleName::List), children, name: None };
        let ghost before = nodes@;
        proof {
            lemma_access_push(before, node);
        }
        nodes.push(node);
        assert(access_of(nodes@) =~= access_of(a0) + self.access_nodes(p0, *cx));
        Some(aid)
    }

    fn is_flexible(&self) -> (b: bool) {
        false
    }
}

/// Handling `event` by the views of items `c..n`, the last one first: the
/// items after `c` turn `before` into some `mid`, then the view of item `c`
/// turns `mid` into `after`.
pub open spec fn list_processed<D, ID, V: DynView<D>, F: Fn(&ID) -> V>(
    ids: Seq<ID>,
    keys: Seq<u64>,
    f: F,
    event: Event<D>,
    path: Seq<u64>,
    before: Context,
    after: Context,
    added: nat,
    c: nat,
    n: nat,
) -> bool
    decreases n - c,
{
    if c >= n {
        after == before && added == 0
    } else {
        exists|mid: Context, a: nat|
            #![trigger item_view(f, &ids[c as int]).processed(event, path.push(keys[c as int]), mid, after, a)]
            a <= added
            && list_processed(ids, keys, f, event, path, before, mid, (added - a) as nat, (c + 1) as nat, n)
            && item_view(f, &ids[c as int]).processed(event, path.push(keys[c as int]), mid, after, a)
    }
}

/// One more item handled: `c` after the items `c + 1..n`.
proof fn lemma_list_processed_step<D, ID, V: DynView<D>, F: Fn(&ID) -> V>(
    ids: Seq<ID>,
    keys: Seq<u64>,
    f: F,
    event: Event<D>,
    path: Seq<u64>,
    before: Context,
    mid: Context,
    after: Context,
    a1: nat,
    a2: nat,
    c: nat,
    n: nat,
)
    requires
        c < n,
        list_processed(ids, keys, f, event, path, before, mid, a1, (c + 1) as nat, n),
        item_view(f, &ids[c as int]).processed(event, path.push(keys[c as int]), mid, after, a2),
    ensures
        list_processed(ids, keys, f, event, path, before, after, a1 + a2, c, n),
{
    assert(((a1 + a2) - a2) as nat == a1);
}

impl<D: 'static, ID: Hash + 'static, V: DynView<D>, F: Fn(&ID) -> V + 'static> DynView<D> for List<ID, F> {
    open spec fn ready(&self) -> bool {
        forall|id: &ID, v: V| self.func.ensures((id,), v) ==> v.ready()
    }

    /// The items' views handle the event, last item first, each in the
    /// context the one after it left.
    open spec fn processed(&self, event: Event<D>, path: Seq<u64>, before: Context, after: Context, added: nat) -> bool {
        list_processed(self.ids@, self.keys@, self.func, event, path, before, after, added, 0, self.ids@.len())
    }

    fn process(&self, event: &Event<D>, path: &mut IdPath, cx: &mut Context, actions: &mut Vec<Action>) {
        let ghost p0 = path@;
        let ghost a0 = actions@;
        let ghost cx0 = *cx;
        let n = self.ids.len();
        let mut c = n;
        while c > 0
            invariant
                n == self.ids@.len(),
                c <= n,
                self.wf(),
                self.ready(),
                event.wf(),
                path@ == p0,
                extends(a0, actions@),
                list_processed(self.ids@, self.keys@, self.func, *event, p0, cx0, *cx, (actions@.len() - a0.len()) as nat, c as nat, n as nat),
            decreases c,
        {
            c -= 1;
            let ghost mid = *cx;
            let ghost a1 = (actions@.len() - a0.len()) as nat;
            let ghost len_mid = actions@.len();
            let child = (self.func)(&self.ids[c]);
            proof {
                lemma_item_view(self.func, &self.ids@[c as int], child);
            }
            path.push(self.keys[c]);
            child.process(event, path, cx, actions);
            path.pop();
            proof {
                let a2 = (actions@.len() - len_mid) as nat;
                lemma_list_processed_step(self.ids@, self.keys@, self.func, *event, p0, cx0, mid, *cx, a1, a2, c as nat, n as nat);
            }
        }
    }
}

/// The hash of each item: the index under which its view sits.
fn item_keys<ID: Hash>(ids: &Vec<ID>) -> (keys: Vec<u64>)
    ensures
        keys@.len() == ids@.len(),
{
    let mut keys: Vec<u64> = Vec::new();
    let n = ids.len();
    for i in 0..n
        invariant
            n == ids@.len(),
            keys@.len() == i,
    {
        keys.push(hash_value(&ids[i]));
    }
    keys
}

/// Displays a list of items all of which are represented by the same View.
///
/// `ids` is a Vec of items that implement Hash.
///
/// `f` is a function called to generate a View for each item.
pub fn list<ID: Hash, V: ViewCore, F: Fn(&ID) -> V + 'static>(ids: Vec<ID>, f: F) -> (l: List<ID, F>)
    ensures
        l.orientation == ListOrientation::Vertical,
        l.ids == ids,
        l.keys@.len() == ids@.len(),
        l.func == f,
{
    let keys = item_keys(&ids);
    List { orientation: ListOrientation::Vertical, ids, keys, func: f }
}

/// A list whose views are laid out horizontally.
pub fn hlist<ID: Hash, V: ViewCore, F: Fn(&ID) -> V + 'static>(ids: Vec<ID>, f: F) -> (l: List<ID, F>)
    ensures
        l.orientation == ListOrientation::Horizontal,
        l.ids == ids,
        l.keys@.len() == ids@.len(),
        l.func == f,
{
    let keys = item_keys(&ids);
    List { orientation: ListOrientation::Horizontal, ids, keys, func: f }
}

/// A list whose views are laid out back to front.
pub fn zlist<ID: Hash, V: ViewCore, F: Fn(&ID) -> V + 'static>(ids: Vec<ID>, f: F) -> (l: List<ID, F>)
    ensures
        l.orientation == ListOrientation::Z,
        l.ids == ids,
        l.keys@.len() == ids@.len(),
        l.func == f,
{
    let keys = item_keys(&ids);
    List { orientation: ListOrientation::Z, ids, keys, func: f }
}

} // verus!
