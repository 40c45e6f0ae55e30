//! The view protocol: what every view does when the tree is walked.
use vstd::prelude::*;
use std::any::{Any, TypeId};
use std::collections::hash_map::DefaultHasher;
use std::hash::{Hash, Hasher};
use vstd::std_specs::hash::DefaultHasherAdditionalSpecFns;
use crate::access::{access_of, AccessEntry, AccessNode};
use crate::context::Context;
use crate::event::{Event, HotKey};
use crate::id::{IdPath, ViewId, is_prefix, path_id, view_id};

verus! {

/// A value produced by a view's callback while it handles an event, passed
/// up to the views above it.
#[verifier::external_body]
pub struct Action {
    inner: Box<dyn Any>,
}

impl Action {
    /// Boxes `a` as an action (`Box::new`).
    #[verifier::external_body]
    pub fn new<A: 'static>(a: A) -> (r: Action) {
        Action { inner: Box::new(a) }
    }

    /// The action's value if it is an `A` (`<dyn Any>::downcast_ref`).
    /// Nothing is stated of which actions are an `A`.
    #[verifier::external_body]
    pub fn downcast_ref<A: 'static>(&self) -> (r: Option<&A>) {
        self.inner.downcast_ref::<A>()
    }
}

#[verifier::external_type_specification]
#[verifier::external_body]
pub struct ExTypeId(TypeId);

/// The `TypeId` of `T` (`TypeId::of`). Nothing is stated of it.
#[verifier::external_body]
fn type_id_of<T: ?Sized + 'static>() -> (t: TypeId) {
    TypeId::of::<T>()
}

/// Feeds `t` to `state` (`Hash::hash`). Nothing is stated of what is fed.
#[verifier::external_body]
fn hash_into<T: Hash + ?Sized>(t: &T, state: &mut DefaultHasher) {
    t.hash(state)
}

/// A hash of `t`: what a `DefaultHasher` gives for the chunks that `t`'s
/// `Hash` impl fed to it. Which chunks those are is not stated.
pub(crate) fn hash_value<T: Hash + ?Sized>(t: &T) -> (h: u64)
    ensures
        exists|fed: Seq<Seq<u8>>| h == #[trigger] DefaultHasher::spec_finish(fed),
{
    let mut state = DefaultHasher::new();
    hash_into(t, &mut state);
    state.finish()
}

/// A menu command offered by a view.
#[derive(Debug)]
pub struct CommandInfo {
    pub path: String,
    pub key: Option<HotKey>,
}

/// `old` is a prefix of `new`: what was there stays, in order.
pub open spec fn extends<T>(old: Seq<T>, new: Seq<T>) -> bool {
    old.len() <= new.len() && forall|i: int| 0 <= i < old.len() ==> new[i] == old[i]
}

/// `v` is the id of one of the hit leaves at or under `path`.
pub open spec fn hit_under(hits: Seq<Seq<u64>>, path: Seq<u64>, v: ViewId) -> bool {
    exists|i: int| 0 <= i < hits.len() && is_prefix(path, #[trigger] hits[i]) && v == path_id(hits[i])
}

/// Extending a path keeps what hits under the longer path under the shorter one.
pub proof fn lemma_hit_under_parent(hits: Seq<Seq<u64>>, path: Seq<u64>, c: u64, v: ViewId)
    requires
        hit_under(hits, path.push(c), v),
    ensures
        hit_under(hits, path, v),
{
    let i = choose|i: int| 0 <= i < hits.len() && is_prefix(path.push(c), #[trigger] hits[i]) && v == path_id(hits[i]);
    let n = path.len() as int;
    assert(hits[i].subrange(0, n) =~= hits[i].subrange(0, n + 1).subrange(0, n));
    assert(path.push(c).subrange(0, n) =~= path);
    assert(is_prefix(path, hits[i]));
}

/// A menu command as contracts see it: its name and its hotkey.
pub open spec fn menu_entry(c: CommandInfo) -> (Seq<char>, Option<HotKey>) {
    (c.path@, c.key)
}

/// The names and hotkeys of a list of menu commands.
pub open spec fn menu_of(cmds: Seq<CommandInfo>) -> Seq<(Seq<char>, Option<HotKey>)> {
    cmds.map_values(|c: CommandInfo| menu_entry(c))
}

/// Pushing a command adds its entry at the end of the menu.
pub proof fn lemma_menu_push(cmds: Seq<CommandInfo>, c: CommandInfo)
    ensures
        menu_of(cmds.push(c)) == menu_of(cmds).push(menu_entry(c)),
{
    assert(menu_of(cmds.push(c)) =~= menu_of(cmds).push(menu_entry(c)));
}

/// The parts of a view that do not depend on the event type: hit testing,
/// menu commands and the ids of the views it holds.
///
/// Every method is given the path of the view in `path` and leaves `path`
/// as it found it.
pub trait ViewCore: 'static {
    /// The view and the callbacks it holds can handle every call.
    spec fn wf(&self) -> bool;

    /// The view takes up the space left in a stack.
    spec fn flexible(&self) -> bool;

    /// The leaf hit among `hits` when the view sits at `path`, if any.
    spec fn hit(&self, path: Seq<u64>, hits: Seq<Seq<u64>>, cx: Context) -> Option<ViewId>;

    /// The menu commands of the view tree at `path`, in order.
    spec fn menu(&self, path: Seq<u64>, cx: Context) -> Seq<(Seq<char>, Option<HotKey>)>;

    /// The ids of the views at or under `path` that keep state, in order.
    spec fn kept(&self, path: Seq<u64>, cx: Context) -> Seq<ViewId>;

    /// The accessibility nodes of the view tree at `path`, in the order they
    /// are added.
    spec fn access_nodes(&self, path: Seq<u64>, cx: Context) -> Seq<AccessEntry>;

    /// The id of the accessibility node of the view tree at `path`, if it
    /// has one.
    spec fn access_root(&self, path: Seq<u64>, cx: Context) -> Option<u64>;

    /// The view hit among `hits` (the paths of the leaves under a point), if
    /// any. A hit is always one of `hits` under the view's path.
    fn hittest(&self, path: &mut IdPath, hits: &Vec<IdPath>, cx: &Context) -> (r: Option<ViewId>)
        requires
            self.wf(),
        ensures
            final(path)@ == old(path)@,
            r == self.hit(old(path)@, hits.deep_view(), *cx),
            r matches Some(v) ==> hit_under(hits.deep_view(), old(path)@, v),
    ;

    /// Appends the menu commands of the view tree to `cmds`.
    fn commands(&self, path: &mut IdPath, cx: &mut Context, cmds: &mut Vec<CommandInfo>)
        requires
            self.wf(),
        ensures
            final(path)@ == old(path)@,
            *final(cx) == *old(cx),
            menu_of(final(cmds)@) == menu_of(old(cmds)@) + self.menu(old(path)@, *old(cx)),
    ;

    /// Appends the ids of the views that keep state to `map`.
    fn gc(&self, path: &mut IdPath, cx: &mut Context, map: &mut Vec<ViewId>)
        requires
            self.wf(),
        ensures
            final(path)@ == old(path)@,
            *final(cx) == *old(cx),
            final(map)@ == old(map)@ + self.kept(old(path)@, *old(cx)),
    ;

    /// Adds the accessibility nodes of the view tree to `nodes` and returns
    /// the id of the tree's own node, if it has one.
    fn access(&self, path: &mut IdPath, cx: &Context, nodes: &mut Vec<AccessNode>) -> (r: Option<u64>)
        requires
            self.wf(),
        ensures
            final(path)@ == old(path)@,
            access_of(final(nodes)@) == access_of(old(nodes)@) + self.access_nodes(old(path)@, *cx),
            r == self.access_root(old(path)@, *cx),
    ;

    /// Whether the view takes up the space left in a stack.
    fn is_flexible(&self) -> (b: bool)
        ensures
            b == self.flexible(),
    ;

    /// The type of the view.
    fn tid(&self) -> TypeId {
        type_id_of::<Self>()
    }
}

/// `a` and `b` hold the same indices.
pub fn same_path(a: &IdPath, b: &IdPath) -> (r: bool)
    ensures
        r == (a@ == b@),
{
    if a.len() != b.len() {
        return false;
    }
    let mut i: usize = 0;
    while i < a.len()
        invariant
            a@.len() == b@.len(),
            i <= a@.len(),
            forall|j: int| 0 <= j < i ==> a@[j] == b@[j],
        decreases a@.len() - i,
    {
        if a[i] != b[i] {
            return false;
        }
        i += 1;
    }
    proof {
        assert(a@ =~= b@);
    }
    true
}

/// Whether `path` is one of `hits`.
pub fn path_in(path: &IdPath, hits: &Vec<IdPath>) -> (r: bool)
    ensures
        r == exists|i: int| 0 <= i < hits@.len() && (#[trigger] hits.deep_view()[i]) == path@,
{
    let mut i: usize = 0;
    while i < hits.len()
        invariant
            i <= hits@.len(),
            forall|j: int| 0 <= j < i ==> (#[trigger] hits.deep_view()[j]) != path@,
        decreases hits@.len() - i,
    {
        assert(hits.deep_view()[i as int] =~= hits@[i as int]@);
        if same_path(&hits[i], path) {
            return true;
        }
        i += 1;
    }
    false
}

/// The hit of a leaf at `path`: its own id when `path` is one of `hits`.
pub open spec fn leaf_hit(path: Seq<u64>, hits: Seq<Seq<u64>>) -> Option<ViewId> {
    if hits.contains(path) {
        Some(path_id(path))
    } else {
        None
    }
}

/// A leaf's hit test: its own id when its path is one of `hits`.
pub fn leaf_hittest(path: &IdPath, hits: &Vec<IdPath>) -> (r: Option<ViewId>)
    ensures
        r == leaf_hit(path@, hits.deep_view()),
        r matches Some(v) ==> hit_under(hits.deep_view(), path@, v),
{
    if path_in(path, hits) {
        let v = view_id(path);
        proof {
            let i = choose|i: int| 0 <= i < hits@.len() && (#[trigger] hits.deep_view()[i]) == path@;
            assert(is_prefix(path@, hits.deep_view()[i])) by {
                assert(hits.deep_view()[i].subrange(0, path@.len() as int) =~= path@);
            }
            assert(hits.deep_view().contains(path@));
        }
        Some(v)
    } else {
        None
    }
}

/// A view: a node of the tree that handles events whose pointer movements
/// are of type `D`.
pub trait DynView<D>: ViewCore {
    /// The callbacks that take pointer movements accept every call.
    spec fn ready(&self) -> bool;

    /// Handling `event` at `path` may turn the context `before` into `after`
    /// while adding `added` actions.
    spec fn processed(&self, event: Event<D>, path: Seq<u64>, before: Context, after: Context, added: nat) -> bool;

    /// Handles an event, appending the actions of callbacks to `actions`.
    fn process(&self, event: &Event<D>, path: &mut IdPath, cx: &mut Context, actions: &mut Vec<Action>)
        requires
            self.wf(),
            self.ready(),
            event.wf(),
        ensures
            final(path)@ == old(path)@,
            extends(old(actions)@, final(actions)@),
            self.processed(*event, old(path)@, *old(cx), *final(cx), (final(actions)@.len() - old(actions)@.len()) as nat),
    ;
}

} // verus!
