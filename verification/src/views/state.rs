//! Per-view state: a value kept in the context under the id of the view
//! that asked for it, and the view that builds its content from it.
use vstd::prelude::*;
use std::marker::PhantomData;
use crate::access::{AccessEntry, AccessNode};
use crate::context::Context;
use crate::event::{Event, HotKey};
use crate::id::{IdPath, ViewId, path_id, view_id};
use crate::view::{Action, CommandInfo, DynView, ViewCore, lemma_hit_under_parent};

verus! {

/// Weak reference to the state kept by the view with id `id`.
pub struct State<S> {
    pub id: ViewId,
    pub phantom: PhantomData<S>,
}

impl<S> Clone for State<S> {
    fn clone(&self) -> (r: Self)
        ensures
            r.id == self.id,
    {
        State { id: self.id, phantom: PhantomData }
    }
}

impl<S> Copy for State<S> {}

impl<S: 'static> State<S> {
    /// A handle to the state of the view `id`.
    pub fn new(id: ViewId) -> (s: Self)
        ensures
            s.id == id,
    {
        Self { id, phantom: PhantomData }
    }

    /// The value kept for this state, if one is kept and it is an `S`.
    pub fn get<'a>(&self, cx: &'a Context) -> (r: Option<&'a S>)
        ensures
            r is Some ==> cx.has_state(self.id),
    {
        cx.get_state::<S>(self.id)
    }

    /// Replaces the value kept for this state with `s` and marks it changed;
    /// the states of other views stay.
    pub fn set(&self, cx: &mut Context, s: S)
        ensures
            final(cx).states@.dom() == old(cx).states@.dom().insert(self.id.id),
            final(cx).states@[self.id.id].dirty,
            forall|k: u64| k != self.id.id && old(cx).states@.contains_key(k) ==> final(cx).states@[k] == old(cx).states@[k],
            *final(cx) == (Context { states: final(cx).states, ..*old(cx) }),
    {
        cx.set_state(self.id, s);
    }

    /// Makes it convenient to get a function to set the value: calling it
    /// with a value and a context sets the value, as `set` does.
    pub fn setter(self) -> (f: impl Fn(S, &mut Context))
        ensures
            forall|s: S, c: &mut Context| f.requires((s, c)),
            forall|s: S, c: &mut Context| #[trigger] f.ensures((s, c), ()) ==> {
                &&& (*final(c)).states@.dom() == (*c).states@.dom().insert(self.id.id)
                &&& (*final(c)).states@[self.id.id].dirty
            },
    {
        let id = self.id;
        move |s: S, cx: &mut Context|
            ensures
                (*final(cx)).states@.dom() == (*old(cx)).states@.dom().insert(id.id),
                (*final(cx)).states@[id.id].dirty,
        {
            cx.set_state(id, s);
        }
    }
}

/// Struct for `state`: `default` makes the first value of the state,
/// `func` builds the content from the state and the context.
pub struct StateView<I, F> {
    pub default: I,
    pub func: F,
}

/// The view that `f` builds for the state of view `id` in the context `cx`.
pub open spec fn state_built<S, V, F: Fn(State<S>, &Context) -> V>(f: F, id: ViewId, cx: Context) -> V {
    choose|v: V| f.ensures((State::<S> { id, phantom: PhantomData }, &cx), v)
}

/// `f` builds the same view each time it is given the same state and
/// context.
pub open spec fn builds_states_deterministically<S, V, F: Fn(State<S>, &Context) -> V>(f: F) -> bool {
    forall|st: State<S>, c: &Context, v1: V, v2: V|
        #[trigger] f.ensures((st, c), v1) && #[trigger] f.ensures((st, c), v2) ==> v1 == v2
}

impl<S: 'static, V: ViewCore, I: Fn() -> S + 'static, F: Fn(State<S>, &Context) -> V + 'static> StateView<I, F> {
    /// Builds the content for the state of view `id`.
    fn build(&self, id: ViewId, cx: &Context) -> (v: V)
        requires
            self.wf(),
        ensures
            v == state_built(self.func, id, *cx),
            self.func.ensures((State::<S> { id, phantom: PhantomData }, cx), v),
            v.wf(),
    {
        let st = State::<S>::new(id);
        assert(st == State::<S> { id, phantom: PhantomData });
        let v = (self.func)(st, cx);
        v
    }
}

impl<S: 'static, V: ViewCore, I: Fn() -> S + 'static, F: Fn(State<S>, &Context) -> V + 'static> ViewCore for StateView<I, F> {
    open spec fn wf(&self) -> bool {
        &&& self.default.requires(())
        &&& forall|st: State<S>, c: &Context| self.func.requires((st, c))
        &&& forall|st: State<S>, c: &Context, v: V| #[trigger] self.func.ensures((st, c), v) ==> v.wf()
        &&& builds_states_deterministically(self.func)
    }

    open spec fn flexible(&self) -> bool {
        false
    }

    /// The hit of the content built for the view's state.
    open spec fn hit(&self, path: Seq<u64>, hits: Seq<Seq<u64>>, cx: Context) -> Option<ViewId> {
        state_built(self.func, path_id(path), cx).hit(path.push(0), hits, cx)
    }

    open spec fn menu(&self, path: Seq<u64>, cx: Context) -> Seq<(Seq<char>, Option<HotKey>)> {
        state_built(self.func, path_id(path), cx).menu(path.push(0), cx)
    }

    /// Its own id, whose state it keeps, then the ids kept by the content.
    open spec fn kept(&self, path: Seq<u64>, cx: Context) -> Seq<ViewId> {
        seq![path_id(path)] + state_built(self.func, path_id(path), cx).kept(path.push(0), cx)
    }

    open spec fn access_nodes(&self, path: Seq<u64>, cx: Context) -> Seq<AccessEntry> {
        state_built(self.func, path_id(path), cx).access_nodes(path.push(0), cx)
    }

    open spec fn access_root(&self, path: Seq<u64>, cx: Context) -> Option<u64> {
        state_built(self.func, path_id(path), cx).access_root(path.push(0), cx)
    }

    fn hittest(&self, path: &mut IdPath, hits: &Vec<IdPath>, cx: &Context) -> (r: Option<ViewId>) {
        let ghost p0 = path@;
        let child = self.build(view_id(path), cx);
        path.push(0);
        let id = child.hittest(path, hits, cx);
        path.pop();
        proof {
            if let Some(v) = id {
                lemma_hit_under_parent(hits.deep_view(), p0, 0, v);
            }
        }
        id
    }

    fn commands(&self, path: &mut IdPath, cx: &mut Context, cmds: &mut Vec<CommandInfo>) {
        let child = self.build(view_id(path), cx);
        path.push(0);
        child.commands(path, cx, cmds);
        path.pop();
    }

    fn gc(&self, path: &mut IdPath, cx: &mut Context, map: &mut Vec<ViewId>) {
        let ghost m0 = map@;
        let ghost p0 = path@;
        let ghost cx0 = *cx;
        let vid = view_id(path);
        map.push(vid);
        let child = self.build(vid, cx);
        path.push(0);
        child.gc(path, cx, map);
        path.pop();
        assert(map@ =~= m0 + self.kept(p0, cx0));
    }

    fn access(&self, path: &mut IdPath, cx: &Context, nodes: &mut Vec<AccessNode>) -> (r: Option<u64>) {
        let child = self.build(view_id(path), cx);
        path.push(0);
        let id = child.access(path, cx, nodes);
        path.pop();
        id
    }

    fn is_flexible(&self) -> (b: bool) {
        false
    }
}

impl<
    D: 'static,
    S: 'static,
    V: DynView<D>,
    I: Fn() -> S + 'static,
    F: Fn(State<S>, &Context) -> V + 'static,
> DynView<D> for StateView<I, F> {
    open spec fn ready(&self) -> bool {
        forall|st: State<S>, c: &Context, v: V| #[trigger] self.func.ensures((st, c), v) ==> v.ready()
    }

    /// A state is kept for the view: the one already kept, or, only when
    /// none is, a new one made by `default`; then the content built for it
    /// handles the event.
    open spec fn processed(&self, event: Event<D>, path: Seq<u64>, before: Context, after: Context, added: nat) -> bool {
        exists|inited: Context|
            #![trigger before.state_inited(path_id(path), inited)]
            before.state_inited(path_id(path), inited)
            && state_built(self.func, path_id(path), inited).processed(event, path.push(0), inited, after, added)
    }

    fn process(&self, event: &Event<D>, path: &mut IdPath, cx: &mut Context, actions: &mut Vec<Action>) {
        let ghost p0 = path@;
        let ghost before = *cx;
        let ghost n0 = actions@.len();
        let vid = cx.view_id(path);
        cx.init_state(vid, &self.default);
        let ghost inited = *cx;
        let child = self.build(vid, cx);
        path.push(0);
        child.process(event, path, cx, actions);
        path.pop();
        proof {
            assert(before.state_inited(path_id(p0), inited));
            assert(state_built(self.func, path_id(p0), inited).processed(*event, p0.push(0), inited, *cx, (actions@.len() - n0) as nat));
        }
    }
}

/// State allows you to associate some state with a view: the first time
/// the view handles an event, `initial` makes the state's value, which is
/// kept in the context under the view's id; `f` builds the content from the
/// state and the context each time.
pub fn state<S: 'static, V: ViewCore, I: Fn() -> S + 'static, F: Fn(State<S>, &Context) -> V + 'static>(
    initial: I,
    f: F,
) -> (v: StateView<I, F>)
    ensures
        v.default == initial,
        v.func == f,
{
    StateView { default: initial, func: f }
}

/// Convenience to get the context: a view whose content `f` builds from the
/// context, keeping the empty state `()`.
pub fn with_cx<V: ViewCore, F: Fn(&Context) -> V + 'static>(
    f: F,
) -> (v: StateView<impl Fn() + 'static, impl Fn(State<()>, &Context) -> V + 'static>)
    requires
        forall|c: &Context| f.requires((c,)),
    ensures
        v.default.requires(()),
        forall|st: State<()>, c: &Context| v.func.requires((st, c)),
        forall|st: State<()>, c: &Context, r: V| #[trigger] v.func.ensures((st, c), r) ==> f.ensures((c,), r),
{
    let g = move |_s: State<()>, cx: &Context| -> (r: V)
        requires
            call_requires(&f, (cx,)),
        ensures
            call_ensures(&f, (cx,), r),
    {
        f(cx)
    };
    state(|| {}, g)
}

} // verus!
