//! `modview`: a view built by a function from a value that modifiers can
//! change.
use vstd::prelude::*;
use crate::access::{AccessEntry, AccessNode};
use crate::context::Context;
use crate::event::{Event, HotKey};
use crate::id::{IdPath, ViewId, path_id, view_id};
use crate::view::{Action, CommandInfo, DynView, ViewCore, lemma_hit_under_parent};

verus! {

/// Passes a value to a function. The view that `func` builds from a clone
/// of `value` and the context sits at index 0.
#[derive(Clone)]
pub struct ModView<S, F> {
    pub func: F,
    pub value: S,
}

/// `f` may return `v` for some clone of `value` in the context `cx`.
pub open spec fn builds<S: Clone, V, F: Fn(S, &Context) -> V>(f: F, value: S, cx: Context, v: V) -> bool {
    exists|c: S| cloned(value, c) && #[trigger] f.ensures((c, &cx), v)
}

/// The view that `f` builds from a clone of `value` in the context `cx`.
pub open spec fn built_view<S: Clone, V, F: Fn(S, &Context) -> V>(f: F, value: S, cx: Context) -> V {
    choose|v: V| builds(f, value, cx, v)
}

/// `f` builds the same view from every clone of `value` in the same
/// context.
pub open spec fn builds_from_clones<S: Clone, V, F: Fn(S, &Context) -> V>(f: F, value: S) -> bool {
    forall|c1: S, c2: S, cx: &Context, v1: V, v2: V|
        cloned(value, c1) && cloned(value, c2) && #[trigger] f.ensures((c1, cx), v1) && #[trigger] f.ensures((c2, cx), v2)
            ==> v1 == v2
}

/// A view that `f` returned for a clone of `value` is the one it builds.
pub proof fn lemma_built_view<S: Clone, V, F: Fn(S, &Context) -> V>(f: F, value: S, cx: Context, c: S, v: V)
    requires
        cloned(value, c),
        f.ensures((c, &cx), v),
        builds_from_clones(f, value),
    ensures
        built_view(f, value, cx) == v,
{
    assert(builds(f, value, cx, v));
    let w = built_view(f, value, cx);
    let c2 = choose|c2: S| cloned(value, c2) && #[trigger] f.ensures((c2, &cx), w);
    assert(f.ensures((c2, &cx), w));
}

impl<S: Clone + 'static, V: ViewCore, F: Fn(S, &Context) -> V + 'static> ModView<S, F> {
    /// Builds the child from a clone of the value and the context.
    fn child(&self, cx: &Context) -> (v: V)
        requires
            self.wf(),
        ensures
            v == built_view(self.func, self.value, *cx),
            builds(self.func, self.value, *cx, v),
            v.wf(),
    {
        let c = self.value.clone();
        proof {
            assert(cloned(self.value, c));
        }
        let v = (self.func)(c, cx);
        proof {
            lemma_built_view(self.func, self.value, *cx, c, v);
        }
        v
    }
}

impl<S: Clone + 'static, V: ViewCore, F: Fn(S, &Context) -> V + 'static> ViewCore for ModView<S, F> {
    open spec fn wf(&self) -> bool {
        &&& forall|c: S, cx: &Context| cloned(self.value, c) ==> self.func.requires((c, cx))
        &&& forall|c: S, cx: &Context, v: V| cloned(self.value, c) && #[trigger] self.func.ensures((c, cx), v) ==> v.wf()
        &&& builds_from_clones(self.func, self.value)
    }

    open spec fn flexible(&self) -> bool {
        false
    }

    open spec fn hit(&self, path: Seq<u64>, hits: Seq<Seq<u64>>, cx: Context) -> Option<ViewId> {
        built_view(self.func, self.value, cx).hit(path.push(0), hits, cx)
    }

    open spec fn menu(&self, path: Seq<u64>, cx: Context) -> Seq<(Seq<char>, Option<HotKey>)> {
        built_view(self.func, self.value, cx).menu(path.push(0), cx)
    }

    /// Its own id, then the ids kept by the built view.
    open spec fn kept(&self, path: Seq<u64>, cx: Context) -> Seq<ViewId> {
        seq![path_id(path)] + built_view(self.func, self.value, cx).kept(path.push(0), cx)
    }

    open spec fn access_nodes(&self, path: Seq<u64>, cx: Context) -> Seq<AccessEntry> {
        built_view(self.func, self.value, cx).access_nodes(path.push(0), cx)
    }

    open spec fn access_root(&self, path: Seq<u64>, cx: Context) -> Option<u64> {
        built_view(self.func, self.value, cx).access_root(path.push(0), cx)
    }

    fn hittest(&self, path: &mut IdPath, hits: &Vec<IdPath>, cx: &Context) -> (r: Option<ViewId>) {
        let ghost p0 = path@;
        let child = self.child(cx);
        path.push(0);
        let id = child.hittest(path, hits, cx);
        path.pop();
        proof {
            if let Some(v) = id {
                lemma_hit_under_parent(hits.deep_view(), p0, 0, v);
            }
        }
        id
    }

    fn commands(&self, path: &mut IdPath, cx: &mut Context, cmds: &mut Vec<CommandInfo>) {
        let child = self.child(cx);
        path.push(0);
        child.commands(path, cx, cmds);
        path.pop();
    }

    fn gc(&self, path: &mut IdPath, cx: &mut Context, map: &mut Vec<ViewId>) {
        let ghost m0 = map@;
        let ghost p0 = path@;
        let ghost cx0 = *cx;
        map.push(view_id(path));
        let child = self.child(cx);
        path.push(0);
        child.gc(path, cx, map);
        path.pop();
        assert(map@ =~= m0 + self.kept(p0, cx0));
    }

    fn access(&self, path: &mut IdPath, cx: &Context, nodes: &mut Vec<AccessNode>) -> (r: Option<u64>) {
        let child = self.child(cx);
        path.push(0);
        let id = child.access(path, cx, nodes);
        path.pop();
        id
    }

    fn is_flexible(&self) -> (b: bool) {
        false
    }
}

impl<D: 'static, S: Clone + 'static, V: DynView<D>, F: Fn(S, &Context) -> V + 'static> DynView<D> for ModView<S, F> {
    open spec fn ready(&self) -> bool {
        forall|c: S, cx: &Context, v: V| cloned(self.value, c) && #[trigger] self.func.ensures((c, cx), v) ==> v.ready()
    }

    /// The built view handles the event.
    open spec fn processed(&self, event: Event<D>, path: Seq<u64>, before: Context, after: Context, added: nat) -> bool {
        built_view(self.func, self.value, before).processed(event, path.push(0), before, after, added)
    }

    fn process(&self, event: &Event<D>, path: &mut IdPath, cx: &mut Context, actions: &mut Vec<Action>) {
        let child = self.child(cx);
        proof {
            let c = choose|c: S| cloned(self.value, c) && #[trigger] self.func.ensures((c, &*cx), child);
            assert(self.func.ensures((c, &*cx), child));
        }
        path.push(0);
        child.process(event, path, cx, actions);
        path.pop();
    }
}

/// Passes a value to a function. The value starts as `S`'s default and can
/// be changed by modifiers.
pub fn modview<S: Clone + Default + 'static, V: ViewCore, F: Fn(S, &Context) -> V + 'static>(f: F) -> (m: ModView<S, F>)
    ensures
        m.func == f,
        call_ensures(S::default, (), m.value),
{
    ModView { func: f, value: S::default() }
}

} // verus!
