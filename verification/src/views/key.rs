//! The `key` modifier: reacts to key presses or releases.
use vstd::prelude::*;
use crate::access::{AccessEntry, AccessNode};
use crate::context::Context;
use crate::event::{Event, Key, HotKey};
use crate::id::{IdPath, ViewId};
use crate::view::{Action, CommandInfo, DynView, ViewCore, lemma_hit_under_parent};

verus! {

/// Whether a `KeyView` reacts to keys being pressed or released.
#[derive(Clone, Copy, PartialEq, Eq, Debug, Structural)]
pub enum KeyViewKind {
    Pressed,
    Released,
}

/// Struct for the `key` modifier.
pub struct KeyView<V, F> {
    pub child: V,
    pub func: F,
    pub kind: KeyViewKind,
}

impl<V: ViewCore, F> KeyView<V, F> {
    /// Calls `f` when a key is pressed.
    pub fn new_pressed(v: V, f: F) -> (k: Self)
        ensures
            k.child == v,
            k.func == f,
            k.kind == KeyViewKind::Pressed,
    {
        KeyView { child: v, func: f, kind: KeyViewKind::Pressed }
    }

    /// Calls `f` when a key is released.
    pub fn new_released(v: V, f: F) -> (k: Self)
        ensures
            k.child == v,
            k.func == f,
            k.kind == KeyViewKind::Released,
    {
        KeyView { child: v, func: f, kind: KeyViewKind::Released }
    }
}

impl<V: ViewCore, A: 'static, F: Fn(&mut Context, Key) -> A + Clone + 'static> ViewCore for KeyView<V, F> {
    open spec fn wf(&self) -> bool {
        self.child.wf() && forall|cx: &mut Context, k: Key| self.func.requires((cx, k))
    }

    open spec fn flexible(&self) -> bool {
        false
    }

    open spec fn hit(&self, path: Seq<u64>, hits: Seq<Seq<u64>>, cx: Context) -> Option<ViewId> {
        self.child.hit(path.push(0), hits, cx)
    }

    open spec fn menu(&self, path: Seq<u64>, cx: Context) -> Seq<(Seq<char>, Option<HotKey>)> {
        self.child.menu(path.push(0), cx)
    }

    open spec fn kept(&self, path: Seq<u64>, cx: Context) -> Seq<ViewId> {
        self.child.kept(path.push(0), cx)
    }

    open spec fn access_nodes(&self, path: Seq<u64>, cx: Context) -> Seq<AccessEntry> {
        self.child.access_nodes(path.push(0), cx)
    }

    open spec fn access_root(&self, path: Seq<u64>, cx: Context) -> Option<u64> {
        self.child.access_root(path.push(0), cx)
    }

    fn hittest(&self, path: &mut IdPath, hits: &Vec<IdPath>, cx: &Context) -> (r: Option<ViewId>) {
        let ghost p0 = path@;
        path.push(0);
        let id = self.child.hittest(path, hits, cx);
        path.pop();
        proof {
            if let Some(v) = id {
                lemma_hit_under_parent(hits.deep_view(), p0, 0, v);
            }
        }
        id
    }

    fn commands(&self, path: &mut IdPath, cx: &mut Context, cmds: &mut Vec<CommandInfo>) {
        path.push(0);
        self.child.commands(path, cx, cmds);
        path.pop();
    }

    fn gc(&self, path: &mut IdPath, cx: &mut Context, map: &mut Vec<ViewId>) {
        path.push(0);
        self.child.gc(path, cx, map);
        path.pop();
    }

    fn access(&self, path: &mut IdPath, cx: &Context, nodes: &mut Vec<AccessNode>) -> (r: Option<u64>) {
        path.push(0);
        let id = self.child.access(path, cx, nodes);
        path.pop();
        id
    }

    fn is_flexible(&self) -> (b: bool) {
        false
    }
}

impl<D: 'static, V: DynView<D>, A: 'static, F: Fn(&mut Context, Key) -> A + Clone + 'static> DynView<D> for KeyView<V, F> {
    open spec fn ready(&self) -> bool {
        self.child.ready()
    }

    /// A key event of the kind the view reacts to runs the callback, told
    /// that key from the context `before`, and its result becomes the one
    /// action; the child does not see the event. Every other event goes to
    /// the child. The context the callback leaves is not tied to the call.
    open spec fn processed(&self, event: Event<D>, path: Seq<u64>, before: Context, after: Context, added: nat) -> bool {
        if self.kind == KeyViewKind::Pressed && event is Key {
            &&& added == 1
            &&& exists|c: &mut Context, a: A| *c == before && #[trigger] self.func.ensures((c, event->Key_0), a)
        } else if self.kind == KeyViewKind::Released && event is KeyReleased {
            &&& added == 1
            &&& exists|c: &mut Context, a: A| *c == before && #[trigger] self.func.ensures((c, event->KeyReleased_0), a)
        } else {
            self.child.processed(event, path.push(0), before, after, added)
        }
    }

    fn process(&self, event: &Event<D>, path: &mut IdPath, cx: &mut Context, actions: &mut Vec<Action>) {
        match self.kind {
            KeyViewKind::Pressed => {
                if let Event::Key(key) = event {
                    let a = (self.func)(cx, *key);
                    actions.push(Action::new(a));
                } else {
                    path.push(0);
                    self.child.process(event, path, cx, actions);
                    path.pop();
                }
            },
            KeyViewKind::Released => {
                if let Event::KeyReleased(key) = event {
                    let a = (self.func)(cx, *key);
                    actions.push(Action::new(a));
                } else {
                    path.push(0);
                    self.child.process(event, path, cx, actions);
                    path.pop();
                }
            },
        }
    }
}

/// A key view reacts to one kind of key event only: one of pressed keys
/// adds one action for each key press, its callback told the pressed key
/// from the context it was given, and hands every other event, key releases
/// included, to its view at index 0; one of released keys does the same for
/// key releases, and hands key presses on.
pub proof fn law_key_view_kinds<D: 'static, V: DynView<D>, A: 'static, F: Fn(&mut Context, Key) -> A + Clone + 'static>(
    k: KeyView<V, F>,
    event: Event<D>,
    path: Seq<u64>,
    before: Context,
    after: Context,
    added: nat,
)
    requires
        k.processed(event, path, before, after, added),
    ensures
        k.kind == KeyViewKind::Pressed && event is Key ==> {
            &&& added == 1
            &&& exists|c: &mut Context, a: A| *c == before && #[trigger] k.func.ensures((c, event->Key_0), a)
        },
        k.kind == KeyViewKind::Pressed && !(event is Key) ==> k.child.processed(event, path.push(0), before, after, added),
        k.kind == KeyViewKind::Released && event is KeyReleased ==> {
            &&& added == 1
            &&& exists|c: &mut Context, a: A| *c == before && #[trigger] k.func.ensures((c, event->KeyReleased_0), a)
        },
        k.kind == KeyViewKind::Released && !(event is KeyReleased) ==> k.child.processed(event, path.push(0), before, after, added),
{
}

} // verus!
