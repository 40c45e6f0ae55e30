//! Laws on how gestures, focus and backgrounds route the events and walks
//! they are given.
use vstd::prelude::*;
use crate::context::Context;
use crate::event::{Event, Key};
use crate::id::{ViewId, path_id};
use crate::view::{DynView, ViewCore};
use crate::views::background::Background;
use crate::views::list::{item_view, list_hit, list_menu, List};
use crate::event::HotKey;
use std::hash::Hash;
use crate::views::focus::{built, Focus};
use crate::views::hover::{Hover, HoverFn};
use crate::views::tap::{Tap, TapFn, TapInfo};
use crate::views::touch::{Touch, TouchFn, TouchInfo, TouchState};

verus! {

/// A touch gesture runs its callback twice per touch: when a touch begins
/// on it, told `Begin`, from a context in which the view holds the touch;
/// and when that touch ends, told `End`, from a context in which no view
/// holds it. Each run adds one action; other events change nothing.
pub proof fn law_touch_phases<D: Copy + Default + 'static, V: ViewCore, F: TouchFn<D>>(
    t: Touch<V, F>,
    event: Event<D>,
    path: Seq<u64>,
    before: Context,
    after: Context,
    added: nat,
)
    requires
        event.wf(),
        t.processed(event, path, before, after, added),
    ensures
        event is TouchBegin && t.hit(path, event->TouchBegin_hits.deep_view(), before) is Some ==> {
            &&& added == 1
            &&& exists|c: Context, pt: D|
                #![trigger t.func.effect(c, TouchInfo { pt, button: before.mouse_button, state: TouchState::Begin }, after)]
                c.owner(event->TouchBegin_id) == path_id(path)
                && t.func.effect(c, TouchInfo { pt, button: before.mouse_button, state: TouchState::Begin }, after)
        },
        event is TouchEnd && before.owner(event->TouchEnd_id) == path_id(path) ==> {
            &&& added == 1
            &&& exists|c: Context, pt: D|
                #![trigger t.func.effect(c, TouchInfo { pt, button: before.mouse_button, state: TouchState::End }, after)]
                c.owner(event->TouchEnd_id).id == 0
                && t.func.effect(c, TouchInfo { pt, button: before.mouse_button, state: TouchState::End }, after)
        },
        !(event is TouchBegin) && !(event is TouchEnd) ==> after == before && added == 0,
{
    match event {
        Event::TouchBegin { id, positions, hits } => {
            if t.hit(path, hits.deep_view(), before) is Some {
                let (c, pt) = choose|c: Context, pt: D|
                    #![trigger t.func.effect(c, TouchInfo { pt, button: before.mouse_button, state: TouchState::Begin }, after)]
                    before.with_touch(id, path_id(path), before.grab_cursor, c)
                    && crate::event::is_local_position(positions@, path, pt)
                    && t.func.effect(c, TouchInfo { pt, button: before.mouse_button, state: TouchState::Begin }, after);
                assert(c.touches@[id as int] == path_id(path));
            }
        },
        Event::TouchEnd { id, positions } => {
            if before.owner(id) == path_id(path) {
                let (c, pt) = choose|c: Context, pt: D|
                    #![trigger t.func.effect(c, TouchInfo { pt, button: before.mouse_button, state: TouchState::End }, after)]
                    before.with_touch(id, ViewId { id: 0 }, before.grab_cursor, c)
                    && crate::event::is_local_position(positions@, path, pt)
                    && t.func.effect(c, TouchInfo { pt, button: before.mouse_button, state: TouchState::End }, after);
                assert(c.touches@[id as int] == ViewId { id: 0 });
            }
        },
        _ => {},
    }
}

/// A tap captures a touch that begins on it, adding no action, and when
/// that touch ends it lets the touch go and runs its callback once, told
/// `End`, from a context in which no view holds the touch; the child never
/// sees an event, and other events change nothing.
pub proof fn law_tap_phases<D: Copy + Default + 'static, V: ViewCore, F: TapFn<D>>(
    t: Tap<V, F>,
    event: Event<D>,
    path: Seq<u64>,
    before: Context,
    after: Context,
    added: nat,
)
    requires
        event.wf(),
        t.processed(event, path, before, after, added),
    ensures
        event is TouchBegin ==> added == 0,
        event is TouchBegin && t.hit(path, event->TouchBegin_hits.deep_view(), before) is Some
            ==> after.owner(event->TouchBegin_id) == path_id(path),
        event is TouchEnd && before.owner(event->TouchEnd_id) == path_id(path) ==> {
            &&& added == 1
            &&& exists|c: Context, pt: D|
                #![trigger t.func.effect(c, TapInfo { pt, button: before.mouse_button, state: TouchState::End }, after)]
                c.owner(event->TouchEnd_id).id == 0
                && t.func.effect(c, TapInfo { pt, button: before.mouse_button, state: TouchState::End }, after)
        },
        !(event is TouchBegin) && !(event is TouchEnd) ==> after == before && added == 0,
{
    match event {
        Event::TouchBegin { id, .. } => {},
        Event::TouchEnd { id, positions } => {
            if before.owner(id) == path_id(path) {
                let (c, pt) = choose|c: Context, pt: D|
                    #![trigger t.func.effect(c, TapInfo { pt, button: before.mouse_button, state: TouchState::End }, after)]
                    before.with_touch(id, ViewId { id: 0 }, before.grab_cursor, c)
                    && crate::event::is_local_position(positions@, path, pt)
                    && t.func.effect(c, TapInfo { pt, button: before.mouse_button, state: TouchState::End }, after);
                assert(c.touches@[id as int] == ViewId { id: 0 });
            }
        },
        _ => {},
    }
}

/// A hover runs its callback on each pointer move while no mouse button is
/// held, told whether the pointer is over the view (whether the view is
/// hit); its child then handles the move. Every other event goes to the
/// child alone.
pub proof fn law_hover_inside<D: Copy + Default + 'static, V: DynView<D>, F: HoverFn<D>>(
    h: Hover<V, F>,
    event: Event<D>,
    path: Seq<u64>,
    before: Context,
    after: Context,
    added: nat,
)
    requires
        h.processed(event, path, before, after, added),
    ensures
        event is TouchMove && before.mouse_button is None ==> exists|mid: Context, pt: D, a: nat|
            #![trigger h.func.effect(before, pt, h.child.hit(path.push(0), event->TouchMove_hits.deep_view(), before) is Some, mid), h.child.processed(event, path.push(0), mid, after, a)]
            h.func.effect(before, pt, h.child.hit(path.push(0), event->TouchMove_hits.deep_view(), before) is Some, mid)
            && h.child.processed(event, path.push(0), mid, after, a)
            && added == a + h.func.adds(h.child.hit(path.push(0), event->TouchMove_hits.deep_view(), before) is Some),
        !(event is TouchMove && before.mouse_button is None) ==> h.child.processed(event, path.push(0), before, after, added),
{
}

/// A focus view takes the keyboard focus when a touch begins on it and
/// gives it up on Escape while it holds it, asking for a redraw each time;
/// then the view built for whether it holds the focus handles the event.
pub proof fn law_focus_routing<D: 'static, V: DynView<D>, F: Fn(bool) -> V + Clone + 'static>(
    f: Focus<F>,
    event: Event<D>,
    path: Seq<u64>,
    before: Context,
    after: Context,
    added: nat,
)
    requires
        f.processed(event, path, before, after, added),
    ensures
        event is TouchBegin && f.hit(path, event->TouchBegin_hits.deep_view(), before) is Some ==> {
            let mid = Context { focused_id: Some(path_id(path)), dirty: true, ..before };
            built(f.func, true).processed(event, path.push(0), mid, after, added)
        },
        event == Event::<D>::Key(Key::Escape) && before.focused_id == Some(path_id(path)) ==> {
            let mid = Context { focused_id: None, dirty: true, ..before };
            built(f.func, false).processed(event, path.push(0), mid, after, added)
        },
        !(event is TouchBegin) && !(event == Event::<D>::Key(Key::Escape)) ==>
            built(f.func, before.focused_id == Some(path_id(path))).processed(event, path.push(0), before, after, added),
{
}

/// A background shows its view at index 0 over the background at index 1:
/// only the background is hit, only the view is described for
/// accessibility, the menu and kept ids are the view's then the
/// background's, and an event goes to the view and then to the background.
pub proof fn law_background_routing<D: 'static, V: DynView<D>, BG: DynView<D>>(
    b: Background<V, BG>,
    event: Event<D>,
    path: Seq<u64>,
    hits: Seq<Seq<u64>>,
    cx: Context,
    before: Context,
    after: Context,
    added: nat,
)
    ensures
        b.hit(path, hits, cx) == b.background.hit(path.push(1), hits, cx),
        b.menu(path, cx) == b.child.menu(path.push(0), cx) + b.background.menu(path.push(1), cx),
        b.kept(path, cx) == b.child.kept(path.push(0), cx) + b.background.kept(path.push(1), cx),
        b.access_nodes(path, cx) == b.child.access_nodes(path.push(0), cx),
        b.access_root(path, cx) == b.child.access_root(path.push(0), cx),
        b.processed(event, path, before, after, added) ==> exists|mid: Context, a1: nat, a2: nat|
            #![trigger b.child.processed(event, path.push(0), before, mid, a1), b.background.processed(event, path.push(1), mid, after, a2)]
            b.child.processed(event, path.push(0), before, mid, a1)
            && b.background.processed(event, path.push(1), mid, after, a2)
            && added == a1 + a2,
{
}

/// The menus of the first `i` items are the start of those of the first
/// `n` items.
proof fn lemma_list_menu_prefix<ID, V: ViewCore, F: Fn(&ID) -> V>(
    ids: Seq<ID>,
    keys: Seq<u64>,
    f: F,
    path: Seq<u64>,
    cx: Context,
    i: nat,
    n: nat,
)
    requires
        i <= n,
    ensures
        list_menu(ids, keys, f, path, cx, i).len() <= list_menu(ids, keys, f, path, cx, n).len(),
        list_menu(ids, keys, f, path, cx, n).subrange(0, list_menu(ids, keys, f, path, cx, i).len() as int)
            == list_menu(ids, keys, f, path, cx, i),
    decreases n - i,
{
    if i < n {
        lemma_list_menu_prefix(ids, keys, f, path, cx, i, (n - 1) as nat);
        let a = list_menu(ids, keys, f, path, cx, (n - 1) as nat);
        let b = list_menu(ids, keys, f, path, cx, i);
        assert((a + item_view(f, &ids[n - 1]).menu(path.push(keys[n - 1]), cx)).subrange(0, b.len() as int)
            =~= a.subrange(0, b.len() as int));
    } else {
        assert(list_menu(ids, keys, f, path, cx, n).subrange(0, list_menu(ids, keys, f, path, cx, n).len() as int)
            =~= list_menu(ids, keys, f, path, cx, n));
    }
}

/// A list's menu holds the menu of every item's view, in item order: the
/// menu of item `i`'s view, at the list's path extended by the item's key,
/// follows the menus of the items before it.
pub proof fn law_list_menu_holds_every_item<ID: Hash + 'static, V: ViewCore, F: Fn(&ID) -> V + 'static>(
    l: List<ID, F>,
    path: Seq<u64>,
    cx: Context,
    i: int,
)
    requires
        0 <= i < l.ids@.len(),
    ensures
        ({
            let before_i = list_menu(l.ids@, l.keys@, l.func, path, cx, i as nat).len() as int;
            let item = item_view(l.func, &l.ids@[i]).menu(path.push(l.keys@[i]), cx);
            &&& before_i + item.len() <= l.menu(path, cx).len()
            &&& l.menu(path, cx).subrange(before_i, before_i + item.len()) == item
        }),
{
    let n = l.ids@.len();
    let m_i = list_menu(l.ids@, l.keys@, l.func, path, cx, i as nat);
    let m_i1 = list_menu(l.ids@, l.keys@, l.func, path, cx, (i + 1) as nat);
    let item = item_view(l.func, &l.ids@[i]).menu(path.push(l.keys@[i]), cx);
    assert(m_i1 == m_i + item);
    lemma_list_menu_prefix(l.ids@, l.keys@, l.func, path, cx, (i + 1) as nat, n);
    let whole = l.menu(path, cx);
    assert(whole.subrange(0, m_i1.len() as int) == m_i1);
    assert(whole.subrange(m_i.len() as int, (m_i.len() + item.len()) as int) =~= m_i1.subrange(m_i.len() as int, m_i1.len() as int));
    assert(m_i1.subrange(m_i.len() as int, m_i1.len() as int) =~= item);
}

/// The hit of the first `n` items is the hit of the last of them that is
/// hit.
proof fn lemma_list_hit_last<ID, V: ViewCore, F: Fn(&ID) -> V>(
    ids: Seq<ID>,
    keys: Seq<u64>,
    f: F,
    path: Seq<u64>,
    hits: Seq<Seq<u64>>,
    cx: Context,
    i: int,
    n: nat,
)
    requires
        0 <= i < n,
        item_view(f, &ids[i]).hit(path.push(keys[i]), hits, cx) is Some,
        forall|j: int| i < j < n ==> (#[trigger] item_view(f, &ids[j])).hit(path.push(keys[j]), hits, cx) is None,
    ensures
        list_hit(ids, keys, f, path, hits, cx, n) == item_view(f, &ids[i]).hit(path.push(keys[i]), hits, cx),
    decreases n,
{
    if n - 1 > i {
        let j = n - 1;
        assert(item_view(f, &ids[j]).hit(path.push(keys[j]), hits, cx) is None);
        lemma_list_hit_last(ids, keys, f, path, hits, cx, i, (n - 1) as nat);
    }
}

/// No item hit: no hit.
proof fn lemma_list_hit_none<ID, V: ViewCore, F: Fn(&ID) -> V>(
    ids: Seq<ID>,
    keys: Seq<u64>,
    f: F,
    path: Seq<u64>,
    hits: Seq<Seq<u64>>,
    cx: Context,
    n: nat,
)
    requires
        forall|j: int| 0 <= j < n ==> (#[trigger] item_view(f, &ids[j])).hit(path.push(keys[j]), hits, cx) is None,
    ensures
        list_hit(ids, keys, f, path, hits, cx, n) is None,
    decreases n,
{
    if n > 0 {
        let j = n - 1;
        assert(item_view(f, &ids[j]).hit(path.push(keys[j]), hits, cx) is None);
        lemma_list_hit_none(ids, keys, f, path, hits, cx, (n - 1) as nat);
    }
}

/// A list is hit where the last item's view that is hit is hit, each item's
/// view sitting at the list's path extended by the item's key; when no
/// item's view is hit, neither is the list.
pub proof fn law_list_hit<ID: Hash + 'static, V: ViewCore, F: Fn(&ID) -> V + 'static>(
    l: List<ID, F>,
    path: Seq<u64>,
    hits: Seq<Seq<u64>>,
    cx: Context,
    i: int,
)
    ensures
        0 <= i < l.ids@.len()
            && item_view(l.func, &l.ids@[i]).hit(path.push(l.keys@[i]), hits, cx) is Some
            && (forall|j: int| i < j < l.ids@.len() ==> (#[trigger] item_view(l.func, &l.ids@[j])).hit(path.push(l.keys@[j]), hits, cx) is None)
            ==> l.hit(path, hits, cx) == item_view(l.func, &l.ids@[i]).hit(path.push(l.keys@[i]), hits, cx),
        (forall|j: int| 0 <= j < l.ids@.len() ==> (#[trigger] item_view(l.func, &l.ids@[j])).hit(path.push(l.keys@[j]), hits, cx) is None)
            ==> l.hit(path, hits, cx) is None,
{
    let n = l.ids@.len();
    if 0 <= i < n
        && item_view(l.func, &l.ids@[i]).hit(path.push(l.keys@[i]), hits, cx) is Some
        && (forall|j: int| i < j < n ==> (#[trigger] item_view(l.func, &l.ids@[j])).hit(path.push(l.keys@[j]), hits, cx) is None) {
        lemma_list_hit_last(l.ids@, l.keys@, l.func, path, hits, cx, i, n);
    }
    if forall|j: int| 0 <= j < n ==> (#[trigger] item_view(l.func, &l.ids@[j])).hit(path.push(l.keys@[j]), hits, cx) is None {
        lemma_list_hit_none(l.ids@, l.keys@, l.func, path, hits, cx, n);
    }
}

} // verus!
