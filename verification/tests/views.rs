use rui::views::state::{state, with_cx, State};
use std::cell::Cell;
use std::rc::Rc;
use std::any::TypeId;
use rui::views::emptyview::EmptyView;
use rui::views::spacer::spacer;
use rui::view::{DynView, ViewCore};

#[test]
fn test_typeid() {
    let b: Box<dyn DynView<()>> = Box::new(EmptyView {});
    let tid = b.tid();
    println!("{:?}", tid);
    assert_eq!(tid, TypeId::of::<EmptyView>());
}

#[test]
fn test_spacer_is_flexible() {
    let ui = spacer();
    assert!(ui.is_flexible());
}

use rui::context::Context;
use rui::views::drag::DragFuncP;
use rui::views::drag_p::DragP;
use rui::views::tap_p::{TapFunc as TapFuncP, TapP};
use rui::views::tap::TapPositionFunc;
use rui::views::hover::{Hover, HoverFunc, HoverFuncP};
use rui::event_loop::{process_event, update_cursor_grab, CursorGrab};
use rui::event::{Event, HotKey, Key, KeyboardModifiers, Located, MouseButton};
use rui::id::{view_id, IdPath, ViewId};
use rui::view::{Action, CommandInfo};
use rui::views::background::Background;
use rui::views::canvas::canvas;
use rui::views::command::{command, Command, CommandBase, CommandGroup};
use rui::views::cond::cond;
use rui::views::drag::{Drag, DragFunc, GestureState};
use rui::views::focus::update_focus;
use rui::views::list::list;
use rui::views::stack::{hstack, vstack, zstack, StackOrientation};
use rui::views::tap::{Tap, TapActionAdapter};
use rui::views::touch::{Touch, TouchActionAdapter};

fn leaf() -> rui::views::canvas::Canvas<()> {
    canvas(())
}

/// A touch at `pt` in the coordinates of the view at the root path.
fn here(pt: i32) -> Vec<Located<i32>> {
    vec![Located { path: vec![], pt }]
}

#[test]
fn stack_hit_prefers_last_child() {
    let s = hstack((leaf(), leaf()));
    let cx = Context::new();
    let mut path: IdPath = vec![];
    let both = vec![vec![0u64], vec![1u64]];
    assert_eq!(s.hittest(&mut path, &both, &cx), Some(view_id(&vec![1])));
    assert_eq!(path, Vec::<u64>::new());
    let first = vec![vec![0u64]];
    assert_eq!(s.hittest(&mut path, &first, &cx), Some(view_id(&vec![0])));
    let none: Vec<IdPath> = vec![vec![2u64]];
    assert_eq!(s.hittest(&mut path, &none, &cx), None);
}

#[test]
fn stack_orientations() {
    assert_eq!(hstack((leaf(),)).orientation(), StackOrientation::Horizontal);
    assert_eq!(vstack((leaf(),)).orientation(), StackOrientation::Vertical);
    assert_eq!(zstack((leaf(),)).orientation(), StackOrientation::Z);
}

#[test]
fn stack_gc_lists_own_id_then_children() {
    let s = vstack((leaf(), leaf()));
    let mut cx = Context::new();
    let mut path: IdPath = vec![5];
    let mut map: Vec<ViewId> = vec![];
    s.gc(&mut path, &mut cx, &mut map);
    let expected = vec![
        view_id(&vec![5]),
        view_id(&vec![5, 0]),
        view_id(&vec![5, 0]),
        view_id(&vec![5, 1]),
        view_id(&vec![5, 1]),
    ];
    assert_eq!(map, expected);
    assert_eq!(path, vec![5]);
}

#[test]
fn view_id_depends_on_path_only() {
    assert_eq!(view_id(&vec![1, 2, 3]), view_id(&vec![1, 2, 3]));
    assert_ne!(view_id(&vec![1, 2, 3]), view_id(&vec![1, 2]));
    assert_ne!(view_id(&vec![0]), view_id(&vec![1]));
}

#[test]
fn background_is_hit_at_index_one() {
    let b = Background::new(leaf(), leaf());
    let cx = Context::new();
    let mut path: IdPath = vec![];
    let child_only = vec![vec![0u64]];
    assert_eq!(b.hittest(&mut path, &child_only, &cx), None);
    let bg = vec![vec![1u64]];
    assert_eq!(b.hittest(&mut path, &bg, &cx), Some(view_id(&vec![1])));
}

#[test]
fn cond_uses_index_of_branch_shown() {
    let cx = Context::new();
    let mut path: IdPath = vec![];
    let hits = vec![vec![0u64], vec![1u64]];
    let t = cond(true, leaf(), leaf());
    assert_eq!(t.hittest(&mut path, &hits, &cx), Some(view_id(&vec![0])));
    let f = cond(false, leaf(), leaf());
    assert_eq!(f.hittest(&mut path, &hits, &cx), Some(view_id(&vec![1])));
}

#[test]
fn tap_captures_on_begin_and_fires_on_end() {
    let t = Tap::new(leaf(), TapActionAdapter { action: 7u32 });
    let mut cx = Context::new();
    let mut path: IdPath = vec![3];
    let mut actions: Vec<Action> = vec![];
    let me = view_id(&vec![3]);

    let miss: Event<()> = Event::TouchBegin { id: 1, positions: vec![], hits: vec![vec![3, 1]] };
    t.process(&miss, &mut path, &mut cx, &mut actions);
    assert!(cx.touches[1].is_default());

    let begin: Event<()> = Event::TouchBegin { id: 1, positions: vec![], hits: vec![vec![3, 0]] };
    t.process(&begin, &mut path, &mut cx, &mut actions);
    assert_eq!(cx.touches[1], me);
    assert!(actions.is_empty());

    let end: Event<()> = Event::TouchEnd { id: 1, positions: vec![] };
    t.process(&end, &mut path, &mut cx, &mut actions);
    assert!(cx.touches[1].is_default());
    assert_eq!(actions.len(), 1);
    assert_eq!(actions[0].downcast_ref::<u32>(), Some(&7));

    // A second end of the same touch finds it released: nothing happens.
    t.process(&end, &mut path, &mut cx, &mut actions);
    assert_eq!(actions.len(), 1);
}

#[test]
fn touch_reports_begin_and_end() {
    let t = Touch::new(leaf(), TouchActionAdapter { action: "t" });
    let mut cx = Context::new();
    let mut path: IdPath = vec![];
    let mut actions: Vec<Action> = vec![];
    let begin: Event<()> = Event::TouchBegin { id: 0, positions: vec![], hits: vec![vec![0]] };
    t.process(&begin, &mut path, &mut cx, &mut actions);
    assert_eq!(actions.len(), 1);
    assert_eq!(cx.touches[0], view_id(&vec![]));
    let end: Event<()> = Event::TouchEnd { id: 0, positions: vec![] };
    t.process(&end, &mut path, &mut cx, &mut actions);
    assert_eq!(actions.len(), 2);
    assert!(cx.touches[0].is_default());
}

#[test]
fn drag_runs_began_changed_ended() {
    let d = Drag::new(
        leaf(),
        DragFunc {
            f: |_cx: &mut Context, delta: i32, state: GestureState, _b: Option<MouseButton>| (delta, state),
        },
    )
    .grab_cursor();
    let mut cx = Context::new();
    let mut path: IdPath = vec![];
    let mut actions: Vec<Action> = vec![];

    let begin: Event<i32> = Event::TouchBegin { id: 2, positions: vec![], hits: vec![vec![0]] };
    d.process(&begin, &mut path, &mut cx, &mut actions);
    assert!(cx.grab_cursor);
    assert_eq!(cx.touches[2], view_id(&vec![]));

    let mv: Event<i32> = Event::TouchMove { id: 2, positions: vec![], delta: 5, hits: vec![] };
    d.process(&mv, &mut path, &mut cx, &mut actions);

    let end: Event<i32> = Event::TouchEnd { id: 2, positions: vec![] };
    d.process(&end, &mut path, &mut cx, &mut actions);
    assert!(!cx.grab_cursor);
    assert!(cx.touches[2].is_default());

    let got: Vec<(i32, GestureState)> = actions
        .iter()
        .map(|a| *a.downcast_ref::<(i32, GestureState)>().unwrap())
        .collect();
    assert_eq!(
        got,
        vec![(0, GestureState::Began), (5, GestureState::Changed), (0, GestureState::Ended)]
    );
}

#[test]
fn drag_ignores_a_touch_already_owned() {
    let d = Drag::new(leaf(), DragFunc { f: |_cx: &mut Context, _d: i32, s: GestureState, _b: Option<MouseButton>| s });
    let mut cx = Context::new();
    cx.touches[0] = view_id(&vec![9]);
    let mut path: IdPath = vec![];
    let mut actions: Vec<Action> = vec![];
    let begin: Event<i32> = Event::TouchBegin { id: 0, positions: vec![], hits: vec![vec![0]] };
    d.process(&begin, &mut path, &mut cx, &mut actions);
    assert!(actions.is_empty());
    assert_eq!(cx.touches[0], view_id(&vec![9]));
}

#[test]
fn focus_taken_on_touch_and_given_up_on_escape() {
    let mut cx = Context::new();
    let me = view_id(&vec![1]);
    let begin: Event<()> = Event::TouchBegin { id: 0, positions: vec![], hits: vec![] };
    update_focus(&mut cx, me, &begin, true);
    assert_eq!(cx.focused_id, Some(me));
    assert!(cx.dirty);
    cx.dirty = false;
    let other = view_id(&vec![2]);
    let esc: Event<()> = Event::Key(Key::Escape);
    update_focus(&mut cx, other, &esc, false);
    assert_eq!(cx.focused_id, Some(me));
    assert!(!cx.dirty);
    update_focus(&mut cx, me, &esc, false);
    assert_eq!(cx.focused_id, None);
    assert!(cx.dirty);
}

#[test]
fn command_menu_lists_child_commands_first() {
    let k = HotKey { key: Key::Character('s'), mods: KeyboardModifiers::none() };
    let inner = Command::new(leaf(), "File:Open".to_string(), None, |_cx: &mut Context| {});
    let outer = Command::new(inner, "File:Save".to_string(), Some(k), |_cx: &mut Context| {});
    let mut cx = Context::new();
    let mut path: IdPath = vec![];
    let mut cmds: Vec<CommandInfo> = vec![];
    outer.commands(&mut path, &mut cx, &mut cmds);
    assert_eq!(cmds.len(), 2);
    assert_eq!(cmds[0].path, "File:Open");
    assert_eq!(cmds[0].key, None);
    assert_eq!(cmds[1].path, "File:Save");
    assert_eq!(cmds[1].key, Some(k));
}

#[test]
fn command_group_lists_its_commands_in_order() {
    let k = HotKey { key: Key::Character('q'), mods: KeyboardModifiers::none() };
    let g = CommandGroup::new(
        leaf(),
        (command("Edit:Copy"), command("App:Quit").hotkey(k).action(|| {})),
    );
    let mut cx = Context::new();
    let mut path: IdPath = vec![];
    let mut cmds: Vec<CommandInfo> = vec![];
    g.commands(&mut path, &mut cx, &mut cmds);
    assert_eq!(cmds.len(), 2);
    assert_eq!(cmds[0].path, "Edit:Copy");
    assert_eq!(cmds[1].path, "App:Quit");
    assert_eq!(cmds[1].key, Some(k));
}

#[test]
fn command_without_action_reports_its_hotkey() {
    let k = HotKey { key: Key::F1, mods: KeyboardModifiers::none() };
    let c = command("Help").hotkey(k);
    assert_eq!(c.key(), Some(k));
    assert_eq!(c.name(), "Help");
}

#[test]
fn list_items_sit_under_their_keys() {
    let l = list(vec![10u32, 20u32], |_id: &u32| leaf());
    assert_eq!(l.keys.len(), 2);
    let cx = Context::new();
    let mut path: IdPath = vec![];
    let hits = vec![vec![l.keys[0]]];
    assert_eq!(l.hittest(&mut path, &hits, &cx), Some(view_id(&vec![l.keys[0]])));
    let mut cx2 = Context::new();
    let mut map: Vec<ViewId> = vec![];
    l.gc(&mut path, &mut cx2, &mut map);
    assert_eq!(map.len(), 5);
    assert_eq!(map[0], view_id(&vec![]));
    assert_eq!(map[1], view_id(&vec![l.keys[0]]));
}

#[test]
fn cursor_grab_follows_a_grabbing_drag() {
    let d = Drag::new(leaf(), DragFunc { f: |_cx: &mut Context, _d: i32, s: GestureState, _b: Option<MouseButton>| s })
        .grab_cursor();
    let mut cx = Context::new();
    let begin: Event<i32> = Event::TouchBegin { id: 0, positions: vec![], hits: vec![vec![0, 0]] };
    let (g, actions) = process_event(&mut cx, &d, &begin);
    assert_eq!(g, CursorGrab::Grab);
    assert_eq!(actions.len(), 1);
    assert!(cx.prev_grab_cursor);
    let mv: Event<i32> = Event::TouchMove { id: 0, positions: vec![], delta: 3, hits: vec![] };
    let (g, actions) = process_event(&mut cx, &d, &mv);
    assert_eq!(g, CursorGrab::Keep);
    assert_eq!(actions.len(), 1);
    let end: Event<i32> = Event::TouchEnd { id: 0, positions: vec![] };
    let (g, _) = process_event(&mut cx, &d, &end);
    assert_eq!(g, CursorGrab::Release);
    assert!(!cx.prev_grab_cursor);
    assert_eq!(update_cursor_grab(&mut cx), CursorGrab::Keep);
}

#[test]
fn drag_with_positions_reports_where_the_touch_is() {
    let d = Drag::new(
        leaf(),
        DragFuncP { f: |_cx: &mut Context, pt: i32, s: GestureState, _b: Option<MouseButton>| (pt, s) },
    );
    let mut cx = Context::new();
    let mut path: IdPath = vec![];
    let mut actions: Vec<Action> = vec![];
    let begin: Event<i32> = Event::TouchBegin { id: 0, positions: here(10), hits: vec![vec![0]] };
    d.process(&begin, &mut path, &mut cx, &mut actions);
    let mv: Event<i32> = Event::TouchMove { id: 0, positions: here(14), delta: 4, hits: vec![] };
    d.process(&mv, &mut path, &mut cx, &mut actions);
    let end: Event<i32> = Event::TouchEnd { id: 0, positions: here(15) };
    d.process(&end, &mut path, &mut cx, &mut actions);
    let got: Vec<(i32, GestureState)> =
        actions.iter().map(|a| *a.downcast_ref::<(i32, GestureState)>().unwrap()).collect();
    assert_eq!(got, vec![(10, GestureState::Began), (14, GestureState::Changed), (15, GestureState::Ended)]);
}

#[test]
fn drag_p_reports_default_then_positions() {
    let d = DragP::grab_cursor(leaf(), |_cx: &mut Context, pt: i32, _b: Option<MouseButton>| pt);
    let mut cx = Context::new();
    let mut path: IdPath = vec![];
    let mut actions: Vec<Action> = vec![];
    let begin: Event<i32> = Event::TouchBegin { id: 0, positions: here(10), hits: vec![vec![0]] };
    d.process(&begin, &mut path, &mut cx, &mut actions);
    assert!(cx.grab_cursor);
    let mv: Event<i32> = Event::TouchMove { id: 0, positions: here(12), delta: 2, hits: vec![] };
    d.process(&mv, &mut path, &mut cx, &mut actions);
    let end: Event<i32> = Event::TouchEnd { id: 0, positions: here(13) };
    d.process(&end, &mut path, &mut cx, &mut actions);
    assert!(!cx.grab_cursor);
    let got: Vec<i32> = actions.iter().map(|a| *a.downcast_ref::<i32>().unwrap()).collect();
    assert_eq!(got, vec![0, 12, 13]);
}

#[test]
fn tap_p_action_is_callback_result_at_end_position() {
    let t: TapP<_, _, i32> = TapP::new(leaf(), TapFuncP { f: |_cx: &mut Context, pt: i32, _b: Option<MouseButton>| pt * 2 });
    let mut cx = Context::new();
    let mut path: IdPath = vec![];
    let mut actions: Vec<Action> = vec![];
    let begin: Event<i32> = Event::TouchBegin { id: 0, positions: here(1), hits: vec![vec![0]] };
    t.process(&begin, &mut path, &mut cx, &mut actions);
    assert!(actions.is_empty());
    let end: Event<i32> = Event::TouchEnd { id: 0, positions: here(21) };
    t.process(&end, &mut path, &mut cx, &mut actions);
    assert_eq!(actions.len(), 1);
    assert_eq!(actions[0].downcast_ref::<i32>(), Some(&42));
}

#[test]
fn tap_position_callback_is_told_the_end_position() {
    let t = Tap::new(leaf(), TapPositionFunc { f: |_cx: &mut Context, pt: i32, b: Option<MouseButton>| (pt, b) });
    let mut cx = Context::new();
    cx.mouse_button = Some(MouseButton::Left);
    let mut path: IdPath = vec![];
    let mut actions: Vec<Action> = vec![];
    let begin: Event<i32> = Event::TouchBegin { id: 0, positions: here(1), hits: vec![vec![0]] };
    t.process(&begin, &mut path, &mut cx, &mut actions);
    let end: Event<i32> = Event::TouchEnd { id: 0, positions: here(7) };
    t.process(&end, &mut path, &mut cx, &mut actions);
    assert_eq!(actions[0].downcast_ref::<(i32, Option<MouseButton>)>(), Some(&(7, Some(MouseButton::Left))));
}

#[test]
fn hover_with_position_runs_only_inside() {
    let h = Hover::new(leaf(), HoverFuncP { f: |_cx: &mut Context, pt: i32| pt });
    let mut cx = Context::new();
    let mut path: IdPath = vec![];
    let mut actions: Vec<Action> = vec![];
    let outside: Event<i32> = Event::TouchMove { id: 0, positions: here(3), delta: 0, hits: vec![] };
    h.process(&outside, &mut path, &mut cx, &mut actions);
    assert!(actions.is_empty());
    let inside: Event<i32> = Event::TouchMove { id: 0, positions: here(4), delta: 0, hits: vec![vec![0]] };
    h.process(&inside, &mut path, &mut cx, &mut actions);
    assert_eq!(actions.len(), 1);
    assert_eq!(actions[0].downcast_ref::<i32>(), Some(&4));

    let g = Hover::new(leaf(), HoverFunc { f: |_cx: &mut Context, inside: bool| inside });
    let mut actions: Vec<Action> = vec![];
    g.process(&outside, &mut path, &mut cx, &mut actions);
    assert_eq!(actions[0].downcast_ref::<bool>(), Some(&false));
    cx.mouse_button = Some(MouseButton::Left);
    g.process(&inside, &mut path, &mut cx, &mut actions);
    assert_eq!(actions.len(), 1);
}

#[test]
fn callbacks_get_the_position_local_to_their_view() {
    let t = Tap::new(leaf(), TapPositionFunc { f: |_cx: &mut Context, pt: i32, _b: Option<MouseButton>| pt });
    let mut cx = Context::new();
    let mut path: IdPath = vec![4];
    let mut actions: Vec<Action> = vec![];
    let begin: Event<i32> = Event::TouchBegin { id: 0, positions: vec![], hits: vec![vec![4, 0]] };
    t.process(&begin, &mut path, &mut cx, &mut actions);
    let positions = vec![Located { path: vec![9], pt: 100 }, Located { path: vec![4], pt: 7 }, Located { path: vec![4], pt: 8 }];
    let end: Event<i32> = Event::TouchEnd { id: 0, positions };
    t.process(&end, &mut path, &mut cx, &mut actions);
    assert_eq!(actions[0].downcast_ref::<i32>(), Some(&7));

    // No position listed for the view: the default position.
    t.process(&begin, &mut path, &mut cx, &mut actions);
    let end: Event<i32> = Event::TouchEnd { id: 0, positions: vec![Located { path: vec![9], pt: 100 }] };
    t.process(&end, &mut path, &mut cx, &mut actions);
    assert_eq!(actions[1].downcast_ref::<i32>(), Some(&0));
}

#[test]
fn test_drag() {
    let mut cx = Context::new();
    let ui = state(
        || Vec::<GestureState>::new(),
        |states: State<Vec<GestureState>>, _cx: &Context| {
            Drag::new(
                leaf(),
                DragFunc {
                    f: move |cx: &mut Context, _delta: i32, st: GestureState, _b: Option<MouseButton>| {
                        let mut v = states.get(cx).cloned().unwrap_or_default();
                        v.push(st);
                        states.set(cx, v);
                    },
                },
            )
        },
    );
    let mut path: IdPath = vec![0];
    let s = State::<Vec<GestureState>>::new(cx.view_id(&path));
    assert_eq!(s.get(&cx), None);

    let events: [Event<i32>; 3] = [
        Event::TouchBegin { id: 0, positions: vec![], hits: vec![vec![0, 0, 0]] },
        Event::TouchMove { id: 0, positions: vec![], delta: 10, hits: vec![vec![0, 0, 0]] },
        Event::TouchEnd { id: 0, positions: vec![] },
    ];
    let mut actions: Vec<Action> = vec![];
    for event in &events {
        ui.process(event, &mut path, &mut cx, &mut actions);
    }
    assert_eq!(path.len(), 1);
    assert_eq!(
        s.get(&cx),
        Some(&vec![GestureState::Began, GestureState::Changed, GestureState::Ended])
    );
}

#[test]
fn state_is_made_once_and_kept() {
    let made = Rc::new(Cell::new(0));
    let m = made.clone();
    let ui = state(move || { m.set(m.get() + 1); 7u32 }, |_s: State<u32>, _cx: &Context| leaf());
    let mut cx = Context::new();
    let mut path: IdPath = vec![];
    let mut actions: Vec<Action> = vec![];
    let ev: Event<i32> = Event::Anim;
    ui.process(&ev, &mut path, &mut cx, &mut actions);
    ui.process(&ev, &mut path, &mut cx, &mut actions);
    assert_eq!(made.get(), 1);
    let s = State::<u32>::new(view_id(&vec![]));
    assert_eq!(s.get(&cx), Some(&7));
    s.set(&mut cx, 9);
    ui.process(&ev, &mut path, &mut cx, &mut actions);
    assert_eq!(s.get(&cx), Some(&9));
    assert!(cx.states[&view_id(&vec![]).id].dirty);
    let set = s.setter();
    set(3, &mut cx);
    assert_eq!(s.get(&cx), Some(&3));
}

#[test]
fn with_cx_builds_from_the_context() {
    let ui = with_cx(|cx: &Context| cond(cx.fullscreen, leaf(), rui::views::emptyview::EmptyView {}));
    let mut cx = Context::new();
    let mut path: IdPath = vec![];
    assert_eq!(ui.hittest(&mut path, &vec![vec![0, 0]], &cx), None);
    cx.fullscreen = true;
    assert_eq!(ui.hittest(&mut path, &vec![vec![0, 0]], &cx), Some(view_id(&vec![0, 0])));
}
