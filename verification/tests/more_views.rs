use rui::context::Context;
use rui::access::{accesskit_nodes, role, RoleName};
use rui::views::role::RoleView;
use rui::views::background::Background;
use rui::event::{Event, Key, Located};
use rui::event_loop::{collect_access, collect_commands};
use rui::id::{view_id, IdPath, ViewId};
use rui::view::{Action, CommandInfo, DynView, ViewCore};
use rui::views::anyview::any_view;
use rui::views::canvas::{canvas, Canvas};
use rui::views::clip::Clip;
use rui::views::command::{command, Command, CommandBase, CommandGroup};
use rui::views::cond::cond;
use rui::views::emptyview::EmptyView;
use rui::views::focus::focus;
use rui::views::geom::Geom;
use rui::views::handle::Handle;
use rui::views::key::KeyView;
use rui::views::modview::{modview, ModView};
use rui::views::spacer::Spacer;
use rui::views::stack::hstack;
use rui::views::state::State;
use rui::views::tap::{Tap, TapActionAdapter};
use rui::views::window::{FullscreenView, TitleView};
use std::cell::Cell;
use std::rc::Rc;

fn leaf() -> Canvas<()> {
    canvas(())
}

fn tap_cycle<V: DynView<i32>>(v: &V, path: &mut IdPath, cx: &mut Context, actions: &mut Vec<Action>, hit: IdPath) {
    let begin: Event<i32> = Event::TouchBegin { id: 0, positions: vec![], hits: vec![hit] };
    v.process(&begin, path, cx, actions);
    let end: Event<i32> = Event::TouchEnd { id: 0, positions: vec![] };
    v.process(&end, path, cx, actions);
}

#[test]
fn type_ids_tell_view_types_apart() {
    assert_ne!(EmptyView {}.tid(), Spacer {}.tid());
    let a = any_view::<(), EmptyView>(EmptyView {});
    let b = any_view::<(), Spacer>(Spacer {});
    assert_ne!(a.tid(), b.tid());
    assert_eq!(a.tid(), EmptyView {}.tid());
    assert_eq!(a.id_hash(), a.key);
}

#[test]
fn any_view_child_sits_under_its_type_hash() {
    let a = any_view::<(), Canvas<()>>(leaf());
    let cx = Context::new();
    let mut path: IdPath = vec![];
    let hits = vec![vec![a.key]];
    assert_eq!(a.hittest(&mut path, &hits, &cx), Some(view_id(&vec![a.key])));
    let wrong = vec![vec![0u64]];
    if a.key != 0 {
        assert_eq!(a.hittest(&mut path, &wrong, &cx), None);
    }
}

#[test]
fn commands_are_collected_from_the_root_path() {
    let ui = Command::new(hstack((leaf(), leaf())), "Edit:Undo".to_string(), None, |_cx: &mut Context| {});
    let mut cx = Context::new();
    let cmds: Vec<CommandInfo> = collect_commands(&mut cx, &ui);
    assert_eq!(cmds.len(), 1);
    assert_eq!(cmds[0].path, "Edit:Undo");
}

#[test]
fn geom_keeps_its_own_id_then_the_child() {
    let g = Geom::new(leaf(), ());
    let mut cx = Context::new();
    let mut path: IdPath = vec![2];
    let mut map: Vec<ViewId> = vec![];
    g.gc(&mut path, &mut cx, &mut map);
    assert_eq!(map, vec![view_id(&vec![2]), view_id(&vec![2, 0])]);
}

#[test]
fn clip_passes_hits_to_its_child() {
    let c = Clip::new(leaf());
    let cx = Context::new();
    let mut path: IdPath = vec![];
    assert_eq!(c.hittest(&mut path, &vec![vec![0]], &cx), Some(view_id(&vec![0])));
    assert_eq!(c.hittest(&mut path, &vec![vec![]], &cx), None);
}

#[test]
fn key_view_takes_key_presses_and_passes_the_rest() {
    let inner = Tap::new(leaf(), TapActionAdapter { action: 1u8 });
    let k = KeyView::new_pressed(inner, |_cx: &mut Context, key: Key| key);
    let mut cx = Context::new();
    let mut path: IdPath = vec![];
    let mut actions: Vec<Action> = vec![];
    let press: Event<i32> = Event::Key(Key::Enter);
    k.process(&press, &mut path, &mut cx, &mut actions);
    assert_eq!(actions.len(), 1);
    assert_eq!(actions[0].downcast_ref::<Key>(), Some(&Key::Enter));
    let release: Event<i32> = Event::KeyReleased(Key::Enter);
    k.process(&release, &mut path, &mut cx, &mut actions);
    assert_eq!(actions.len(), 1);
    tap_cycle(&k, &mut path, &mut cx, &mut actions, vec![0, 0]);
    assert_eq!(actions.len(), 2);
    assert_eq!(actions[1].downcast_ref::<u8>(), Some(&1));
}

#[test]
fn handle_replaces_actions_of_its_type() {
    let inner = Tap::new(leaf(), TapActionAdapter { action: 21u32 });
    let h = Handle::<_, _, u32, u32>::new(inner, |_cx: &mut Context, a: &u32| a * 2);
    let mut cx = Context::new();
    let mut path: IdPath = vec![];
    let mut actions: Vec<Action> = vec![];
    tap_cycle(&h, &mut path, &mut cx, &mut actions, vec![0, 0]);
    assert_eq!(actions.len(), 1);
    assert_eq!(actions[0].downcast_ref::<u32>(), Some(&42));

    let other = Handle::<_, _, u32, u32>::new(Tap::new(leaf(), TapActionAdapter { action: "a" }), |_cx: &mut Context, a: &u32| a * 2);
    let mut actions: Vec<Action> = vec![];
    tap_cycle(&other, &mut path, &mut cx, &mut actions, vec![0, 0]);
    assert_eq!(actions[0].downcast_ref::<&str>(), Some(&"a"));
}

#[test]
fn command_runs_when_named() {
    let c = Command::new(leaf(), "File:Save".to_string(), None, |cx: &mut Context| cx.fullscreen = true);
    let mut cx = Context::new();
    let mut path: IdPath = vec![];
    let mut actions: Vec<Action> = vec![];
    let other: Event<i32> = Event::Command("File:Open".to_string());
    c.process(&other, &mut path, &mut cx, &mut actions);
    assert!(!cx.fullscreen);
    let named: Event<i32> = Event::Command("File:Save".to_string());
    c.process(&named, &mut path, &mut cx, &mut actions);
    assert!(cx.fullscreen);
}

#[test]
fn command_group_runs_the_commands_named() {
    let count = Rc::new(Cell::new(0));
    let c1 = count.clone();
    let c2 = count.clone();
    let g = CommandGroup::new(
        leaf(),
        (
            command("A").action(move || c1.set(c1.get() + 1)),
            command("B").action(move || c2.set(c2.get() + 10)),
        ),
    );
    let mut cx = Context::new();
    let mut path: IdPath = vec![];
    let mut actions: Vec<Action> = vec![];
    let b: Event<i32> = Event::Command("B".to_string());
    g.process(&b, &mut path, &mut cx, &mut actions);
    assert_eq!(count.get(), 10);
    let a: Event<i32> = Event::Command("A".to_string());
    g.process(&a, &mut path, &mut cx, &mut actions);
    assert_eq!(count.get(), 11);
}

#[test]
fn commands_report_their_names_and_run() {
    let ran = Rc::new(Cell::new(false));
    let r = ran.clone();
    let c = command("Run").action(move || r.set(true));
    assert_eq!(c.name(), "Run");
    assert_eq!(c.key(), None);
    c.exec();
    assert!(ran.get());
    let n = command("Nothing");
    n.exec();
    assert_eq!(n.name(), "Nothing");
}

#[test]
fn window_views_record_their_requests() {
    let mut cx = Context::new();
    let t = TitleView::new(leaf(), "hello");
    t.apply(&mut cx);
    assert_eq!(cx.window_title, "hello");
    let f = FullscreenView::new(leaf());
    assert!(!cx.fullscreen);
    f.apply(&mut cx);
    assert!(cx.fullscreen);
}

#[test]
fn focus_builds_its_subtree_for_the_focus_state() {
    let f = focus(|has_focus: bool| cond(has_focus, leaf(), leaf()));
    let mut cx = Context::new();
    let mut path: IdPath = vec![];
    let hits = vec![vec![0, 1]];
    assert_eq!(f.hittest(&mut path, &hits, &cx), Some(view_id(&vec![0, 1])));
    let mut actions: Vec<Action> = vec![];
    let begin: Event<i32> = Event::TouchBegin { id: 0, positions: vec![], hits: hits.clone() };
    f.process(&begin, &mut path, &mut cx, &mut actions);
    assert_eq!(cx.focused_id, Some(view_id(&vec![])));
    // Now focused, the subtree shows its other branch.
    assert_eq!(f.hittest(&mut path, &hits, &cx), None);
    assert_eq!(f.hittest(&mut path, &vec![vec![0, 0]], &cx), Some(view_id(&vec![0, 0])));
}

#[test]
fn cond_routes_events_to_the_view_shown() {
    let c = cond(false, Tap::new(leaf(), TapActionAdapter { action: 't' }), Tap::new(leaf(), TapActionAdapter { action: 'f' }));
    let mut cx = Context::new();
    let mut path: IdPath = vec![];
    let mut actions: Vec<Action> = vec![];
    tap_cycle(&c, &mut path, &mut cx, &mut actions, vec![1, 0]);
    assert_eq!(actions.len(), 1);
    assert_eq!(actions[0].downcast_ref::<char>(), Some(&'f'));
}

#[test]
fn state_handles_copy_their_id() {
    let s: State<u32> = State::new(view_id(&vec![3]));
    let t = s;
    assert_eq!(s.id, t.id);
    let u = s.clone();
    assert_eq!(u.id, view_id(&vec![3]));
}

#[test]
fn local_position_takes_the_first_listed_for_the_path() {
    let positions = vec![
        Located { path: vec![1], pt: 5 },
        Located { path: vec![2], pt: 6 },
        Located { path: vec![1], pt: 7 },
    ];
    assert_eq!(rui::event::local_position(&positions, &vec![1]), 5);
    assert_eq!(rui::event::local_position(&positions, &vec![2]), 6);
    assert_eq!(rui::event::local_position(&positions, &vec![3]), 0);
}

#[test]
fn accessibility_tree_of_a_stack_of_roles() {
    let ui = hstack((
        RoleView::new(leaf(), role(RoleName::Button)),
        leaf(),
        RoleView::new(leaf(), role(RoleName::Label)),
    ));
    let cx = Context::new();
    let (nodes, root) = collect_access(&cx, &ui);
    assert_eq!(root, Some(view_id(&vec![0]).id));
    assert_eq!(nodes.len(), 3);
    assert_eq!(nodes[0].id, view_id(&vec![0, 0]).id);
    assert_eq!(nodes[0].role, accesskit::Role::Button);
    assert!(nodes[0].children.is_empty());
    assert_eq!(nodes[1].id, view_id(&vec![0, 2]).id);
    assert_eq!(nodes[1].role, accesskit::Role::StaticText);
    assert_eq!(nodes[2].id, view_id(&vec![0]).id);
    assert_eq!(nodes[2].role, accesskit::Role::List);
    assert_eq!(nodes[2].children, vec![view_id(&vec![0, 0]).id, view_id(&vec![0, 2]).id]);
    assert_eq!(nodes[2].name, None);

    let mut classes = accesskit::NodeClassSet::new();
    let built = accesskit_nodes(&nodes, &mut classes);
    assert_eq!(built.len(), 3);
    assert_eq!(built[2].0, accesskit::NodeId(view_id(&vec![0]).id));
    assert_eq!(built[2].1.role(), accesskit::Role::List);
    assert_eq!(built[2].1.children(), &[accesskit::NodeId(view_id(&vec![0, 0]).id), accesskit::NodeId(view_id(&vec![0, 2]).id)]);
}

#[test]
fn commands_and_backgrounds_in_the_accessibility_tree() {
    let cx = Context::new();
    let c = Command::new(RoleView::new(leaf(), role(RoleName::Button)), "X".to_string(), None, |_cx: &mut Context| {});
    let (nodes, root) = collect_access(&cx, &c);
    assert!(nodes.is_empty());
    assert_eq!(root, None);
    let b = Background::new(leaf(), RoleView::new(leaf(), role(RoleName::Button)));
    let (nodes, root) = collect_access(&cx, &b);
    assert!(nodes.is_empty());
    assert_eq!(root, None);
    let b = Background::new(RoleView::new(leaf(), role(RoleName::Label)), leaf());
    let (nodes, root) = collect_access(&cx, &b);
    assert_eq!(nodes.len(), 1);
    assert_eq!(root, Some(view_id(&vec![0, 0]).id));
}

#[test]
fn modview_builds_from_the_default_value_and_keeps_its_own_id() {
    let m = modview(|n: u32, _cx: &Context| cond(n == 0, leaf(), EmptyView {}));
    assert_eq!(m.value, 0);
    let mut cx = Context::new();
    let mut path: IdPath = vec![4];
    let mut map: Vec<ViewId> = vec![];
    m.gc(&mut path, &mut cx, &mut map);
    assert_eq!(map, vec![view_id(&vec![4]), view_id(&vec![4, 0, 0])]);
    assert_eq!(path, vec![4]);
    assert_eq!(m.hittest(&mut path, &vec![vec![4, 0, 0]], &cx), Some(view_id(&vec![4, 0, 0])));
}

#[test]
fn modview_rebuilds_from_a_changed_value() {
    let m = modview(|n: u32, _cx: &Context| cond(n == 0, leaf(), EmptyView {}));
    let changed = ModView { func: m.func, value: 3u32 };
    let cx = Context::new();
    let mut path: IdPath = vec![];
    assert_eq!(changed.hittest(&mut path, &vec![vec![0, 0]], &cx), None);
    let mut map: Vec<ViewId> = vec![];
    let mut cx2 = Context::new();
    changed.gc(&mut path, &mut cx2, &mut map);
    assert_eq!(map, vec![view_id(&vec![])]);
}

#[test]
fn accesskit_nodes_carry_role_children_and_name() {
    let nodes = vec![rui::access::AccessNode {
        id: 7,
        role: role(RoleName::Label),
        children: vec![3, 4],
        name: Some("Hello".to_string()),
    }];
    let mut classes = accesskit::NodeClassSet::new();
    let built = accesskit_nodes(&nodes, &mut classes);
    assert_eq!(built[0].0, accesskit::NodeId(7));
    assert_eq!(built[0].1.role(), accesskit::Role::StaticText);
    assert_eq!(built[0].1.children(), &[accesskit::NodeId(3), accesskit::NodeId(4)]);
    assert_eq!(built[0].1.name(), Some("Hello"));
}
