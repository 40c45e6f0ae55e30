//! Menu commands: named actions with optional hotkeys, offered by views.
use vstd::prelude::*;
use crate::access::{access_of, AccessEntry, AccessNode};
use crate::context::Context;
use crate::event::{Event, HotKey};
use crate::id::{IdPath, ViewId};
use crate::view::{lemma_menu_push, menu_entry, menu_of, Action, CommandInfo, DynView, ViewCore, lemma_hit_under_parent};

verus! {

/// Struct for a view offering one menu command, run through the context.
pub struct Command<V, F> {
    pub child: V,
    pub name: String,
    pub key: Option<HotKey>,
    pub func: F,
}

impl<V: ViewCore, F: Fn(&mut Context) + 'static> Command<V, F> {
    pub fn new(v: V, name: String, key: Option<HotKey>, f: F) -> (c: Self)
        ensures
            c.child == v,
            c.name == name,
            c.key == key,
            c.func == f,
    {
        Self { child: v, name, key, func: f }
    }
}

impl<V: ViewCore, F: Fn(&mut Context) + 'static> ViewCore for Command<V, F> {
    open spec fn wf(&self) -> bool {
        self.child.wf() && forall|cx: &mut Context| self.func.requires((cx,))
    }

    open spec fn flexible(&self) -> bool {
        false
    }

    open spec fn hit(&self, path: Seq<u64>, hits: Seq<Seq<u64>>, cx: Context) -> Option<ViewId> {
        self.child.hit(path.push(0), hits, cx)
    }

    /// The child's commands, then this one.
    open spec fn menu(&self, path: Seq<u64>, cx: Context) -> Seq<(Seq<char>, Option<HotKey>)> {
        self.child.menu(path.push(0), cx).push((self.name@, self.key))
    }

    open spec fn kept(&self, path: Seq<u64>, cx: Context) -> Seq<ViewId> {
        self.child.kept(path.push(0), cx)
    }

    /// A command view adds no accessibility node, and its child none either.
    open spec fn access_nodes(&self, path: Seq<u64>, cx: Context) -> Seq<AccessEntry> {
        Seq::empty()
    }

    open spec fn access_root(&self, path: Seq<u64>, cx: Context) -> Option<u64> {
        None
    }

    fn hittest(&self, path: &mut IdPath, hits: &Vec<IdPath>, cx: &Context) -> (r: Option<ViewId>) {
        let ghost p0 = path@;
        path.push(0);
        let id = self.child.hittest(path, hits, cx);
        path.pop();
        proof {
            if let Some(v) = id {
                lemma_hit_under_parent(hits.deep_view(), p0, 0, v);
            }
        }
        id
    }

    fn commands(&self, path: &mut IdPath, cx: &mut Context, cmds: &mut Vec<CommandInfo>) {
        let ghost c0 = cmds@;
        let ghost p0 = path@;
        let ghost cx0 = *cx;
        path.push(0);
        self.child.commands(path, cx, cmds);
        path.pop();
        let info = CommandInfo { path: self.name.clone(), key: self.key };
        let ghost c1 = cmds@;
        cmds.push(info);
        proof {
            lemma_menu_push(c1, info);
            assert(menu_of(cmds@) =~= menu_of(c0) + self.menu(p0, cx0));
        }
    }

    fn gc(&self, path: &mut IdPath, cx: &mut Context, map: &mut Vec<ViewId>) {
        path.push(0);
        self.child.gc(path, cx, map);
        path.pop();
    }

    fn access(&self, path: &mut IdPath, cx: &Context, nodes: &mut Vec<AccessNode>) -> (r: Option<u64>) {
        assert(access_of(nodes@) + Seq::empty() =~= access_of(nodes@));
        None
    }

    fn is_flexible(&self) -> (b: bool) {
        false
    }
}

impl<D: 'static, V: DynView<D>, F: Fn(&mut Context) + 'static> DynView<D> for Command<V, F> {
    open spec fn ready(&self) -> bool {
        self.child.ready()
    }

    /// A command event naming this command runs it, a closure called from
    /// the context `before`; then the child handles the event, from the
    /// context the closure left (which is not tied to the call here).
    open spec fn processed(&self, event: Event<D>, path: Seq<u64>, before: Context, after: Context, added: nat) -> bool {
        match event {
            Event::Command(name) => if name@ == self.name@ {
                &&& exists|c: &mut Context| *c == before && #[trigger] self.func.ensures((c,), ())
                &&& exists|mid: Context|
                    #![trigger self.child.processed(event, path.push(0), mid, after, added)]
                    self.child.processed(event, path.push(0), mid, after, added)
            } else {
                self.child.processed(event, path.push(0), before, after, added)
            },
            _ => self.child.processed(event, path.push(0), before, after, added),
        }
    }

    fn process(&self, event: &Event<D>, path: &mut IdPath, cx: &mut Context, actions: &mut Vec<Action>) {
        let ghost p0 = path@;
        let ghost n0 = actions@.len();
        if let Event::Command(name) = event {
            if *name == self.name {
                (self.func)(cx);
            }
        }
        let ghost mid = *cx;
        path.push(0);
        self.child.process(event, path, cx, actions);
        path.pop();
        proof {
            assert(self.child.processed(*event, p0.push(0), mid, *cx, (actions@.len() - n0) as nat));
        }
    }
}

/// A menu command that runs without the context.
pub trait CommandBase: 'static {
    /// The command's name.
    spec fn spec_name(&self) -> Seq<char>;

    /// The command's hotkey, as reported.
    spec fn spec_key(&self) -> Option<HotKey>;

    /// The command accepts being run.
    spec fn runnable(&self) -> bool;

    /// What holds once the command has run: its action's own guarantee.
    spec fn ran(&self) -> bool;

    /// Runs the command's action.
    fn exec(&self)
        requires
            self.runnable(),
        ensures
            self.ran(),
    ;

    fn name(&self) -> (s: String)
        ensures
            s@ == self.spec_name(),
    ;

    fn key(&self) -> (k: Option<HotKey>)
        ensures
            k == self.spec_key(),
    ;
}

/// A tuple of menu commands.
pub trait CommandTuple: 'static {
    /// Number of commands.
    spec fn spec_len(&self) -> nat;

    /// Name of the command at `i`.
    spec fn name_at(&self, i: int) -> Seq<char>;

    /// Hotkey of the command at `i`.
    spec fn key_at(&self, i: int) -> Option<HotKey>;

    /// Every command accepts being run.
    spec fn runnable(&self) -> bool;

    fn len(&self) -> (n: usize)
        ensures
            n == self.spec_len(),
    ;

    /// Whether the tuple is empty; a tuple never is.
    fn is_empty(&self) -> (b: bool)
        ensures
            !b,
    {
        false
    }

    /// Name of the command at `i`.
    fn cmd_name(&self, i: usize) -> (s: String)
        requires
            i < self.spec_len(),
        ensures
            s@ == self.name_at(i as int),
    ;

    /// Hotkey of the command at `i`.
    fn cmd_key(&self, i: usize) -> (k: Option<HotKey>)
        requires
            i < self.spec_len(),
        ensures
            k == self.key_at(i as int),
    ;

    /// What holds once the command at `i` has run.
    spec fn ran_at(&self, i: int) -> bool;

    /// Runs the command at `i`.
    fn exec_cmd(&self, i: usize)
        requires
            self.runnable(),
            i < self.spec_len(),
        ensures
            self.ran_at(i as int),
    ;
}

impl<A: CommandBase> CommandTuple for (A,) {
    open spec fn spec_len(&self) -> nat {
        1
    }

    open spec fn name_at(&self, i: int) -> Seq<char> {
        self.0.spec_name()
    }

    open spec fn key_at(&self, i: int) -> Option<HotKey> {
        self.0.spec_key()
    }

    open spec fn ran_at(&self, i: int) -> bool {
        self.0.ran()
    }

    open spec fn runnable(&self) -> bool {
        self.0.runnable()
    }

    fn len(&self) -> (n: usize) {
        1
    }

    fn cmd_name(&self, i: usize) -> (s: String) {
        self.0.name()
    }

    fn cmd_key(&self, i: usize) -> (k: Option<HotKey>) {
        self.0.key()
    }

    fn exec_cmd(&self, i: usize) {
        self.0.exec()
    }
}

impl<A: CommandBase, B: CommandBase> CommandTuple for (A, B) {
    open spec fn spec_len(&self) -> nat {
        2
    }

    open spec fn name_at(&self, i: int) -> Seq<char> {
        if i == 0 { self.0.spec_name() } else { self.1.spec_name() }
    }

    open spec fn key_at(&self, i: int) -> Option<HotKey> {
        if i == 0 { self.0.spec_key() } else { self.1.spec_key() }
    }

    open spec fn ran_at(&self, i: int) -> bool {
        if i == 0 { self.0.ran() } else { self.1.ran() }
    }

    open spec fn runnable(&self) -> bool {
        self.0.runnable() && self.1.runnable()
    }

    fn len(&self) -> (n: usize) {
        2
    }

    fn cmd_name(&self, i: usize) -> (s: String) {
        match i {
            0 => self.0.name(),
            _ => self.1.name(),
        }
    }

    fn cmd_key(&self, i: usize) -> (k: Option<HotKey>) {
        match i {
            0 => self.0.key(),
            _ => self.1.key(),
        }
    }

    fn exec_cmd(&self, i: usize) {
        match i {
            0 => self.0.exec(),
            _ => self.1.exec(),
        }
    }
}

impl<A: CommandBase, B: CommandBase, C: CommandBase> CommandTuple for (A, B, C) {
    open spec fn spec_len(&self) -> nat {
        3
    }

    open spec fn name_at(&self, i: int) -> Seq<char> {
        if i == 0 { self.0.spec_name() } else if i == 1 { self.1.spec_name() } else { self.2.spec_name() }
    }

    open spec fn key_at(&self, i: int) -> Option<HotKey> {
        if i == 0 { self.0.spec_key() } else if i == 1 { self.1.spec_key() } else { self.2.spec_key() }
    }

    open spec fn ran_at(&self, i: int) -> bool {
        if i == 0 { self.0.ran() } else if i == 1 { self.1.ran() } else { self.2.ran() }
    }

    open spec fn runnable(&self) -> bool {
        self.0.runnable() && self.1.runnable() && self.2.runnable()
    }

    fn len(&self) -> (n: usize) {
        3
    }

    fn cmd_name(&self, i: usize) -> (s: String) {
        match i {
            0 => self.0.name(),
            1 => self.1.name(),
            _ => self.2.name(),
        }
    }

    fn cmd_key(&self, i: usize) -> (k: Option<HotKey>) {
        match i {
            0 => self.0.key(),
            1 => self.1.key(),
            _ => self.2.key(),
        }
    }

    fn exec_cmd(&self, i: usize) {
        match i {
            0 => self.0.exec(),
            1 => self.1.exec(),
            _ => self.2.exec(),
        }
    }
}

impl<A: CommandBase, B: CommandBase, C: CommandBase, D: CommandBase> CommandTuple for (A, B, C, D) {
    open spec fn spec_len(&self) -> nat {
        4
    }

    open spec fn name_at(&self, i: int) -> Seq<char> {
        if i == 0 { self.0.spec_name() } else if i == 1 { self.1.spec_name() } else if i == 2 { self.2.spec_name() } else { self.3.spec_name() }
    }

    open spec fn key_at(&self, i: int) -> Option<HotKey> {
        if i == 0 { self.0.spec_key() } else if i == 1 { self.1.spec_key() } else if i == 2 { self.2.spec_key() } else { self.3.spec_key() }
    }

    open spec fn ran_at(&self, i: int) -> bool {
        if i == 0 { self.0.ran() } else if i == 1 { self.1.ran() } else if i == 2 { self.2.ran() } else { self.3.ran() }
    }

    open spec fn runnable(&self) -> bool {
        self.0.runnable() && self.1.runnable() && self.2.runnable() && self.3.runnable()
    }

    fn len(&self) -> (n: usize) {
        4
    }

    fn cmd_name(&self, i: usize) -> (s: String) {
        match i {
            0 => self.0.name(),
            1 => self.1.name(),
            2 => self.2.name(),
            _ => self.3.name(),
        }
    }

    fn cmd_key(&self, i: usize) -> (k: Option<HotKey>) {
        match i {
            0 => self.0.key(),
            1 => self.1.key(),
            2 => self.2.key(),
            _ => self.3.key(),
        }
    }

    fn exec_cmd(&self, i: usize) {
        match i {
            0 => self.0.exec(),
            1 => self.1.exec(),
            2 => self.2.exec(),
            _ => self.3.exec(),
        }
    }
}

impl<A: CommandBase, B: CommandBase, C: CommandBase, D: CommandBase, E: CommandBase> CommandTuple for (A, B, C, D, E) {
    open spec fn spec_len(&self) -> nat {
        5
    }

    open spec fn name_at(&self, i: int) -> Seq<char> {
        if i == 0 { self.0.spec_name() } else if i == 1 { self.1.spec_name() } else if i == 2 { self.2.spec_name() } else if i == 3 { self.3.spec_name() } else { self.4.spec_name() }
    }

    open spec fn key_at(&self, i: int) -> Option<HotKey> {
        if i == 0 { self.0.spec_key() } else if i == 1 { self.1.spec_key() } else if i == 2 { self.2.spec_key() } else if i == 3 { self.3.spec_key() } else { self.4.spec_key() }
    }

    open spec fn ran_at(&self, i: int) -> bool {
        if i == 0 { self.0.ran() } else if i == 1 { self.1.ran() } else if i == 2 { self.2.ran() } else if i == 3 { self.3.ran() } else { self.4.ran() }
    }

    open spec fn runnable(&self) -> bool {
        self.0.runnable() && self.1.runnable() && self.2.runnable() && self.3.runnable() && self.4.runnable()
    }

    fn len(&self) -> (n: usize) {
        5
    }

    fn cmd_name(&self, i: usize) -> (s: String) {
        match i {
            0 => self.0.name(),
            1 => self.1.name(),
            2 => self.2.name(),
            3 => self.3.name(),
            _ => self.4.name(),
        }
    }

    fn cmd_key(&self, i: usize) -> (k: Option<HotKey>) {
        match i {
            0 => self.0.key(),
            1 => self.1.key(),
            2 => self.2.key(),
            3 => self.3.key(),
            _ => self.4.key(),
        }
    }

    fn exec_cmd(&self, i: usize) {
        match i {
            0 => self.0.exec(),
            1 => self.1.exec(),
            2 => self.2.exec(),
            3 => self.3.exec(),
            _ => self.4.exec(),
        }
    }
}

impl<A: CommandBase, B: CommandBase, C: CommandBase, D: CommandBase, E: CommandBase, F: CommandBase> CommandTuple for (A, B, C, D, E, F) {
    open spec fn spec_len(&self) -> nat {
        6
    }

    open spec fn name_at(&self, i: int) -> Seq<char> {
        if i == 0 { self.0.spec_name() } else if i == 1 { self.1.spec_name() } else if i == 2 { self.2.spec_name() } else if i == 3 { self.3.spec_name() } else if i == 4 { self.4.spec_name() } else { self.5.spec_name() }
    }

    open spec fn key_at(&self, i: int) -> Option<HotKey> {
        if i == 0 { self.0.spec_key() } else if i == 1 { self.1.spec_key() } else if i == 2 { self.2.spec_key() } else if i == 3 { self.3.spec_key() } else if i == 4 { self.4.spec_key() } else { self.5.spec_key() }
    }

    open spec fn ran_at(&self, i: int) -> bool {
        if i == 0 { self.0.ran() } else if i == 1 { self.1.ran() } else if i == 2 { self.2.ran() } else if i == 3 { self.3.ran() } else if i == 4 { self.4.ran() } else { self.5.ran() }
    }

    open spec fn runnable(&self) -> bool {
        self.0.runnable() && self.1.runnable() && self.2.runnable() && self.3.runnable() && self.4.runnable() && self.5.runnable()
    }

    fn len(&self) -> (n: usize) {
        6
    }

    fn cmd_name(&self, i: usize) -> (s: String) {
        match i {
            0 => self.0.name(),
            1 => self.1.name(),
            2 => self.2.name(),
            3 => self.3.name(),
            4 => self.4.name(),
            _ => self.5.name(),
        }
    }

    fn cmd_key(&self, i: usize) -> (k: Option<HotKey>) {
        match i {
            0 => self.0.key(),
            1 => self.1.key(),
            2 => self.2.key(),
            3 => self.3.key(),
            4 => self.4.key(),
            _ => self.5.key(),
        }
    }

    fn exec_cmd(&self, i: usize) {
        match i {
            0 => self.0.exec(),
            1 => self.1.exec(),
            2 => self.2.exec(),
            3 => self.3.exec(),
            4 => self.4.exec(),
            _ => self.5.exec(),
        }
    }
}

impl<A: CommandBase, B: CommandBase, C: CommandBase, D: CommandBase, E: CommandBase, F: CommandBase, G: CommandBase> CommandTuple for (A, B, C, D, E, F, G) {
    open spec fn spec_len(&self) -> nat {
        7
    }

    open spec fn name_at(&self, i: int) -> Seq<char> {
        if i == 0 { self.0.spec_name() } else if i == 1 { self.1.spec_name() } else if i == 2 { self.2.spec_name() } else if i == 3 { self.3.spec_name() } else if i == 4 { self.4.spec_name() } else if i == 5 { self.5.spec_name() } else { self.6.spec_name() }
    }

    open spec fn key_at(&self, i: int) -> Option<HotKey> {
        if i == 0 { self.0.spec_key() } else if i == 1 { self.1.spec_key() } else if i == 2 { self.2.spec_key() } else if i == 3 { self.3.spec_key() } else if i == 4 { self.4.spec_key() } else if i == 5 { self.5.spec_key() } else { self.6.spec_key() }
    }

    open spec fn ran_at(&self, i: int) -> bool {
        if i == 0 { self.0.ran() } else if i == 1 { self.1.ran() } else if i == 2 { self.2.ran() } else if i == 3 { self.3.ran() } else if i == 4 { self.4.ran() } else if i == 5 { self.5.ran() } else { self.6.ran() }
    }

    open spec fn runnable(&self) -> bool {
        self.0.runnable() && self.1.runnable() && self.2.runnable() && self.3.runnable() && self.4.runnable() && self.5.runnable() && self.6.runnable()
    }

    fn len(&self) -> (n: usize) {
        7
    }

    fn cmd_name(&self, i: usize) -> (s: String) {
        match i {
            0 => self.0.name(),
            1 => self.1.name(),
            2 => self.2.name(),
            3 => self.3.name(),
            4 => self.4.name(),
            5 => self.5.name(),
            _ => self.6.name(),
        }
    }

    fn cmd_key(&self, i: usize) -> (k: Option<HotKey>) {
        match i {
            0 => self.0.key(),
            1 => self.1.key(),
            2 => self.2.key(),
            3 => self.3.key(),
            4 => self.4.key(),
            5 => self.5.key(),
            _ => self.6.key(),
        }
    }

    fn exec_cmd(&self, i: usize) {
        match i {
            0 => self.0.exec(),
            1 => self.1.exec(),
            2 => self.2.exec(),
            3 => self.3.exec(),
            4 => self.4.exec(),
            5 => self.5.exec(),
            _ => self.6.exec(),
        }
    }
}

impl<A: CommandBase, B: CommandBase, C: CommandBase, D: CommandBase, E: CommandBase, F: CommandBase, G: CommandBase, H: CommandBase> CommandTuple for (A, B, C, D, E, F, G, H) {
    open spec fn spec_len(&self) -> nat {
        8
    }

    open spec fn name_at(&self, i: int) -> Seq<char> {
        if i == 0 { self.0.spec_name() } else if i == 1 { self.1.spec_name() } else if i == 2 { self.2.spec_name() } else if i == 3 { self.3.spec_name() } else if i == 4 { self.4.spec_name() } else if i == 5 { self.5.spec_name() } else if i == 6 { self.6.spec_name() } else { self.7.spec_name() }
    }

    open spec fn key_at(&self, i: int) -> Option<HotKey> {
        if i == 0 { self.0.spec_key() } else if i == 1 { self.1.spec_key() } else if i == 2 { self.2.spec_key() } else if i == 3 { self.3.spec_key() } else if i == 4 { self.4.spec_key() } else if i == 5 { self.5.spec_key() } else if i == 6 { self.6.spec_key() } else { self.7.spec_key() }
    }

    open spec fn ran_at(&self, i: int) -> bool {
        if i == 0 { self.0.ran() } else if i == 1 { self.1.ran() } else if i == 2 { self.2.ran() } else if i == 3 { self.3.ran() } else if i == 4 { self.4.ran() } else if i == 5 { self.5.ran() } else if i == 6 { self.6.ran() } else { self.7.ran() }
    }

    open spec fn runnable(&self) -> bool {
        self.0.runnable() && self.1.runnable() && self.2.runnable() && self.3.runnable() && self.4.runnable() && self.5.runnable() && self.6.runnable() && self.7.runnable()
    }

    fn len(&self) -> (n: usize) {
        8
    }

    fn cmd_name(&self, i: usize) -> (s: String) {
        match i {
            0 => self.0.name(),
            1 => self.1.name(),
            2 => self.2.name(),
            3 => self.3.name(),
            4 => self.4.name(),
            5 => self.5.name(),
            6 => self.6.name(),
            _ => self.7.name(),
        }
    }

    fn cmd_key(&self, i: usize) -> (k: Option<HotKey>) {
        match i {
            0 => self.0.key(),
            1 => self.1.key(),
            2 => self.2.key(),
            3 => self.3.key(),
            4 => self.4.key(),
            5 => self.5.key(),
            6 => self.6.key(),
            _ => self.7.key(),
        }
    }

    fn exec_cmd(&self, i: usize) {
        match i {
            0 => self.0.exec(),
            1 => self.1.exec(),
            2 => self.2.exec(),
            3 => self.3.exec(),
            4 => self.4.exec(),
            5 => self.5.exec(),
            6 => self.6.exec(),
            _ => self.7.exec(),
        }
    }
}

/// The names and hotkeys of the commands of a tuple, in order.
pub open spec fn group_menu<C: CommandTuple>(cmds: C) -> Seq<(Seq<char>, Option<HotKey>)> {
    Seq::new(cmds.spec_len(), |i: int| (cmds.name_at(i), cmds.key_at(i)))
}

/// Struct for a view offering a group of menu commands.
pub struct CommandGroup<V, C> {
    pub child: V,
    pub cmds: C,
}

impl<V: ViewCore, C: CommandTuple> CommandGroup<V, C> {
    pub fn new(v: V, cmds: C) -> (g: Self)
        ensures
            g.child == v,
            g.cmds == cmds,
    {
        Self { child: v, cmds }
    }
}

impl<V: ViewCore, C: CommandTuple> ViewCore for CommandGroup<V, C> {
    open spec fn wf(&self) -> bool {
        self.child.wf() && self.cmds.runnable()
    }

    open spec fn flexible(&self) -> bool {
        false
    }

    open spec fn hit(&self, path: Seq<u64>, hits: Seq<Seq<u64>>, cx: Context) -> Option<ViewId> {
        self.child.hit(path.push(0), hits, cx)
    }

    /// The child's commands, then the group's, in order.
    open spec fn menu(&self, path: Seq<u64>, cx: Context) -> Seq<(Seq<char>, Option<HotKey>)> {
        self.child.menu(path.push(0), cx) + group_menu(self.cmds)
    }

    open spec fn kept(&self, path: Seq<u64>, cx: Context) -> Seq<ViewId> {
        self.child.kept(path.push(0), cx)
    }

    open spec fn access_nodes(&self, path: Seq<u64>, cx: Context) -> Seq<AccessEntry> {
        self.child.access_nodes(path.push(0), cx)
    }

    open spec fn access_root(&self, path: Seq<u64>, cx: Context) -> Option<u64> {
        self.child.access_root(path.push(0), cx)
    }

    fn hittest(&self, path: &mut IdPath, hits: &Vec<IdPath>, cx: &Context) -> (r: Option<ViewId>) {
        let ghost p0 = path@;
        path.push(0);
        let id = self.child.hittest(path, hits, cx);
        path.pop();
        proof {
            if let Some(v) = id {
                lemma_hit_under_parent(hits.deep_view(), p0, 0, v);
            }
        }
        id
    }

    fn commands(&self, path: &mut IdPath, cx: &mut Context, cmds: &mut Vec<CommandInfo>) {
        let ghost c0 = cmds@;
        let ghost p0 = path@;
        let ghost cx0 = *cx;
        path.push(0);
        self.child.commands(path, cx, cmds);
        path.pop();
        let ghost c1 = cmds@;
        let n = self.cmds.len();
        for i in 0..n
            invariant
                n == self.cmds.spec_len(),
                menu_of(cmds@) == menu_of(c1) + group_menu(self.cmds).take(i as int),
        {
            let info = CommandInfo { path: self.cmds.cmd_name(i), key: self.cmds.cmd_key(i) };
            let ghost before = cmds@;
            cmds.push(info);
            proof {
                lemma_menu_push(before, info);
                assert(group_menu(self.cmds).take(i + 1) =~= group_menu(self.cmds).take(i as int).push(menu_entry(info)));
                assert(menu_of(cmds@) =~= menu_of(c1) + group_menu(self.cmds).take(i + 1));
            }
        }
        proof {
            assert(group_menu(self.cmds).take(n as int) =~= group_menu(self.cmds));
            assert(menu_of(cmds@) =~= menu_of(c0) + self.menu(p0, cx0));
        }
    }

    fn gc(&self, path: &mut IdPath, cx: &mut Context, map: &mut Vec<ViewId>) {
        path.push(0);
        self.child.gc(path, cx, map);
        path.pop();
    }

    fn access(&self, path: &mut IdPath, cx: &Context, nodes: &mut Vec<AccessNode>) -> (r: Option<u64>) {
        path.push(0);
        let id = self.child.access(path, cx, nodes);
        path.pop();
        id
    }

    fn is_flexible(&self) -> (b: bool) {
        false
    }
}

impl<D: 'static, V: DynView<D>, C: CommandTuple> DynView<D> for CommandGroup<V, C> {
    open spec fn ready(&self) -> bool {
        self.child.ready()
    }

    /// A command event runs every command of the group with that name (they
    /// do not see the context); then the child handles the event.
    open spec fn processed(&self, event: Event<D>, path: Seq<u64>, before: Context, after: Context, added: nat) -> bool {
        &&& event matches Event::Command(name) ==> forall|i: int|
            0 <= i < self.cmds.spec_len() && #[trigger] self.cmds.name_at(i) == name@ ==> self.cmds.ran_at(i)
        &&& self.child.processed(event, path.push(0), before, after, added)
    }

    fn process(&self, event: &Event<D>, path: &mut IdPath, cx: &mut Context, actions: &mut Vec<Action>) {
        if let Event::Command(name) = event {
            let n = self.cmds.len();
            for i in 0..n
                invariant
                    n == self.cmds.spec_len(),
                    self.cmds.runnable(),
                    forall|j: int| 0 <= j < i && #[trigger] self.cmds.name_at(j) == name@ ==> self.cmds.ran_at(j),
            {
                let cname = self.cmds.cmd_name(i);
                if cname == *name {
                    self.cmds.exec_cmd(i);
                }
            }
        }
        path.push(0);
        self.child.process(event, path, cx, actions);
        path.pop();
    }
}

/// A menu command with no action.
pub struct NullCommand {
    pub name: String,
    pub key: Option<HotKey>,
}

/// Specifies a menu command.
pub fn command(name: &str) -> (c: NullCommand)
    ensures
        c.name@ == name@,
        c.key is None,
{
    NullCommand { name: name.to_string(), key: None }
}

impl CommandBase for NullCommand {
    open spec fn spec_name(&self) -> Seq<char> {
        self.name@
    }

    open spec fn spec_key(&self) -> Option<HotKey> {
        self.key
    }

    open spec fn runnable(&self) -> bool {
        true
    }

    /// There is no action.
    open spec fn ran(&self) -> bool {
        true
    }

    fn exec(&self) {
    }

    fn name(&self) -> (s: String) {
        self.name.clone()
    }

    fn key(&self) -> (k: Option<HotKey>) {
        self.key
    }
}

impl NullCommand {
    /// Adds a hotkey to the menu command.
    pub fn hotkey(self, key: HotKey) -> (c: Self)
        ensures
            c.name == self.name,
            c.key == Some(key),
    {
        Self { name: self.name, key: Some(key) }
    }

    /// Adds an action to the menu command.
    pub fn action<F: Fn() + 'static>(self, func: F) -> (c: Command2<F>)
        ensures
            c.name == self.name,
            c.key == self.key,
            c.func == func,
    {
        Command2 { name: self.name, key: self.key, func }
    }
}

/// A menu command with an action.
pub struct Command2<F: Fn()> {
    pub name: String,
    pub key: Option<HotKey>,
    pub func: F,
}

impl<F: Fn() + 'static> CommandBase for Command2<F> {
    open spec fn spec_name(&self) -> Seq<char> {
        self.name@
    }

    open spec fn spec_key(&self) -> Option<HotKey> {
        self.key
    }

    open spec fn runnable(&self) -> bool {
        self.func.requires(())
    }

    /// The action ran: what it ensures holds.
    open spec fn ran(&self) -> bool {
        self.func.ensures((), ())
    }

    fn exec(&self) {
        (self.func)();
    }

    fn name(&self) -> (s: String) {
        self.name.clone()
    }

    fn key(&self) -> (k: Option<HotKey>) {
        self.key
    }
}

impl<F: Fn() + 'static> Command2<F> {
    /// Adds a hotkey to the menu command.
    pub fn hotkey(self, key: HotKey) -> (c: Self)
        ensures
            c.name == self.name,
            c.key == Some(key),
            c.func == self.func,
    {
        Self { name: self.name, key: Some(key), func: self.func }
    }
}

} // verus!
