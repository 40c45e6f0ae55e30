//! The accessibility tree: views describe their nodes as plain data, which
//! is then turned into `accesskit` nodes for assistive technologies.
use vstd::prelude::*;
use accesskit::{Node, NodeBuilder, NodeClassSet, NodeId, Role};

verus! {

#[verifier::external_type_specification]
pub struct ExRole(Role);

#[verifier::external_type_specification]
#[verifier::external_body]
pub struct ExNode(Node);

#[verifier::external_type_specification]
pub struct ExNodeId(NodeId);

#[verifier::external_type_specification]
#[verifier::external_body]
pub struct ExNodeBuilder(NodeBuilder);

#[verifier::external_type_specification]
#[verifier::external_body]
pub struct ExNodeClassSet(NodeClassSet);

/// The roles the views of this crate give their nodes.
#[derive(Clone, Copy, PartialEq, Eq, Debug, Structural)]
pub enum RoleName {
    List,
    Label,
    Button,
}

/// The `accesskit` role named `name`: `Role::List`, `Role::StaticText` for
/// a label, or `Role::Button`.
pub open spec fn accesskit_role(name: RoleName) -> Role {
    match name {
        RoleName::List => Role::List,
        RoleName::Label => Role::StaticText,
        RoleName::Button => Role::Button,
    }
}

/// The `accesskit` role named `name`.
pub fn role(name: RoleName) -> (r: Role)
    ensures
        r == accesskit_role(name),
{
    match name {
        RoleName::List => Role::List,
        RoleName::Label => Role::StaticText,
        RoleName::Button => Role::Button,
    }
}

/// The node id that holds `id`.
fn node_id(id: u64) -> (r: NodeId)
    ensures
        r.0 == id,
{
    NodeId(id)
}

/// The role, the children's ids and the name that a node builder holds,
/// as its `role`, `children` and `name` getters report them.
pub uninterp spec fn builder_parts(b: NodeBuilder) -> (Role, Seq<u64>, Option<Seq<char>>);

/// The role, the children's ids and the name of a node, as its `role`,
/// `children` and `name` getters report them.
pub uninterp spec fn node_parts(n: Node) -> (Role, Seq<u64>, Option<Seq<char>>);

/// The ids that `ids` holds.
pub open spec fn id_values(ids: Seq<NodeId>) -> Seq<u64> {
    ids.map_values(|n: NodeId| n.0)
}

/// A builder for a node of role `role` (`NodeBuilder::new`): it holds that
/// role, no children and no name.
#[verifier::external_body]
fn node_builder(role: Role) -> (r: NodeBuilder)
    ensures
        builder_parts(r) == (role, Seq::<u64>::empty(), None::<Seq<char>>),
{
    NodeBuilder::new(role)
}

/// Records the children of the node (`NodeBuilder::set_children`): they
/// replace the children held; role and name stay.
#[verifier::external_body]
fn builder_set_children(builder: &mut NodeBuilder, children: Vec<NodeId>)
    ensures
        builder_parts(*final(builder)) == (builder_parts(*old(builder)).0, id_values(children@), builder_parts(*old(builder)).2),
{
    builder.set_children(children)
}

/// Records the name of the node (`NodeBuilder::set_name`): it replaces the
/// name held; role and children stay.
#[verifier::external_body]
fn builder_set_name(builder: &mut NodeBuilder, name: String)
    ensures
        builder_parts(*final(builder)) == (builder_parts(*old(builder)).0, builder_parts(*old(builder)).1, Some(name@)),
{
    builder.set_name(name)
}

/// The node the builder describes, sharing its class through `classes`
/// (`NodeBuilder::build`): it has the role, children and name the builder
/// held. Nothing is stated of `classes`.
#[verifier::external_body]
fn builder_build(builder: NodeBuilder, classes: &mut NodeClassSet) -> (r: Node)
    ensures
        node_parts(r) == builder_parts(builder),
{
    builder.build(classes)
}

/// A node of the accessibility tree as plain data: its id, its role, the
/// ids of its children in order, and its name if it has one.
pub struct AccessNode {
    pub id: u64,
    pub role: Role,
    pub children: Vec<u64>,
    pub name: Option<String>,
}

/// A node as contracts see it.
pub type AccessEntry = (u64, Role, Seq<u64>, Option<Seq<char>>);

/// The entry of a node.
pub open spec fn access_entry(n: AccessNode) -> AccessEntry {
    (n.id, n.role, n.children@, match n.name {
        Some(s) => Some(s@),
        None => None,
    })
}

/// The entries of a list of nodes.
pub open spec fn access_of(nodes: Seq<AccessNode>) -> Seq<AccessEntry> {
    nodes.map_values(|n: AccessNode| access_entry(n))
}

/// Pushing a node adds its entry at the end.
pub proof fn lemma_access_push(nodes: Seq<AccessNode>, n: AccessNode)
    ensures
        access_of(nodes.push(n)) == access_of(nodes).push(access_entry(n)),
{
    assert(access_of(nodes.push(n)) =~= access_of(nodes).push(access_entry(n)));
}

/// The `accesskit` ids of a list of ids.
fn node_ids(ids: &Vec<u64>) -> (r: Vec<NodeId>)
    ensures
        r@.len() == ids@.len(),
        forall|i: int| 0 <= i < ids@.len() ==> r@[i].0 == ids@[i],
{
    let mut r: Vec<NodeId> = Vec::new();
    let n = ids.len();
    for i in 0..n
        invariant
            n == ids@.len(),
            r@.len() == i,
            forall|j: int| 0 <= j < i ==> r@[j].0 == ids@[j],
    {
        r.push(node_id(ids[i]));
    }
    r
}

/// The role, children and name of the entry of a node.
pub open spec fn entry_parts(e: AccessEntry) -> (Role, Seq<u64>, Option<Seq<char>>) {
    (e.1, e.2, e.3)
}

/// Turns the plain nodes into `accesskit` nodes, in order, each under the
/// `accesskit` id of its id and with its role, children and name. Node
/// classes are shared through `classes`.
pub fn accesskit_nodes(nodes: &Vec<AccessNode>, classes: &mut NodeClassSet) -> (r: Vec<(NodeId, Node)>)
    ensures
        r@.len() == nodes@.len(),
        forall|i: int| 0 <= i < nodes@.len() ==> r@[i].0.0 == nodes@[i].id,
        forall|i: int| 0 <= i < nodes@.len() ==> node_parts(#[trigger] r@[i].1) == entry_parts(access_entry(nodes@[i])),
{
    let mut r: Vec<(NodeId, Node)> = Vec::new();
    let n = nodes.len();
    for i in 0..n
        invariant
            n == nodes@.len(),
            r@.len() == i,
            forall|j: int| 0 <= j < i ==> r@[j].0.0 == nodes@[j].id,
            forall|j: int| 0 <= j < i ==> node_parts(#[trigger] r@[j].1) == entry_parts(access_entry(nodes@[j])),
    {
        let node = &nodes[i];
        let mut builder = node_builder(node.role);
        let ids = node_ids(&node.children);
        proof {
            assert(id_values(ids@) =~= node.children@);
        }
        builder_set_children(&mut builder, ids);
        match &node.name {
            Some(name) => builder_set_name(&mut builder, name.clone()),
            None => {},
        }
        let built = builder_build(builder, classes);
        r.push((node_id(node.id), built));
    }
    r
}

} // verus!
