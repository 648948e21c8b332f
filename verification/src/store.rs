//! Trusted bridge to petgraph's directed graph container, which stores both
//! graphs' nodes and edges. Node and edge indices are `usize`, so petgraph's
//! index-capacity limits (which apply to narrower index types only) are out
//! of the picture. Each wrapper relies on one petgraph method; the two
//! uninterpreted content functions name, per graph instantiation, the node
//! weights (in node-index order) and the edges (in edge-index order, each as
//! source index, target index and weight).
use crate::entity::{Entity, Multiplicity};
use crate::service::{Microservice, MicroserviceCall};
use petgraph::graph::DiGraph;
use petgraph::visit::EdgeRef;
use vstd::prelude::*;

verus! {

#[verifier::external_type_specification]
#[verifier::external_body]
#[verifier::reject_recursive_types(N)]
#[verifier::reject_recursive_types(E)]
#[verifier::reject_recursive_types(Ty)]
#[verifier::reject_recursive_types(Ix)]
pub struct ExGraph<N, E, Ty, Ix>(petgraph::graph::Graph<N, E, Ty, Ix>);

#[verifier::external_type_specification]
#[verifier::external_body]
pub struct ExDirected(petgraph::Directed);

/// The entity nodes an entity graph holds, in node-index order.
pub uninterp spec fn entity_nodes(g: DiGraph<Entity, Multiplicity, usize>) -> Seq<Entity>;

/// How many relationship edges an entity graph holds.
pub uninterp spec fn entity_edge_count(g: DiGraph<Entity, Multiplicity, usize>) -> nat;

/// The service nodes a service graph holds, in node-index order.
pub uninterp spec fn service_nodes(g: DiGraph<Microservice, MicroserviceCall, usize>) -> Seq<
    Microservice,
>;

/// The call edges a service graph holds, in edge-index order: caller node
/// index, callee node index, classified call kind.
pub uninterp spec fn service_edges(g: DiGraph<Microservice, MicroserviceCall, usize>) -> Seq<
    (usize, usize, MicroserviceCall),
>;

/// Relies on `Graph::with_capacity`: a fresh graph holds no nodes and no
/// edges.
#[verifier::external_body]
pub(crate) fn entity_graph_new() -> (g: DiGraph<Entity, Multiplicity, usize>)
    ensures
        entity_nodes(g) == Seq::<Entity>::empty(),
        entity_edge_count(g) == 0,
{
    DiGraph::with_capacity(0, 0)
}

/// Relies on `Graph::add_node`: it appends one node holding `e` at the next
/// node index and touches no edge; with `usize` indices it cannot hit the
/// index cap.
#[verifier::external_body]
pub(crate) fn entity_graph_add_node(g: &mut DiGraph<Entity, Multiplicity, usize>, e: Entity)
    ensures
        entity_nodes(*final(g)) == entity_nodes(*old(g)).push(e),
        entity_edge_count(*final(g)) == entity_edge_count(*old(g)),
{
    g.add_node(e);
}

/// Relies on `Graph::node_count`: the number of nodes.
#[verifier::external_body]
pub(crate) fn entity_graph_node_count(g: &DiGraph<Entity, Multiplicity, usize>) -> (n: usize)
    ensures
        n == entity_nodes(*g).len(),
{
    g.node_count()
}

/// Relies on `Graph::edge_count`: the number of edges.
#[verifier::external_body]
pub(crate) fn entity_graph_edge_count(g: &DiGraph<Entity, Multiplicity, usize>) -> (n: usize)
    ensures
        n == entity_edge_count(*g),
{
    g.edge_count()
}

/// Relies on `Graph::node_weights`: it yields the node weights in node-index
/// order; the derived `Entity` clone copies its strings and fields, so each
/// returned entity reads as the stored one.
#[verifier::external_body]
pub(crate) fn entity_graph_node_weights(g: &DiGraph<Entity, Multiplicity, usize>) -> (v: Vec<
    Entity,
>)
    ensures
        v@.len() == entity_nodes(*g).len(),
        forall|i: int| 0 <= i < v@.len() ==> (#[trigger] v@[i])@ == entity_nodes(*g)[i]@,
{
    g.node_weights().cloned().collect()
}

/// Relies on `Graph::with_capacity`: a fresh graph holds no nodes and no
/// edges.
#[verifier::external_body]
pub(crate) fn service_graph_new() -> (g: DiGraph<Microservice, MicroserviceCall, usize>)
    ensures
        service_nodes(g) == Seq::<Microservice>::empty(),
        service_edges(g) == Seq::<(usize, usize, MicroserviceCall)>::empty(),
{
    DiGraph::with_capacity(0, 0)
}

/// Relies on `Graph::add_node`: it appends one node holding `m` at the next
/// node index and touches no edge; with `usize` indices it cannot hit the
/// index cap.
#[verifier::external_body]
pub(crate) fn service_graph_add_node(
    g: &mut DiGraph<Microservice, MicroserviceCall, usize>,
    m: Microservice,
)
    ensures
        service_nodes(*final(g)) == service_nodes(*old(g)).push(m),
        service_edges(*final(g)) == service_edges(*old(g)),
{
    g.add_node(m);
}

/// Relies on `Graph::add_edge`: it appends one edge from node `a` to node
/// `b` holding `kind` at the next edge index and touches no node. Both
/// endpoints must exist, else petgraph panics; with `usize` indices the edge
/// count cannot hit the index cap.
#[verifier::external_body]
pub(crate) fn service_graph_add_edge(
    g: &mut DiGraph<Microservice, MicroserviceCall, usize>,
    a: usize,
    b: usize,
    kind: MicroserviceCall,
)
    requires
        a < service_nodes(*old(g)).len(),
        b < service_nodes(*old(g)).len(),
    ensures
        service_nodes(*final(g)) == service_nodes(*old(g)),
        service_edges(*final(g)) == service_edges(*old(g)).push((a, b, kind)),
{
    g.add_edge(
        petgraph::graph::NodeIndex::<usize>::new(a),
        petgraph::graph::NodeIndex::<usize>::new(b),
        kind,
    );
}

/// Relies on `Graph::node_count`: the number of nodes.
#[verifier::external_body]
pub(crate) fn service_graph_node_count(g: &DiGraph<Microservice, MicroserviceCall, usize>) -> (n:
    usize)
    ensures
        n == service_nodes(*g).len(),
{
    g.node_count()
}

/// Relies on `Graph::edge_count`: the number of edges.
#[verifier::external_body]
pub(crate) fn service_graph_edge_count(g: &DiGraph<Microservice, MicroserviceCall, usize>) -> (n:
    usize)
    ensures
        n == service_edges(*g).len(),
{
    g.edge_count()
}

/// Relies on `Graph::node_weights`: it yields the node weights in node-index
/// order; the derived `Microservice` clone copies its strings and indices,
/// so each returned service reads as the stored one.
#[verifier::external_body]
pub(crate) fn service_graph_node_weights(
    g: &DiGraph<Microservice, MicroserviceCall, usize>,
) -> (v: Vec<Microservice>)
    ensures
        v@.len() == service_nodes(*g).len(),
        forall|i: int| 0 <= i < v@.len() ==> (#[trigger] v@[i])@ == service_nodes(*g)[i]@,
{
    g.node_weights().cloned().collect()
}

/// Relies on `Graph::edge_references`: it yields the edges in edge-index
/// order, each with its source and target node indices and its weight.
#[verifier::external_body]
pub(crate) fn service_graph_edge_list(g: &DiGraph<Microservice, MicroserviceCall, usize>) -> (v:
    Vec<(usize, usize, MicroserviceCall)>)
    ensures
        v@ == service_edges(*g),
{
    g.edge_references().map(|e| (e.source().index(), e.target().index(), *e.weight())).collect()
}

} // verus!
