//! The two linked graphs: the finalized entity graph, and the service graph
//! built on top of it by the one-pass orchestration that adds service nodes
//! leniently and resolves call edges fail-fast.
use crate::entity::{clone_entity, Entity, Multiplicity, SpecEntity};
use crate::record::{context_of, list_entry, str_entry, ExtractionResult, Record, SpecError};
use crate::service::{
    call_spec, entity_views, microservice_spec, Microservice, MicroserviceCall, SpecMicroservice,
};
use crate::store::{
    entity_edge_count, entity_graph_add_node, entity_graph_edge_count, entity_graph_new,
    entity_graph_node_count, entity_graph_node_weights, entity_nodes, service_edges,
    service_graph_add_edge, service_graph_add_node, service_graph_edge_count,
    service_graph_edge_list, service_graph_new, service_graph_node_count,
    service_graph_node_weights, service_nodes,
};
use petgraph::graph::DiGraph;
use vstd::prelude::*;

verus! {

/// Container of all entity nodes plus relationship edges. Built once from a
/// finalized list of entities and immutable afterward; relationship
/// inference is an open extension point, so the graph carries no edges yet.
pub struct EntityGraph(DiGraph<Entity, Multiplicity, usize>);

impl View for EntityGraph {
    type V = Seq<SpecEntity>;

    /// An entity graph reads as its entity nodes, in node-index order.
    closed spec fn view(&self) -> Seq<SpecEntity> {
        entity_views(entity_nodes(self.0))
    }
}

impl EntityGraph {
    /// Relationship inference is unimplemented: a finalized entity graph
    /// holds no edges, so no edge can dangle.
    #[verifier::type_invariant]
    closed spec fn edge_free(self) -> bool {
        entity_edge_count(self.0) == 0
    }

    /// Build the graph from a finalized entity list: exactly one node per
    /// entity, in order, and no relationship edges (the designated
    /// extension point is not yet populated).
    pub fn from(entities: &[Entity]) -> (g: EntityGraph)
        ensures
            g@ == entity_views(entities@),
    {
        let mut graph = entity_graph_new();
        let mut i: usize = 0;
        while i < entities.len()
            invariant
                0 <= i <= entities@.len(),
                entity_edge_count(graph) == 0,
                entity_nodes(graph).len() == i,
                forall|m: int|
                    0 <= m < i ==> (#[trigger] entity_nodes(graph)[m])@ == entities@[m]@,
            decreases entities@.len() - i,
        {
            let e = clone_entity(&entities[i]);
            entity_graph_add_node(&mut graph, e);
            i = i + 1;
        }
        let g = EntityGraph(graph);
        proof {
            assert(g@ =~= entity_views(entities@));
        }
        g
    }

    /// Read-only handle to the underlying graph container, for downstream
    /// analyses; it reads as this graph does.
    pub fn as_ref(&self) -> (r: &DiGraph<Entity, Multiplicity, usize>)
        ensures
            entity_views(entity_nodes(*r)) == self@,
    {
        &self.0
    }

    /// The number of entity nodes.
    pub fn node_count(&self) -> (n: usize)
        ensures
            n == self@.len(),
    {
        entity_graph_node_count(&self.0)
    }

    /// The number of relationship edges: none, until relationship inference
    /// is designed.
    pub fn edge_count(&self) -> (n: usize)
        ensures
            n == 0,
    {
        proof {
            use_type_invariant(&*self);
        }
        entity_graph_edge_count(&self.0)
    }

    /// The entity nodes, in node-index order, each reading as the stored one.
    pub fn entities(&self) -> (v: Vec<Entity>)
        ensures
            v@.len() == self@.len(),
            forall|m: int| 0 <= m < v@.len() ==> (#[trigger] v@[m])@ == self@[m],
    {
        let v = entity_graph_node_weights(&self.0);
        v
    }
}

/// The views of a list of service nodes, in order.
pub open spec fn ms_views(ms: Seq<Microservice>) -> Seq<SpecMicroservice> {
    ms.map_values(|m: Microservice| m@)
}

/// The views of a list of call edges, in order.
pub open spec fn edge_views(es: Seq<(usize, usize, MicroserviceCall)>) -> Seq<
    (int, int, MicroserviceCall),
> {
    es.map_values(|e: (usize, usize, MicroserviceCall)| (e.0 as int, e.1 as int, e.2))
}

/// The names of a list of service nodes, in order.
pub open spec fn ms_names(mss: Seq<SpecMicroservice>) -> Seq<Seq<char>> {
    mss.map_values(|m: SpecMicroservice| m.name)
}

/// The position of the first name of `names[i..]` that reads `n`, if any.
pub open spec fn find_text_from(names: Seq<Seq<char>>, n: Seq<char>, i: int) -> Option<int>
    decreases names.len() - i,
{
    if i < 0 || i >= names.len() {
        None
    } else if names[i] == n {
        Some(i)
    } else {
        find_text_from(names, n, i + 1)
    }
}

/// The node index a name resolves to: the first node with that exact name.
pub open spec fn find_text(names: Seq<Seq<char>>, n: Seq<char>) -> Option<int> {
    find_text_from(names, n, 0)
}

/// The service nodes built from the raw service records `recs[i..]`, in
/// order; records that fail required-field extraction are omitted silently.
pub open spec fn services_from(recs: Seq<Record>, ents: Seq<SpecEntity>, i: int) -> Seq<
    SpecMicroservice,
>
    decreases recs.len() - i,
{
    if i < 0 || i >= recs.len() {
        Seq::empty()
    } else {
        match microservice_spec(recs[i], ents) {
            Ok(m) => seq![m] + services_from(recs, ents, i + 1),
            Err(_) => services_from(recs, ents, i + 1),
        }
    }
}

/// The service nodes of a graph built from raw service records.
pub open spec fn services_of(recs: Seq<Record>, ents: Seq<SpecEntity>) -> Seq<SpecMicroservice> {
    services_from(recs, ents, 0)
}

/// Edges already laid down, followed by whatever a rest yields; no rest, no
/// edge list at all (the fail-fast rule).
pub open spec fn prepend_edges(
    acc: Seq<(int, int, MicroserviceCall)>,
    rest: Option<Seq<(int, int, MicroserviceCall)>>,
) -> Option<Seq<(int, int, MicroserviceCall)>> {
    match rest {
        None => None,
        Some(r) => Some(acc + r),
    }
}

/// The edges one service's calls `calls[j..]` contribute, made by a caller
/// at node index `caller` against the node-name index `names`. A call whose
/// target name is not extractable, does not resolve to an existing node, or
/// carries an unknown HTTP verb aborts the whole build: no edge list at all.
pub open spec fn call_edges_from(
    calls: Seq<Record>,
    caller: int,
    names: Seq<Seq<char>>,
    j: int,
) -> Option<Seq<(int, int, MicroserviceCall)>>
    decreases calls.len() - j,
{
    if j < 0 || j >= calls.len() {
        Some(Seq::empty())
    } else {
        match str_entry(calls[j], "name"@) {
            Err(_) => None,
            Ok(n) => match find_text(names, n) {
                None => None,
                Some(callee) => match call_spec(calls[j]) {
                    Err(_) => None,
                    Ok(kind) => prepend_edges(
                        seq![(caller, callee, kind)],
                        call_edges_from(calls, caller, names, j + 1),
                    ),
                },
            },
        }
    }
}

/// The edges one raw service record contributes. A record that built no
/// node, or whose call sequence is not extractable, contributes none
/// (lenient); an unresolved caller or any failing call aborts the build.
pub open spec fn service_call_edges(r: Record, names: Seq<Seq<char>>, ents: Seq<SpecEntity>) -> Option<
    Seq<(int, int, MicroserviceCall)>,
> {
    match microservice_spec(r, ents) {
        Err(_) => Some(Seq::empty()),
        Ok(m) => match list_entry(r, "calls"@) {
            Err(_) => Some(Seq::empty()),
            Ok(calls) => match find_text(names, m.name) {
                None => None,
                Some(caller) => call_edges_from(calls, caller, names, 0),
            },
        },
    }
}

/// The edges the raw service records `recs[i..]` contribute, in record
/// order; one aborted record aborts the whole edge list.
pub open spec fn edges_of(
    recs: Seq<Record>,
    names: Seq<Seq<char>>,
    ents: Seq<SpecEntity>,
    i: int,
) -> Option<Seq<(int, int, MicroserviceCall)>>
    decreases recs.len() - i,
{
    if i < 0 || i >= recs.len() {
        Some(Seq::empty())
    } else {
        match service_call_edges(recs[i], names, ents) {
            None => None,
            Some(head) => prepend_edges(head, edges_of(recs, names, ents, i + 1)),
        }
    }
}

/// What the whole build yields against a finalized entity list: the service
/// nodes and the classified call edges, or nothing at all. A missing `ctx`
/// context or `services` sequence is fatal, as is any unresolved call name
/// or unknown HTTP verb; a returned graph is complete, never partial.
pub open spec fn graph_spec(x: ExtractionResult, ents: Seq<SpecEntity>) -> Option<
    (Seq<SpecMicroservice>, Seq<(int, int, MicroserviceCall)>),
> {
    match context_of(x, "ctx"@) {
        None => None,
        Some(ctx) => match list_entry(ctx, "services"@) {
            Err(_) => None,
            Ok(recs) => {
                let mss = services_of(recs, ents);
                match edges_of(recs, ms_names(mss), ents, 0) {
                    None => None,
                    Some(es) => Some((mss, es)),
                }
            },
        },
    }
}

/// How many of the raw service records `recs[i..]` build a service node:
/// those whose `name`, `language` and `entities` sequence all extract.
pub open spec fn buildable_count(recs: Seq<Record>, ents: Seq<SpecEntity>, i: int) -> int
    decreases recs.len() - i,
{
    if i < 0 || i >= recs.len() {
        0
    } else {
        (if microservice_spec(recs[i], ents) is Ok {
            1int
        } else {
            0int
        }) + buildable_count(recs, ents, i + 1)
    }
}

/// The node count of a built service graph equals the number of service
/// records whose required fields all resolve: one node per such record,
/// none for any other.
pub proof fn lemma_node_count_matches_buildable(recs: Seq<Record>, ents: Seq<SpecEntity>)
    ensures
        services_of(recs, ents).len() == buildable_count(recs, ents, 0),
{
    lemma_services_from_len(recs, ents, 0);
}

proof fn lemma_services_from_len(recs: Seq<Record>, ents: Seq<SpecEntity>, i: int)
    ensures
        services_from(recs, ents, i).len() == buildable_count(recs, ents, i),
    decreases recs.len() - i,
{
    if 0 <= i < recs.len() {
        lemma_services_from_len(recs, ents, i + 1);
    }
}

/// A failing call aborts its whole call list: if the call at position `j`
/// has no extractable target name, a target that resolves to no node, or an
/// unknown HTTP verb, then no edge list at all comes out of the list.
proof fn lemma_call_failure_aborts(
    calls: Seq<Record>,
    caller: int,
    names: Seq<Seq<char>>,
    j: int,
    k: int,
)
    requires
        0 <= k <= j < calls.len(),
        ({
            let se = str_entry(calls[j], "name"@);
            ||| se is Err
            ||| (se is Ok && find_text(names, se->Ok_0) is None)
            ||| (se is Ok && find_text(names, se->Ok_0) is Some && call_spec(calls[j]) is Err)
        }),
    ensures
        call_edges_from(calls, caller, names, k) is None,
    decreases j - k,
{
    if k < j {
        lemma_call_failure_aborts(calls, caller, names, j, k + 1);
    }
}

/// One aborted service aborts the whole edge construction, wherever it
/// stands in the record list.
proof fn lemma_service_abort_propagates(
    recs: Seq<Record>,
    names: Seq<Seq<char>>,
    ents: Seq<SpecEntity>,
    i: int,
    k: int,
)
    requires
        0 <= k <= i < recs.len(),
        service_call_edges(recs[i], names, ents) is None,
    ensures
        edges_of(recs, names, ents, k) is None,
    decreases i - k,
{
    if k < i {
        lemma_service_abort_propagates(recs, names, ents, i, k + 1);
    }
}

/// A single unresolved call target name yields no edge list at all — and so
/// no graph: if some built service's call list holds a call whose target
/// name resolves to no built service, the whole edge construction aborts,
/// however many other services and calls would have succeeded.
pub proof fn lemma_unresolved_target_aborts(
    recs: Seq<Record>,
    ents: Seq<SpecEntity>,
    i: int,
    j: int,
)
    requires
        0 <= i < recs.len(),
        microservice_spec(recs[i], ents) is Ok,
        list_entry(recs[i], "calls"@) is Ok,
        0 <= j < list_entry(recs[i], "calls"@)->Ok_0.len(),
        str_entry(list_entry(recs[i], "calls"@)->Ok_0[j], "name"@) is Ok,
        find_text(
            ms_names(services_of(recs, ents)),
            str_entry(list_entry(recs[i], "calls"@)->Ok_0[j], "name"@)->Ok_0,
        ) is None,
    ensures
        edges_of(recs, ms_names(services_of(recs, ents)), ents, 0) is None,
{
    let names = ms_names(services_of(recs, ents));
    let calls = list_entry(recs[i], "calls"@)->Ok_0;
    let m = microservice_spec(recs[i], ents)->Ok_0;
    if find_text(names, m.name) is Some {
        let caller = find_text(names, m.name)->Some_0;
        lemma_call_failure_aborts(calls, caller, names, j, 0);
    }
    assert(service_call_edges(recs[i], names, ents) is None);
    lemma_service_abort_propagates(recs, names, ents, i, 0);
}

/// Every edge a call list yields connects the caller to a resolved node:
/// both endpoints index into the node-name list.
proof fn lemma_call_edges_bounds(calls: Seq<Record>, caller: int, names: Seq<Seq<char>>, j: int)
    requires
        0 <= caller < names.len(),
    ensures
        call_edges_from(calls, caller, names, j) matches Some(es) ==> forall|k: int|
            0 <= k < es.len() ==> 0 <= (#[trigger] es[k]).0 < names.len() && 0 <= es[k].1
                < names.len(),
    decreases calls.len() - j,
{
    if j < 0 || j >= calls.len() {
    } else {
        lemma_call_edges_bounds(calls, caller, names, j + 1);
        if str_entry(calls[j], "name"@) is Ok {
            lemma_find_text_in_range(names, str_entry(calls[j], "name"@)->Ok_0, 0);
        }
    }
}

/// Every edge one service record yields has both endpoints among the nodes.
proof fn lemma_service_edges_bounds(r: Record, names: Seq<Seq<char>>, ents: Seq<SpecEntity>)
    ensures
        service_call_edges(r, names, ents) matches Some(es) ==> forall|k: int|
            0 <= k < es.len() ==> 0 <= (#[trigger] es[k]).0 < names.len() && 0 <= es[k].1
                < names.len(),
{
    if microservice_spec(r, ents) is Ok && list_entry(r, "calls"@) is Ok {
        let m = microservice_spec(r, ents)->Ok_0;
        lemma_find_text_in_range(names, m.name, 0);
        if find_text(names, m.name) is Some {
            let caller = find_text(names, m.name)->Some_0;
            lemma_call_edges_bounds(list_entry(r, "calls"@)->Ok_0, caller, names, 0);
        }
    }
}

/// Every edge the record list yields has both endpoints among the nodes.
proof fn lemma_edges_of_bounds(
    recs: Seq<Record>,
    names: Seq<Seq<char>>,
    ents: Seq<SpecEntity>,
    i: int,
)
    ensures
        edges_of(recs, names, ents, i) matches Some(es) ==> forall|k: int|
            0 <= k < es.len() ==> 0 <= (#[trigger] es[k]).0 < names.len() && 0 <= es[k].1
                < names.len(),
    decreases recs.len() - i,
{
    if i < 0 || i >= recs.len() {
    } else {
        lemma_service_edges_bounds(recs[i], names, ents);
        lemma_edges_of_bounds(recs, names, ents, i + 1);
    }
}

/// No dangling edges: every call edge of a built graph connects two service
/// nodes present in that same graph — each endpoint indexes into the node
/// list. The fail-fast rule makes this an invariant of every returned
/// graph, never repaired after the fact.
pub proof fn lemma_graph_edges_connect_nodes(
    x: ExtractionResult,
    ents: Seq<SpecEntity>,
    g: (Seq<SpecMicroservice>, Seq<(int, int, MicroserviceCall)>),
)
    requires
        graph_spec(x, ents) == Some(g),
    ensures
        forall|k: int|
            0 <= k < g.1.len() ==> 0 <= (#[trigger] g.1[k]).0 < g.0.len() && 0 <= g.1[k].1
                < g.0.len(),
{
    let ctx = context_of(x, "ctx"@)->Some_0;
    let recs = list_entry(ctx, "services"@)->Ok_0;
    let names = ms_names(services_of(recs, ents));
    lemma_edges_of_bounds(recs, names, ents, 0);
}

/// Building from the same extraction input against the same entity list
/// twice yields the same service nodes and the same call edges — in
/// particular equal node counts, edge counts and edge labels: the build is
/// a function of its input, with no build-order nondeterminism.
pub proof fn lemma_build_deterministic(
    x: ExtractionResult,
    ents: Seq<SpecEntity>,
    a: (Seq<SpecMicroservice>, Seq<(int, int, MicroserviceCall)>),
    b: (Seq<SpecMicroservice>, Seq<(int, int, MicroserviceCall)>),
)
    requires
        graph_spec(x, ents) == Some(a),
        graph_spec(x, ents) == Some(b),
    ensures
        a.0 == b.0,
        a.1 == b.1,
        a.0.len() == b.0.len(),
        a.1.len() == b.1.len(),
{
}

/// A found name lies in range and reads as searched; positions before it do
/// not.
proof fn lemma_find_text_in_range(names: Seq<Seq<char>>, n: Seq<char>, i: int)
    ensures
        match find_text_from(names, n, i) {
            Some(k) => i <= k < names.len() && names[k] == n,
            None => true,
        },
    decreases names.len() - i,
{
    if i < 0 || i >= names.len() {
    } else if names[i] == n {
    } else {
        lemma_find_text_in_range(names, n, i + 1);
    }
}

/// The position of the first collected name that reads `n`, if any.
fn find_index(names: &Vec<String>, n: &String) -> (r: Option<usize>)
    ensures
        match r {
            Some(k) => find_text(names@.map_values(|s: String| s@), n@) == Some(k as int),
            None => find_text(names@.map_values(|s: String| s@), n@) is None,
        },
{
    let ghost nv = names@.map_values(|s: String| s@);
    let mut j: usize = 0;
    while j < names.len()
        invariant
            0 <= j <= names@.len(),
            nv == names@.map_values(|s: String| s@),
            find_text_from(nv, n@, 0) == find_text_from(nv, n@, j as int),
        decreases names@.len() - j,
    {
        if names[j].eq(n) {
            proof {
                assert(nv[j as int] == names@[j as int]@);
            }
            return Some(j);
        }
        proof {
            assert(nv[j as int] == names@[j as int]@);
        }
        j = j + 1;
    }
    None
}

/// A directed graph of service nodes connected by classified call edges,
/// caller to callee. Built atomically against a finalized entity graph and
/// immutable afterward.
pub struct MicroserviceGraph(DiGraph<Microservice, MicroserviceCall, usize>);

impl MicroserviceGraph {
    /// Every call edge connects two service nodes present in this same
    /// graph: no dangling edge can exist in a returned graph.
    #[verifier::type_invariant]
    closed spec fn edges_connect_nodes(self) -> bool {
        forall|k: int|
            0 <= k < service_edges(self.0).len() ==> ((#[trigger] service_edges(self.0)[k]).0
                < service_nodes(self.0).len() && service_edges(self.0)[k].1 < service_nodes(
                self.0,
            ).len())
    }

    /// The service nodes this graph holds, in node-index order.
    pub closed spec fn services_view(&self) -> Seq<SpecMicroservice> {
        ms_views(service_nodes(self.0))
    }

    /// The call edges this graph holds, in insertion order: caller node
    /// index, callee node index, classified call kind.
    pub closed spec fn calls_view(&self) -> Seq<(int, int, MicroserviceCall)> {
        edge_views(service_edges(self.0))
    }

    /// Build the whole service graph from an extraction result against a
    /// finalized entity graph, atomically. The `ctx` context and its
    /// `services` sequence are required, else no graph is produced. One node
    /// is added per service record that builds (failures are omitted
    /// silently); then, for each built service with an extractable call
    /// sequence, each call is resolved by exact name match and classified,
    /// and one unresolved name or unknown HTTP verb aborts the whole build:
    /// no graph is returned, not even a partial one.
    pub fn try_new(result: &ExtractionResult, entities: &EntityGraph) -> (r: Option<
        MicroserviceGraph,
    >)
        ensures
            match r {
                Some(g) => graph_spec(*result, entities@) == Some(
                    (g.services_view(), g.calls_view()),
                ),
                None => graph_spec(*result, entities@) is None,
            },
    {
        let ctx = match result.get("ctx") {
            Some(c) => c,
            None => {
                return None;
            },
        };
        let ghost ctxv = *ctx;
        let services = match ctx.extract_records("services") {
            Ok(v) => v,
            Err(_) => {
                return None;
            },
        };
        let ghost recs = services@;
        let ghost entsv = entities@;
        let ents = entities.entities();
        proof {
            assert(entity_views(ents@) =~= entsv);
        }
        let mut graph = service_graph_new();
        let names = Self::add_nodes(&mut graph, services, &ents);
        let ghost mss = services_of(recs, entsv);
        let ghost nv = ms_names(mss);
        proof {
            let rest0 = edges_of(recs, nv, entsv, 0);
            assert(edge_views(service_edges(graph)) =~= Seq::<(int, int, MicroserviceCall)>::empty());
            if rest0 is Some {
                assert(Seq::<(int, int, MicroserviceCall)>::empty() + rest0->Some_0
                    =~= rest0->Some_0);
            }
        }
        let mut i: usize = 0;
        while i < services.len()
            invariant
                0 <= i <= recs.len(),
                services@ == recs,
                entsv == entities@,
                entity_views(ents@) == entsv,
                context_of(*result, "ctx"@) == Some(ctxv),
                list_entry(ctxv, "services"@) == Ok::<Seq<Record>, SpecError>(recs),
                mss == services_of(recs, entsv),
                nv == ms_names(mss),
                ms_views(service_nodes(graph)) == mss,
                names@.map_values(|s: String| s@) == nv,
                names@.len() == service_nodes(graph).len(),
                forall|k: int|
                    0 <= k < service_edges(graph).len() ==> ((#[trigger] service_edges(graph)[k]).0
                        < service_nodes(graph).len() && service_edges(graph)[k].1 < service_nodes(
                        graph,
                    ).len()),
                edges_of(recs, nv, entsv, 0) == prepend_edges(
                    edge_views(service_edges(graph)),
                    edges_of(recs, nv, entsv, i as int),
                ),
            decreases recs.len() - i,
        {
            let ghost base = edge_views(service_edges(graph));
            match Microservice::try_from(&services[i], &ents) {
                Err(_) => {
                    proof {
                        let rest = edges_of(recs, nv, entsv, i + 1);
                        if rest is Some {
                            assert(Seq::<(int, int, MicroserviceCall)>::empty() + rest->Some_0
                                =~= rest->Some_0);
                        }
                    }
                },
                Ok(m) => {
                    match services[i].extract_records("calls") {
                        Err(_) => {
                            proof {
                                let rest = edges_of(recs, nv, entsv, i + 1);
                                if rest is Some {
                                    assert(Seq::<(int, int, MicroserviceCall)>::empty()
                                        + rest->Some_0 =~= rest->Some_0);
                                }
                            }
                        },
                        Ok(calls) => {
                            let caller = match find_index(&names, &m.name) {
                                Some(c) => c,
                                None => {
                                    proof {
                                        assert(service_call_edges(recs[i as int], nv, entsv)
                                            is None);
                                        assert(edges_of(recs, nv, entsv, i as int) is None);
                                        assert(graph_spec(*result, entities@) is None);
                                    }
                                    return None;
                                },
                            };
                            proof {
                                lemma_find_text_in_range(nv, m@.name, 0);
                            }
                            let ghost mut acc: Seq<(int, int, MicroserviceCall)> = Seq::empty();
                            proof {
                                assert(base + acc =~= base);
                                let cef0 = call_edges_from(calls@, caller as int, nv, 0);
                                if cef0 is Some {
                                    assert(Seq::<(int, int, MicroserviceCall)>::empty()
                                        + cef0->Some_0 =~= cef0->Some_0);
                                }
                            }
                            let mut j: usize = 0;
                            while j < calls.len()
                                invariant
                                    0 <= j <= calls@.len(),
                                    0 <= i < recs.len(),
                                    services@ == recs,
                                    entsv == entities@,
                                    context_of(*result, "ctx"@) == Some(ctxv),
                                    list_entry(ctxv, "services"@) == Ok::<Seq<Record>, SpecError>(
                                        recs,
                                    ),
                                    mss == services_of(recs, entsv),
                                    nv == ms_names(mss),
                                    ms_views(service_nodes(graph)) == mss,
                                    names@.map_values(|s: String| s@) == nv,
                                    names@.len() == service_nodes(graph).len(),
                                    microservice_spec(recs[i as int], entsv) == Ok::<
                                        SpecMicroservice,
                                        SpecError,
                                    >(m@),
                                    list_entry(recs[i as int], "calls"@) == Ok::<
                                        Seq<Record>,
                                        SpecError,
                                    >(calls@),
                                    find_text(nv, m@.name) == Some(caller as int),
                                    caller < service_nodes(graph).len(),
                                    forall|k: int|
                                        0 <= k < service_edges(graph).len() ==> ((
                                        #[trigger] service_edges(graph)[k]).0 < service_nodes(
                                            graph,
                                        ).len() && service_edges(graph)[k].1 < service_nodes(
                                            graph,
                                        ).len()),
                                    edge_views(service_edges(graph)) == base + acc,
                                    call_edges_from(calls@, caller as int, nv, 0) == prepend_edges(
                                        acc,
                                        call_edges_from(calls@, caller as int, nv, j as int),
                                    ),
                                    edges_of(recs, nv, entsv, 0) == prepend_edges(
                                        base,
                                        edges_of(recs, nv, entsv, i as int),
                                    ),
                                decreases calls@.len() - j,
                            {
                                let called_name = match calls[j].extract_string("name") {
                                    Ok(n) => n,
                                    Err(_) => {
                                        proof {
                                            assert(call_edges_from(calls@, caller as int, nv, 0)
                                                is None);
                                            assert(service_call_edges(recs[i as int], nv, entsv)
                                                is None);
                                            assert(edges_of(recs, nv, entsv, i as int) is None);
                                            assert(graph_spec(*result, entities@) is None);
                                        }
                                        return None;
                                    },
                                };
                                let callee = match find_index(&names, &called_name) {
                                    Some(c) => c,
                                    None => {
                                        proof {
                                            assert(call_edges_from(calls@, caller as int, nv, 0)
                                                is None);
                                            assert(service_call_edges(recs[i as int], nv, entsv)
                                                is None);
                                            assert(edges_of(recs, nv, entsv, i as int) is None);
                                            assert(graph_spec(*result, entities@) is None);
                                        }
                                        return None;
                                    },
                                };
                                let kind = match MicroserviceCall::try_from(&calls[j]) {
                                    Ok(k) => k,
                                    Err(_) => {
                                        proof {
                                            assert(call_edges_from(calls@, caller as int, nv, 0)
                                                is None);
                                            assert(service_call_edges(recs[i as int], nv, entsv)
                                                is None);
                                            assert(edges_of(recs, nv, entsv, i as int) is None);
                                            assert(graph_spec(*result, entities@) is None);
                                        }
                                        return None;
                                    },
                                };
                                proof {
                                    lemma_find_text_in_range(nv, called_name@, 0);
                                }
                                service_graph_add_edge(&mut graph, caller, callee, kind);
                                proof {
                                    let e = (caller as int, callee as int, kind);
                                    assert(edge_views(service_edges(graph)) =~= (base + acc).push(
                                        e,
                                    ));
                                    let acc_old = acc;
                                    acc = acc.push(e);
                                    assert(base + acc =~= (base + acc_old).push(e));
                                    let cefnext = call_edges_from(
                                        calls@,
                                        caller as int,
                                        nv,
                                        j + 1,
                                    );
                                    if cefnext is Some {
                                        assert(acc_old + (seq![e] + cefnext->Some_0) =~= acc
                                            + cefnext->Some_0);
                                    }
                                }
                                j = j + 1;
                            }
                            proof {
                                assert(acc + Seq::<(int, int, MicroserviceCall)>::empty() =~= acc);
                                assert(service_call_edges(recs[i as int], nv, entsv) == Some(acc));
                                let rest = edges_of(recs, nv, entsv, i + 1);
                                if rest is Some {
                                    assert(base + (acc + rest->Some_0) =~= (base + acc)
                                        + rest->Some_0);
                                }
                            }
                        },
                    }
                },
            }
            i = i + 1;
        }
        proof {
            assert(edge_views(service_edges(graph)) + Seq::<(int, int, MicroserviceCall)>::empty()
                =~= edge_views(service_edges(graph)));
        }
        let g = MicroserviceGraph(graph);
        Some(g)
    }

    /// Add one node per raw service record that has `name`, `language` and
    /// an `entities` sequence extractable, in record order; records that
    /// fail are omitted silently. Returns the node names, in node order.
    fn add_nodes(
        graph: &mut DiGraph<Microservice, MicroserviceCall, usize>,
        services: &Vec<Record>,
        entities: &Vec<Entity>,
    ) -> (names: Vec<String>)
        requires
            service_nodes(*old(graph)) == Seq::<Microservice>::empty(),
            service_edges(*old(graph)) == Seq::<(usize, usize, MicroserviceCall)>::empty(),
        ensures
            ms_views(service_nodes(*final(graph))) == services_of(
                services@,
                entity_views(entities@),
            ),
            service_edges(*final(graph)) == Seq::<(usize, usize, MicroserviceCall)>::empty(),
            names@.map_values(|s: String| s@) == ms_names(
                services_of(services@, entity_views(entities@)),
            ),
            names@.len() == service_nodes(*final(graph)).len(),
    {
        let ghost entsv = entity_views(entities@);
        let mut names: Vec<String> = Vec::new();
        let mut i: usize = 0;
        proof {
            assert(ms_views(service_nodes(*graph)) =~= Seq::<SpecMicroservice>::empty());
            assert(Seq::<SpecMicroservice>::empty() + services_from(services@, entsv, 0)
                =~= services_from(services@, entsv, 0));
            assert(names@.map_values(|s: String| s@) =~= ms_names(
                ms_views(service_nodes(*graph)),
            ));
        }
        while i < services.len()
            invariant
                0 <= i <= services@.len(),
                entsv == entity_views(entities@),
                service_edges(*graph) == Seq::<(usize, usize, MicroserviceCall)>::empty(),
                services_of(services@, entsv) == ms_views(service_nodes(*graph)) + services_from(
                    services@,
                    entsv,
                    i as int,
                ),
                names@.map_values(|s: String| s@) == ms_names(ms_views(service_nodes(*graph))),
                names@.len() == service_nodes(*graph).len(),
            decreases services@.len() - i,
        {
            match Microservice::try_from(&services[i], entities) {
                Ok(m) => {
                    let ghost mv = m@;
                    let ghost pre_nodes = service_nodes(*graph);
                    let ghost pre_names = names@.map_values(|s: String| s@);
                    let nm = m.name.clone();
                    names.push(nm);
                    service_graph_add_node(graph, m);
                    proof {
                        assert(ms_views(service_nodes(*graph)) =~= ms_views(pre_nodes).push(mv));
                        assert(ms_views(pre_nodes).push(mv) + services_from(
                            services@,
                            entsv,
                            i + 1,
                        ) =~= ms_views(pre_nodes) + services_from(services@, entsv, i as int));
                        assert(names@.map_values(|s: String| s@) =~= pre_names.push(mv.name));
                        assert(ms_names(ms_views(pre_nodes).push(mv)) =~= ms_names(
                            ms_views(pre_nodes),
                        ).push(mv.name));
                    }
                },
                Err(_) => {},
            }
            i = i + 1;
        }
        proof {
            assert(ms_views(service_nodes(*graph)) + services_from(services@, entsv, i as int)
                =~= ms_views(service_nodes(*graph)));
        }
        names
    }

    /// The number of service nodes.
    pub fn node_count(&self) -> (n: usize)
        ensures
            n == self.services_view().len(),
    {
        service_graph_node_count(&self.0)
    }

    /// The number of call edges.
    pub fn edge_count(&self) -> (n: usize)
        ensures
            n == self.calls_view().len(),
    {
        service_graph_edge_count(&self.0)
    }

    /// The service nodes, in node-index order, each reading as the stored
    /// one.
    pub fn services(&self) -> (v: Vec<Microservice>)
        ensures
            v@.len() == self.services_view().len(),
            forall|m: int| 0 <= m < v@.len() ==> (#[trigger] v@[m])@ == self.services_view()[m],
    {
        service_graph_node_weights(&self.0)
    }

    /// The call edges, in insertion order: caller node index, callee node
    /// index, classified call kind. Every endpoint indexes a node present in
    /// this same graph.
    pub fn calls(&self) -> (v: Vec<(usize, usize, MicroserviceCall)>)
        ensures
            edge_views(v@) == self.calls_view(),
            forall|k: int|
                0 <= k < v@.len() ==> ((#[trigger] v@[k]).0 < self.services_view().len()
                    && v@[k].1 < self.services_view().len()),
    {
        proof {
            use_type_invariant(&*self);
        }
        service_graph_edge_list(&self.0)
    }
}

} // verus!
