use prophet_model::{
    DatabaseType, Entity, EntityGraph, ExtractionResult, Field, HttpMethod, Language,
    MicroserviceCall, MicroserviceGraph, ModelError, Record, Value,
};

fn kv(k: &str, v: Value) -> (String, Value) {
    (k.to_string(), v)
}

fn sv(x: &str) -> Value {
    Value::Str(x.to_string())
}

fn rec(entries: Vec<(String, Value)>) -> Record {
    Record { entries }
}

fn list(rs: Vec<Record>) -> Value {
    Value::List(rs)
}

fn named(n: &str) -> Record {
    rec(vec![kv("name", sv(n))])
}

fn entity_rec(n: &str, ty: &str, fields: Vec<Record>) -> Record {
    rec(vec![kv("name", sv(n)), kv("type", sv(ty)), kv("fields", list(fields))])
}

fn service_rec(n: &str, lang: &str, entities: Vec<Record>, calls: Vec<Record>) -> Record {
    rec(vec![
        kv("name", sv(n)),
        kv("language", sv(lang)),
        kv("entities", list(entities)),
        kv("calls", list(calls)),
    ])
}

fn extraction(services: Vec<Record>) -> ExtractionResult {
    ExtractionResult {
        contexts: vec![("ctx".to_string(), rec(vec![kv("services", list(services))]))],
    }
}

#[test]
fn database_type_exact_matches() {
    assert_eq!(DatabaseType::from("MySQL".to_string()), DatabaseType::MySQL);
    assert_eq!(DatabaseType::from("MongoDB".to_string()), DatabaseType::MongoDB);
}

#[test]
fn database_type_unknown_preserves_text() {
    let t = DatabaseType::from("Oracle".to_string());
    assert_eq!(t, DatabaseType::Unknown("Oracle".to_string()));
    assert_eq!(t.text(), "Oracle");
    assert_eq!(DatabaseType::from("MySQL".to_string()).text(), "MySQL");
    assert_eq!(DatabaseType::from("mysql".to_string()).text(), "mysql");
}

#[test]
fn language_classification() {
    assert_eq!(Language::from("go".to_string()), Language::Go);
    assert_eq!(Language::from("java".to_string()), Language::Java);
    assert_eq!(Language::from("COBOL".to_string()), Language::Unknown("COBOL".to_string()));
}

#[test]
fn call_with_post_method_is_http() {
    let c = rec(vec![kv("method", sv("POST")), kv("name", sv("B"))]);
    assert_eq!(
        MicroserviceCall::try_from(&c),
        Ok(MicroserviceCall::Http(HttpMethod::Post))
    );
}

#[test]
fn call_without_method_is_rpc() {
    let c = rec(vec![]);
    assert_eq!(MicroserviceCall::try_from(&c), Ok(MicroserviceCall::Rpc));
}

#[test]
fn call_with_mistyped_method_is_rpc() {
    let c = rec(vec![kv("method", list(vec![]))]);
    assert_eq!(MicroserviceCall::try_from(&c), Ok(MicroserviceCall::Rpc));
}

#[test]
fn every_known_verb_classifies() {
    let cases = vec![
        ("GET", HttpMethod::Get),
        ("POST", HttpMethod::Post),
        ("PUT", HttpMethod::Put),
        ("DELETE", HttpMethod::Delete),
        ("HEAD", HttpMethod::Head),
        ("OPTIONS", HttpMethod::Options),
        ("CONNECT", HttpMethod::Connect),
        ("PATCH", HttpMethod::Patch),
        ("TRACE", HttpMethod::Trace),
    ];
    for (text, verb) in cases {
        let c = rec(vec![kv("method", sv(text))]);
        assert_eq!(MicroserviceCall::try_from(&c), Ok(MicroserviceCall::Http(verb)));
    }
    let lower = rec(vec![kv("method", sv("get"))]);
    assert_eq!(
        MicroserviceCall::try_from(&lower),
        Err(ModelError::InvalidMethod("get".to_string()))
    );
}

#[test]
fn call_with_unknown_method_is_invalid() {
    let c = rec(vec![kv("method", sv("FOOBAR"))]);
    assert_eq!(
        MicroserviceCall::try_from(&c),
        Err(ModelError::InvalidMethod("FOOBAR".to_string()))
    );
}

#[test]
fn field_errors_name_the_missing_field() {
    assert_eq!(
        Field::try_from(&rec(vec![])),
        Err(ModelError::MissingField("name".to_string()))
    );
    assert_eq!(
        Field::try_from(&rec(vec![kv("name", sv("id"))])),
        Err(ModelError::MissingField("type".to_string()))
    );
    assert_eq!(
        Field::try_from(&rec(vec![kv("name", list(vec![]))])),
        Err(ModelError::WrongType("name".to_string()))
    );
}

#[test]
fn entity_builder_keeps_fields_in_order() {
    let r = entity_rec(
        "User",
        "MySQL",
        vec![
            rec(vec![kv("name", sv("id")), kv("type", sv("int"))]),
            rec(vec![kv("name", sv("email")), kv("type", sv("varchar"))]),
        ],
    );
    let e = Entity::try_from(&r).unwrap();
    assert_eq!(e.name, "User");
    assert_eq!(e.ty, DatabaseType::MySQL);
    assert_eq!(e.fields.len(), 2);
    assert_eq!(e.fields[0].name, "id");
    assert_eq!(e.fields[0].ty, "int");
    assert_eq!(e.fields[1].name, "email");
    assert_eq!(e.fields[1].ty, "varchar");
}

#[test]
fn entity_with_all_malformed_fields_still_builds() {
    let r = entity_rec(
        "Order",
        "MongoDB",
        vec![
            rec(vec![]),
            rec(vec![kv("name", sv("id"))]),
            rec(vec![kv("type", sv("int"))]),
        ],
    );
    let e = Entity::try_from(&r).unwrap();
    assert_eq!(e.name, "Order");
    assert_eq!(e.ty, DatabaseType::MongoDB);
    assert!(e.fields.is_empty());
}

#[test]
fn entity_missing_name_or_type_is_dropped() {
    let no_name = rec(vec![kv("type", sv("MySQL")), kv("fields", list(vec![]))]);
    assert_eq!(
        Entity::try_from(&no_name),
        Err(ModelError::MissingField("name".to_string()))
    );
    let no_type = rec(vec![kv("name", sv("User")), kv("fields", list(vec![]))]);
    assert_eq!(
        Entity::try_from(&no_type),
        Err(ModelError::MissingField("type".to_string()))
    );
}

#[test]
fn record_lookup_takes_first_occurrence() {
    let r = rec(vec![kv("name", sv("first")), kv("name", sv("second"))]);
    assert_eq!(r.extract_string("name"), Ok("first".to_string()));
}

#[test]
fn entity_graph_holds_one_node_per_entity_and_no_edges() {
    let a = Entity::try_from(&entity_rec("User", "MySQL", vec![])).unwrap();
    let b = Entity::try_from(&entity_rec("Order", "Oracle", vec![])).unwrap();
    let g = EntityGraph::from(&[a, b]);
    assert_eq!(g.node_count(), 2);
    assert_eq!(g.edge_count(), 0);
    let nodes = g.entities();
    assert_eq!(nodes[0].name, "User");
    assert_eq!(nodes[1].name, "Order");
    assert_eq!(nodes[1].ty, DatabaseType::Unknown("Oracle".to_string()));
}

#[test]
fn node_count_matches_resolvable_services() {
    let services = vec![
        service_rec("A", "go", vec![], vec![]),
        rec(vec![kv("name", sv("NoLanguage"))]),
        service_rec("B", "java", vec![], vec![]),
        rec(vec![kv("language", sv("go"))]),
    ];
    let eg = EntityGraph::from(&[]);
    let g = MicroserviceGraph::try_new(&extraction(services), &eg).unwrap();
    assert_eq!(g.node_count(), 2);
    let nodes = g.services();
    assert_eq!(nodes[0].name, "A");
    assert_eq!(nodes[0].language, Language::Go);
    assert_eq!(nodes[1].name, "B");
    assert_eq!(nodes[1].language, Language::Java);
}

#[test]
fn unresolved_call_target_yields_no_graph() {
    let services = vec![rec(vec![
        kv("name", sv("A")),
        kv("language", sv("go")),
        kv(
            "calls",
            list(vec![rec(vec![kv("name", sv("B")), kv("method", sv("GET"))])]),
        ),
    ])];
    let eg = EntityGraph::from(&[]);
    assert!(MicroserviceGraph::try_new(&extraction(services), &eg).is_none());
}

#[test]
fn unknown_verb_in_build_yields_no_graph() {
    let services = vec![
        service_rec("A", "go", vec![], vec![rec(vec![
            kv("name", sv("B")),
            kv("method", sv("FOOBAR")),
        ])]),
        service_rec("B", "go", vec![], vec![]),
    ];
    let eg = EntityGraph::from(&[]);
    assert!(MicroserviceGraph::try_new(&extraction(services), &eg).is_none());
}

#[test]
fn call_without_target_name_yields_no_graph() {
    let services = vec![service_rec("A", "go", vec![], vec![rec(vec![])])];
    let eg = EntityGraph::from(&[]);
    assert!(MicroserviceGraph::try_new(&extraction(services), &eg).is_none());
}

#[test]
fn missing_context_yields_no_graph() {
    let eg = EntityGraph::from(&[]);
    let empty = ExtractionResult { contexts: vec![] };
    assert!(MicroserviceGraph::try_new(&empty, &eg).is_none());
    let other = ExtractionResult {
        contexts: vec![("other".to_string(), rec(vec![]))],
    };
    assert!(MicroserviceGraph::try_new(&other, &eg).is_none());
}

#[test]
fn missing_or_mistyped_services_yields_no_graph() {
    let eg = EntityGraph::from(&[]);
    let no_services = ExtractionResult {
        contexts: vec![("ctx".to_string(), rec(vec![]))],
    };
    assert!(MicroserviceGraph::try_new(&no_services, &eg).is_none());
    let mistyped = ExtractionResult {
        contexts: vec![("ctx".to_string(), rec(vec![kv("services", sv("oops"))]))],
    };
    assert!(MicroserviceGraph::try_new(&mistyped, &eg).is_none());
}

#[test]
fn empty_services_build_an_empty_graph() {
    let eg = EntityGraph::from(&[]);
    let g = MicroserviceGraph::try_new(&extraction(vec![]), &eg).unwrap();
    assert_eq!(g.node_count(), 0);
    assert_eq!(g.edge_count(), 0);
}

#[test]
fn entity_references_resolve_by_exact_name() {
    let user = Entity::try_from(&entity_rec("User", "MySQL", vec![])).unwrap();
    let eg = EntityGraph::from(&[user]);
    let services = vec![service_rec(
        "A",
        "go",
        vec![named("User"), named("Ghost")],
        vec![],
    )];
    let g = MicroserviceGraph::try_new(&extraction(services), &eg).unwrap();
    let nodes = g.services();
    assert_eq!(nodes[0].ref_entities, vec![0]);
    assert_eq!(eg.entities()[nodes[0].ref_entities[0]].name, "User");
}

#[test]
fn service_without_entities_sequence_still_builds() {
    let eg = EntityGraph::from(&[]);
    let services = vec![rec(vec![kv("name", sv("A")), kv("language", sv("go"))])];
    let g = MicroserviceGraph::try_new(&extraction(services), &eg).unwrap();
    assert_eq!(g.node_count(), 1);
    assert!(g.services()[0].ref_entities.is_empty());
}

#[test]
fn classified_edges_keep_order_and_labels() {
    let services = vec![
        service_rec(
            "A",
            "go",
            vec![],
            vec![
                named("B"),
                rec(vec![kv("name", sv("B")), kv("method", sv("DELETE"))]),
            ],
        ),
        service_rec("B", "python", vec![], vec![rec(vec![
            kv("name", sv("A")),
            kv("method", sv("GET")),
        ])]),
    ];
    let eg = EntityGraph::from(&[]);
    let g = MicroserviceGraph::try_new(&extraction(services), &eg).unwrap();
    assert_eq!(g.node_count(), 2);
    assert_eq!(
        g.calls(),
        vec![
            (0, 1, MicroserviceCall::Rpc),
            (0, 1, MicroserviceCall::Http(HttpMethod::Delete)),
            (1, 0, MicroserviceCall::Http(HttpMethod::Get)),
        ]
    );
}

#[test]
fn service_without_calls_sequence_contributes_no_edges() {
    let services = vec![
        rec(vec![kv("name", sv("A")), kv("language", sv("go"))]),
        service_rec("B", "go", vec![], vec![named("A")]),
    ];
    let eg = EntityGraph::from(&[]);
    let g = MicroserviceGraph::try_new(&extraction(services), &eg).unwrap();
    assert_eq!(g.node_count(), 2);
    assert_eq!(g.calls(), vec![(1, 0, MicroserviceCall::Rpc)]);
}

#[test]
fn duplicate_service_names_resolve_to_the_first_node() {
    let services = vec![
        service_rec("A", "go", vec![], vec![]),
        service_rec("A", "java", vec![], vec![named("B")]),
        service_rec("B", "go", vec![], vec![named("A")]),
    ];
    let eg = EntityGraph::from(&[]);
    let g = MicroserviceGraph::try_new(&extraction(services), &eg).unwrap();
    assert_eq!(g.node_count(), 3);
    assert_eq!(
        g.calls(),
        vec![(0, 2, MicroserviceCall::Rpc), (2, 0, MicroserviceCall::Rpc)]
    );
}

#[test]
fn rebuilding_from_the_same_input_is_deterministic() {
    let user = Entity::try_from(&entity_rec("User", "MySQL", vec![])).unwrap();
    let eg = EntityGraph::from(&[user]);
    let services = vec![
        service_rec("A", "go", vec![named("User")], vec![rec(vec![
            kv("name", sv("B")),
            kv("method", sv("PATCH")),
        ])]),
        service_rec("B", "csharp", vec![], vec![named("A")]),
    ];
    let x = extraction(services);
    let g1 = MicroserviceGraph::try_new(&x, &eg).unwrap();
    let g2 = MicroserviceGraph::try_new(&x, &eg).unwrap();
    assert_eq!(g1.node_count(), g2.node_count());
    assert_eq!(g1.edge_count(), g2.edge_count());
    assert_eq!(g1.calls(), g2.calls());
    let n1 = g1.services();
    let n2 = g2.services();
    for k in 0..n1.len() {
        assert_eq!(n1[k].name, n2[k].name);
        assert_eq!(n1[k].language, n2[k].language);
        assert_eq!(n1[k].ref_entities, n2[k].ref_entities);
    }
}

#[test]
fn entity_graph_handle_reaches_the_stored_nodes() {
    let a = Entity::try_from(&entity_rec("User", "MySQL", vec![])).unwrap();
    let g = EntityGraph::from(&[a]);
    let inner = g.as_ref();
    assert_eq!(inner.node_count(), 1);
    assert_eq!(inner.edge_count(), 0);
}
