//! Architecture model of a distributed system: services, their languages,
//! the data entities they use, and the classified calls between services,
//! held as two linked directed graphs built from semi-structured records.
mod entity;
mod graphs;
mod record;
mod service;
mod store;

pub use entity::database_type_of;
pub use entity::database_type_text;
pub use entity::entity_spec;
pub use entity::field_spec;
pub use entity::fields_of;
pub use entity::lemma_all_malformed_fields_drop;
pub use entity::lemma_database_type_text_round_trip;
pub use entity::DatabaseType;
pub use graphs::buildable_count;
pub use graphs::edge_views;
pub use graphs::edges_of;
pub use graphs::find_text;
pub use graphs::graph_spec;
pub use graphs::lemma_build_deterministic;
pub use graphs::lemma_graph_edges_connect_nodes;
pub use graphs::lemma_node_count_matches_buildable;
pub use graphs::lemma_unresolved_target_aborts;
pub use graphs::ms_names;
pub use graphs::ms_views;
pub use graphs::services_of;
pub use graphs::EntityGraph;
pub use graphs::MicroserviceGraph;
pub use entity::Entity;
pub use entity::Field;
pub use entity::Multiplicity;
pub use entity::SpecDatabaseType;
pub use entity::SpecEntity;
pub use entity::SpecField;
pub use record::ExtractionResult;
pub use record::ModelError;
pub use record::Record;
pub use record::SpecError;
pub use record::Value;
pub use service::call_spec;
pub use service::language_of;
pub use service::microservice_spec;
pub use service::verb_of;
pub use service::HttpMethod;
pub use service::Language;
pub use service::Microservice;
pub use service::MicroserviceCall;
pub use service::SpecLanguage;
pub use service::SpecMicroservice;
