//! A schema graph: a named schema that owns an ordered collection of named
//! models, each of which refers back to its schema without owning it.
//!
//! A graph is described by a [`template::SchemaTemplate`], assembled in one
//! step inside a [`graph::Registry`], and then only read: models are looked up
//! by name, and a model resolves its schema through the registry.

pub mod document;
pub mod graph;
pub mod once;
pub mod template;
