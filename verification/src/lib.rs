//! kapi: the verified core of a Kubernetes-style API server.
//!
//! The library holds the resource model, selector parsing and matching,
//! metadata validation, the finalizer state machine, the in-memory object
//! store, the schema registry, the object services, the SQL of the database
//! store and the OpenAPI description. Network transport, the database
//! connection and event streaming live outside it.

pub mod text;
pub mod charseq;
pub mod order;
pub mod keys;
pub mod json;
pub mod jsonbuild;
pub mod jsontext;
pub mod strmap;
pub mod error;
pub mod types;
pub mod selector;
pub mod validation;
pub mod clock;
pub mod token;
pub mod store;
pub mod sqlquery;
pub mod finalizer;
pub mod helpers;
pub mod openapi;
pub mod meta_schema;
pub mod schema_data;
pub mod registry;
pub mod service;
pub mod schema_service;
pub mod handler;
pub mod bootstrap;
pub mod laws;
pub mod watch;
