//! Tables and views of a table catalog, offered to a query engine.
//!
//! The catalog itself, and the engine, stand outside. What is decided between
//! them stands here: which names a schema offers and what is found under each,
//! the order in which a table is registered or a schema found, which context
//! goes with each operation on a catalog, and which tables a query has to load.
//! Work that has to be waited for is handed out step by step: a step says what
//! has to be done, and how it went decides what comes next.
pub mod binding;
pub mod catalog_access;
pub mod catalog_provider;
pub mod discovery;
pub mod error;
pub mod ident;
pub mod known_views;
pub mod metadata_table;
pub mod options;
pub mod options_text;
mod provider_map;
pub mod provider_request;
pub mod references;
pub mod registration;
pub mod schema;
pub mod schema_laws;
pub mod session_catalog;
pub mod source;
pub mod string_map;
pub mod text;
pub mod view;
pub mod view_load;
pub mod view_plan;
