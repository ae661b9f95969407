//! Reconciles the lines of a transit feed with the entities of a
//! Wikibase-style knowledge base, and says which entities have to be created.
//!
//! The library performs no input or output. It states which calls an import
//! makes, reads the replies that its caller hands back, and keeps the record of
//! what happened to each route.

pub mod api_structures;
pub mod client;
pub mod error;
pub mod exchange;
pub mod feed;
pub mod identifiers;
pub mod import;
pub mod knowledge_base;
pub mod views;
