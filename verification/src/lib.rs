//! Merchandise catalog kernel: exact multi-precision money, the catalog's domain vocabulary and
//! write model, the repository's decisions, and the HTTP surface's plain data, each with its
//! contract proved.
//!
//! - `text`, `decimal`: character-level text and the decimal literal grammar.
//! - `rounding`, `unit`, `money`, `allocation`: the money kernel.
//! - `contract`, `domain`, `validation`, `commands`, `queries`, `ports`, `service`: the catalog
//!   service's vocabulary, write model, read models and declared capability set.
//! - `repository`, `guarded`, `variant`, `axes`, `media`: what the catalog repository decides
//!   around its statements, and the order in which a guarded write runs them.
//! - `envelope`, `router`, `catalog_store`, `requests`, `host`: the HTTP surface (page blocks,
//!   wire parsing, the route table, request and response data, what a write route decides) and
//!   the host's composition facts.

pub mod text;
pub mod rounding;
pub mod decimal;
pub mod unit;
pub mod money;
pub mod allocation;
pub mod contract;
pub mod domain;
pub mod validation;
pub mod commands;
pub mod queries;
pub mod ports;
pub mod service;
pub mod repository;
pub mod guarded;
pub mod variant;
pub mod axes;
pub mod envelope;
pub mod router;
pub mod catalog_store;
pub mod host;
pub mod media;
pub mod requests;
