//! A verified core for versioned document-schema migration: record
//! conversion between schema versions, a streaming step migrator over a
//! store model, a fail-fast migration chain, and a cancellable,
//! timeout-bound run controller.

pub mod chain;
pub mod config;
pub mod controller;
pub mod errors;
pub mod records;
pub mod step;
pub mod store;

use vstd::prelude::*;

verus! {

/// Schema version written into every converted record.
pub const DEFAULT_SCHEMA_VERSION: i64 = 1;

/// Default value injected for the `version` field that exists only in the
/// target schema shape.
pub fn version() -> (v: i64)
    ensures
        v == DEFAULT_SCHEMA_VERSION,
{
    DEFAULT_SCHEMA_VERSION
}

} // verus!
