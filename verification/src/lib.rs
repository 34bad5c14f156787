//! A verified registry of charitable projects.
//!
//! The registry tracks each project through its lifecycle — registration,
//! one-time verification, and accumulation of donations — and keeps a
//! running aggregate summary in lockstep with every mutation.
//!
//! The `records` module holds the record types and the per-record state
//! transitions; the `registry` module holds the registry itself, whose
//! operations are proved to preserve the agreement between the records
//! and the aggregate summary.

pub mod records;
pub mod registry;
