//! Event alignment and tabular projection for market data.
//!
//! This library sits between an asynchronous market-data fetch client and a
//! host analysis environment.  It maps user-facing period/interval vocabulary
//! onto internal fetch parameters, merges heterogeneous corporate-action
//! event streams into one aligned table, projects domain collections into
//! fixed-schema column sets, and resolves option-expiration dates to and from
//! Unix timestamps.  The fetch itself, and the materialisation of the column
//! sets into a host table format, live outside this crate.

pub mod error;
pub mod events;
pub mod expiry;
pub mod fields;
pub mod project;
pub mod ticker;
pub mod vocab;
