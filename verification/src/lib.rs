//! Control-plane logic for an ephemeral, per-user compute session service.
//!
//! Sessions run a user-selected template image on a cluster node, reachable
//! under a per-session subdomain, for a bounded duration. This crate holds the
//! verified core: naming and tagging of session-owned resources, the session
//! state codec (annotation-encoded, no separate datastore), pool/node
//! aggregation and admission control, route-table maintenance, and the
//! orchestration state machines that sequence platform calls. The platform
//! calls themselves (an orchestration API reached over the network) live
//! outside this crate; the library hands descriptors out and takes fetched
//! values back as plain data.

pub mod codec;
pub mod engine;
pub mod names;
pub mod pools;
pub mod resources;
pub mod routes;
pub mod text;
pub mod types;

use vstd::prelude::*;

verus! {

/// Error taxonomy of the whole engine.
///
/// `MissingData` names an expected field, label or annotation that was absent
/// from a fetched resource, or a referenced entity (pool, template, session)
/// that does not exist. `Failure` carries the text of an underlying platform
/// or parse error. `Unauthorized` is a policy violation: the capacity ceiling
/// or the maximum session duration was exceeded. No error is recovered
/// locally; every failure aborts the operation that met it.
#[derive(Debug, Clone, PartialEq, Eq)]
pub enum Error {
    MissingData(String),
    Failure(String),
    Unauthorized,
}

} // verus!
