//! Data-access and catch-up layer of a blockchain sequencer node.
//!
//! The library models how a node answers read queries about chain state
//! (accounts, Merkle frontiers, chain configuration) and how it recovers
//! state it does not hold locally: a pluggable persistence backend is bound
//! to exactly one read-API type at configuration time, and catch-up
//! operations fall back to peer query services when local storage cannot
//! serve a request. A config sanitizer produces a secret-free public
//! projection of the node's consensus configuration.

use vstd::prelude::*;

pub mod catchup;
pub mod config;
pub mod data_source;
pub mod provider;

verus! {

/// The errors a catch-up or construction operation can surface.
///
/// Every failure is typed and distinguishable; none is fatal to the node.
#[derive(Clone, Copy, Debug, PartialEq, Eq, Structural)]
pub enum CatchupError {
    /// The persistence backend does not retain the authenticated trees
    /// needed to serve this request; an expected, routine outcome.
    Unsupported,
    /// The requested snapshot, account or configuration is absent even on a
    /// capable backend.
    NotFound,
    /// Every configured peer source was tried and failed.
    Unavailable,
    /// The backend could not be constructed (unreachable or corrupt store).
    InitializationFailure,
}

impl CatchupError {
    /// A human-readable cause for the failure, distinct per variant.
    pub fn message(&self) -> (r: &'static str)
        ensures
            self is Unsupported ==> r@ == "merklized state catchup is not supported for this data source"@,
            self is NotFound ==> r@ == "requested snapshot is not present in this data source"@,
            self is Unavailable ==> r@ == "failed to fetch from every configured peer"@,
            self is InitializationFailure ==> r@ == "could not initialize the persistence backend"@,
    {
        match self {
            CatchupError::Unsupported => "merklized state catchup is not supported for this data source",
            CatchupError::NotFound => "requested snapshot is not present in this data source",
            CatchupError::Unavailable => "failed to fetch from every configured peer",
            CatchupError::InitializationFailure => "could not initialize the persistence backend",
        }
    }
}

} // verus!
