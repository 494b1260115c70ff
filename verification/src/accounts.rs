//! The identities and the record that each operation is invoked with.
//!
//! Identities arrive already authenticated; a record is addressed by its
//! identifier.

use vstd::prelude::*;
use crate::identity::Pubkey;

verus! {

/// Creating the ledger.
#[derive(Clone, Copy, Debug, PartialEq, Eq)]
pub struct Initialize {
    /// The identity that will administer the ledger.
    pub authority: Pubkey,
}

/// Registering a server.
#[derive(Clone, Copy, Debug, PartialEq, Eq)]
pub struct RegisterServer {
    /// The identity that will own the server.
    pub owner: Pubkey,
    /// The caller.
    pub authority: Pubkey,
}

/// Reporting the metrics of a server.
#[derive(Clone, Debug, PartialEq, Eq)]
pub struct SubmitMetrics {
    /// The identifier of the server reported on.
    pub server: String,
    /// The caller.
    pub authority: Pubkey,
}

/// Claiming the pending rewards of a server.
#[derive(Clone, Debug, PartialEq, Eq)]
pub struct ClaimRewards {
    /// The identifier of the server whose rewards are claimed.
    pub server: String,
    /// The caller, who is also the payee.
    pub owner: Pubkey,
}

/// Funding the pool.
#[derive(Clone, Copy, Debug, PartialEq, Eq)]
pub struct DepositRewards {
    /// The caller, from whose account the deposit comes.
    pub authority: Pubkey,
}

/// Forfeiting the pending rewards of a dormant server.
#[derive(Clone, Debug, PartialEq, Eq)]
pub struct ReclaimRewards {
    /// The identifier of the dormant server.
    pub server: String,
    /// The caller.
    pub authority: Pubkey,
}

/// Deactivating a server.
#[derive(Clone, Debug, PartialEq, Eq)]
pub struct DeactivateServer {
    /// The identifier of the server to deactivate.
    pub server: String,
    /// The caller.
    pub authority: Pubkey,
}

/// Passing a server to a new owner.
#[derive(Clone, Debug, PartialEq, Eq)]
pub struct ReassignServer {
    /// The identifier of the server that changes hands.
    pub server: String,
    /// The identity that will own the server.
    pub new_owner: Pubkey,
    /// The caller.
    pub authority: Pubkey,
}

} // verus!
