//! The notifications that accepted operations hand back for the audit trail.

use vstd::prelude::*;
use crate::identity::Pubkey;

verus! {

/// A grace period began for a newly registered server.
#[derive(Clone, Debug, PartialEq, Eq)]
pub struct GracePeriodStarted {
    pub server_id: String,
    pub end_timestamp: i64,
}

/// The pool was funded.
#[derive(Clone, Copy, Debug, PartialEq, Eq)]
pub struct RewardsDeposited {
    pub amount: u64,
    pub new_balance: u64,
}

/// The pending rewards of a dormant server were forfeited.
#[derive(Clone, Debug, PartialEq, Eq)]
pub struct RewardsReclaimed {
    pub server_id: String,
    pub amount: u64,
}

/// A server was registered.
#[derive(Clone, Debug, PartialEq, Eq)]
pub struct ServerRegistered {
    pub server_id: String,
    pub wallet_address: Pubkey,
}

/// A server was deactivated.
#[derive(Clone, Debug, PartialEq, Eq)]
pub struct ServerDeregistered {
    pub server_id: String,
}

/// Pending rewards were paid out to a server's owner.
#[derive(Clone, Copy, Debug, PartialEq, Eq)]
pub struct RewardsClaimed {
    pub wallet_address: Pubkey,
    pub reward_amount: u64,
}

/// Metrics were accepted and points credited to a server.
#[derive(Clone, Debug, PartialEq, Eq)]
pub struct MetricsUpdated {
    pub server_id: String,
    pub points: u64,
}

/// A server passed to a new owner.
#[derive(Clone, Debug, PartialEq, Eq)]
pub struct ServerReassigned {
    pub server_id: String,
    pub old_owner: Pubkey,
    pub new_owner: Pubkey,
}

} // verus!
