//! The errors with which an operation is rejected.

use vstd::prelude::*;

verus! {

/// Why an operation was rejected. A rejected operation changes nothing.
#[derive(Clone, Copy, Debug, PartialEq, Eq, Structural)]
pub enum ErrorCode {
    /// The ledger is paused.
    ProgramPaused,
    /// The caller is not the identity that the operation is reserved to.
    Unauthorized,
    /// The identifier chosen for a new server is longer than allowed.
    ServerIdTooLong,
    /// A server with that identifier is already registered.
    DuplicateServerId,
    /// The reported uptime is above one hundred percent.
    InvalidUptime,
    /// A balance would leave the range of its type.
    NumericOverflow,
    /// Too little time has passed since the last metrics update.
    ClaimCooldownActive,
    /// The server has been deactivated.
    ServerNotActive,
    /// The record has not been dormant long enough to be reclaimed.
    RewardsNotStale,
    /// The pool holds less than the amount claimed.
    InsufficientRewardPool,
    /// No server with that identifier is registered.
    NotFound,
    /// The movement of value between the pool and an account failed.
    TransferError,
}

} // verus!
