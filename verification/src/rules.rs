//! The rules of the ledger, stated over plain values.
//!
//! For each operation this module says on which inputs it is rejected, and
//! with which error, and what the state is after it was accepted. An
//! operation checks the pause flag first, then who calls, then its own
//! conditions in the order in which they are written here; the first
//! condition that fails decides the error.
//!
//! At the end the rules are put together: the state and the operations are
//! written as plain values, and one step of the ledger as a function of the
//! two. A rejected operation leaves the state as it was, an accepted one
//! changes it as the rules say.

use vstd::prelude::*;
use crate::error::ErrorCode;
use crate::identity::Pubkey;
use crate::registry::{has_id, record_of, with_record};
use crate::state::{
    fresh_record, AdminAccount, ServerView, CLAIM_COOLDOWN, MAX_SERVER_ID_LEN, MAX_UPTIME,
    STALE_AFTER,
};

verus! {

/// Whether enough time has passed since the last metrics update for a claim.
pub open spec fn cooled_down(last_metrics_update: i64, now: i64) -> bool {
    now - last_metrics_update >= CLAIM_COOLDOWN
}

/// Whether a record has been without a metrics update for so long that its
/// pending rewards may be forfeited.
pub open spec fn stale(last_metrics_update: i64, now: i64) -> bool {
    now - last_metrics_update >= STALE_AFTER
}

/// The ledger as it is created: with an empty pool and not paused.
pub open spec fn initial_ledger(authority: Pubkey) -> AdminAccount {
    AdminAccount { authority, reward_pool: 0, paused: false }
}

/// The error with which a registration is rejected, if it is.
pub open spec fn register_rejection(
    admin: AdminAccount,
    records: Seq<ServerView>,
    id: Seq<char>,
    caller: Pubkey,
) -> Option<ErrorCode> {
    if admin.paused {
        Some(ErrorCode::ProgramPaused)
    } else if caller != admin.authority {
        Some(ErrorCode::Unauthorized)
    } else if id.len() > MAX_SERVER_ID_LEN {
        Some(ErrorCode::ServerIdTooLong)
    } else if has_id(records, id) {
        Some(ErrorCode::DuplicateServerId)
    } else {
        None
    }
}

/// The records after a registration was accepted.
pub open spec fn records_after_register(
    records: Seq<ServerView>,
    id: Seq<char>,
    owner: Pubkey,
    now: i64,
) -> Seq<ServerView> {
    records.push(fresh_record(id, owner, now))
}

/// The error with which a metrics submission is rejected, if it is.
pub open spec fn metrics_rejection(
    admin: AdminAccount,
    records: Seq<ServerView>,
    id: Seq<char>,
    caller: Pubkey,
    uptime: u8,
    points: u64,
) -> Option<ErrorCode> {
    if admin.paused {
        Some(ErrorCode::ProgramPaused)
    } else if caller != admin.authority {
        Some(ErrorCode::Unauthorized)
    } else if uptime > MAX_UPTIME {
        Some(ErrorCode::InvalidUptime)
    } else if !has_id(records, id) {
        Some(ErrorCode::NotFound)
    } else if record_of(records, id).pending_rewards + points > u64::MAX {
        Some(ErrorCode::NumericOverflow)
    } else {
        None
    }
}

/// A record after `points` were credited to it at the time `now`.
pub open spec fn credited(r: ServerView, points: u64, now: i64) -> ServerView {
    ServerView {
        pending_rewards: (r.pending_rewards + points) as u64,
        last_metrics_update: now,
        ..r
    }
}

/// The records after a metrics submission was accepted.
pub open spec fn records_after_metrics(
    records: Seq<ServerView>,
    id: Seq<char>,
    points: u64,
    now: i64,
) -> Seq<ServerView> {
    with_record(records, id, credited(record_of(records, id), points, now))
}

/// The error with which a claim is rejected before any transfer is
/// attempted, if it is.
pub open spec fn claim_rejection(
    admin: AdminAccount,
    records: Seq<ServerView>,
    id: Seq<char>,
    caller: Pubkey,
    now: i64,
) -> Option<ErrorCode> {
    if admin.paused {
        Some(ErrorCode::ProgramPaused)
    } else if !has_id(records, id) {
        Some(ErrorCode::NotFound)
    } else if caller != record_of(records, id).owner {
        Some(ErrorCode::Unauthorized)
    } else if !cooled_down(record_of(records, id).last_metrics_update, now) {
        Some(ErrorCode::ClaimCooldownActive)
    } else if record_of(records, id).pending_rewards > admin.reward_pool {
        Some(ErrorCode::InsufficientRewardPool)
    } else {
        None
    }
}

/// A record after its pending rewards were paid out or forfeited.
pub open spec fn emptied(r: ServerView) -> ServerView {
    ServerView { pending_rewards: 0, ..r }
}

/// The records after the pending rewards of one record were paid out or
/// forfeited.
pub open spec fn records_after_emptying(records: Seq<ServerView>, id: Seq<char>) -> Seq<
    ServerView,
> {
    with_record(records, id, emptied(record_of(records, id)))
}

/// The ledger after `amount` was paid out of the pool.
pub open spec fn ledger_after_payout(admin: AdminAccount, amount: u64) -> AdminAccount {
    AdminAccount { reward_pool: (admin.reward_pool - amount) as u64, ..admin }
}

/// The error with which a deposit is rejected before any transfer is
/// attempted, if it is.
pub open spec fn deposit_rejection(admin: AdminAccount, caller: Pubkey, amount: u64) -> Option<
    ErrorCode,
> {
    if admin.paused {
        Some(ErrorCode::ProgramPaused)
    } else if caller != admin.authority {
        Some(ErrorCode::Unauthorized)
    } else if admin.reward_pool + amount > u64::MAX {
        Some(ErrorCode::NumericOverflow)
    } else {
        None
    }
}

/// The ledger after `amount` was paid into the pool.
pub open spec fn ledger_after_deposit(admin: AdminAccount, amount: u64) -> AdminAccount {
    AdminAccount { reward_pool: (admin.reward_pool + amount) as u64, ..admin }
}

/// The error with which the reclaiming of stale rewards is rejected, if it
/// is.
pub open spec fn reclaim_rejection(
    admin: AdminAccount,
    records: Seq<ServerView>,
    id: Seq<char>,
    caller: Pubkey,
    now: i64,
) -> Option<ErrorCode> {
    if admin.paused {
        Some(ErrorCode::ProgramPaused)
    } else if caller != admin.authority {
        Some(ErrorCode::Unauthorized)
    } else if !has_id(records, id) {
        Some(ErrorCode::NotFound)
    } else if !stale(record_of(records, id).last_metrics_update, now) {
        Some(ErrorCode::RewardsNotStale)
    } else {
        None
    }
}

/// The error with which a deactivation is rejected, if it is.
pub open spec fn deactivate_rejection(
    admin: AdminAccount,
    records: Seq<ServerView>,
    id: Seq<char>,
    caller: Pubkey,
) -> Option<ErrorCode> {
    if admin.paused {
        Some(ErrorCode::ProgramPaused)
    } else if caller != admin.authority {
        Some(ErrorCode::Unauthorized)
    } else if !has_id(records, id) {
        Some(ErrorCode::NotFound)
    } else {
        None
    }
}

/// A record after its server was deactivated.
pub open spec fn deactivated(r: ServerView) -> ServerView {
    ServerView { active: false, ..r }
}

/// The records after a deactivation was accepted.
pub open spec fn records_after_deactivate(records: Seq<ServerView>, id: Seq<char>) -> Seq<
    ServerView,
> {
    with_record(records, id, deactivated(record_of(records, id)))
}

/// The error with which a reassignment is rejected, if it is.
pub open spec fn reassign_rejection(
    admin: AdminAccount,
    records: Seq<ServerView>,
    id: Seq<char>,
    caller: Pubkey,
) -> Option<ErrorCode> {
    if admin.paused {
        Some(ErrorCode::ProgramPaused)
    } else if caller != admin.authority {
        Some(ErrorCode::Unauthorized)
    } else if !has_id(records, id) {
        Some(ErrorCode::NotFound)
    } else if !record_of(records, id).active {
        Some(ErrorCode::ServerNotActive)
    } else {
        None
    }
}

/// A record after its server passed to `new_owner`.
pub open spec fn reassigned(r: ServerView, new_owner: Pubkey) -> ServerView {
    ServerView { owner: new_owner, ..r }
}

/// The records after a reassignment was accepted.
pub open spec fn records_after_reassign(
    records: Seq<ServerView>,
    id: Seq<char>,
    new_owner: Pubkey,
) -> Seq<ServerView> {
    with_record(records, id, reassigned(record_of(records, id), new_owner))
}

/// The whole state: the ledger and the records of the registry.
pub struct State {
    pub ledger: AdminAccount,
    pub records: Seq<ServerView>,
}

/// An operation with all that it is invoked with. For the two operations that
/// move value, `transferred` says whether the transfer succeeded.
pub enum Operation {
    Register { id: Seq<char>, owner: Pubkey, caller: Pubkey, now: i64 },
    SubmitMetrics { id: Seq<char>, caller: Pubkey, uptime: u8, points: u64, now: i64 },
    Claim { id: Seq<char>, caller: Pubkey, now: i64, transferred: bool },
    Deposit { caller: Pubkey, amount: u64, transferred: bool },
    ReclaimStale { id: Seq<char>, caller: Pubkey, now: i64 },
    Deactivate { id: Seq<char>, caller: Pubkey },
    Reassign { id: Seq<char>, new_owner: Pubkey, caller: Pubkey },
}

/// The error of a failed transfer, unless an earlier check has already
/// rejected the operation.
pub open spec fn or_failed_transfer(checked: Option<ErrorCode>, transferred: bool) -> Option<
    ErrorCode,
> {
    if checked is None && !transferred {
        Some(ErrorCode::TransferError)
    } else {
        checked
    }
}

/// The error with which the operation is rejected in the state `s`, if it is.
pub open spec fn rejection(s: State, op: Operation) -> Option<ErrorCode> {
    match op {
        Operation::Register { id, owner, caller, now } => register_rejection(
            s.ledger,
            s.records,
            id,
            caller,
        ),
        Operation::SubmitMetrics { id, caller, uptime, points, now } => metrics_rejection(
            s.ledger,
            s.records,
            id,
            caller,
            uptime,
            points,
        ),
        Operation::Claim { id, caller, now, transferred } => or_failed_transfer(
            claim_rejection(s.ledger, s.records, id, caller, now),
            transferred,
        ),
        Operation::Deposit { caller, amount, transferred } => or_failed_transfer(
            deposit_rejection(s.ledger, caller, amount),
            transferred,
        ),
        Operation::ReclaimStale { id, caller, now } => reclaim_rejection(
            s.ledger,
            s.records,
            id,
            caller,
            now,
        ),
        Operation::Deactivate { id, caller } => deactivate_rejection(
            s.ledger,
            s.records,
            id,
            caller,
        ),
        Operation::Reassign { id, new_owner, caller } => reassign_rejection(
            s.ledger,
            s.records,
            id,
            caller,
        ),
    }
}

/// The state after the operation was asked for in the state `s`.
pub open spec fn step(s: State, op: Operation) -> State {
    if rejection(s, op) is Some {
        s
    } else {
        match op {
            Operation::Register { id, owner, caller, now } => State {
                records: records_after_register(s.records, id, owner, now),
                ..s
            },
            Operation::SubmitMetrics { id, caller, uptime, points, now } => State {
                records: records_after_metrics(s.records, id, points, now),
                ..s
            },
            Operation::Claim { id, caller, now, transferred } => State {
                ledger: ledger_after_payout(s.ledger, record_of(s.records, id).pending_rewards),
                records: records_after_emptying(s.records, id),
            },
            Operation::Deposit { caller, amount, transferred } => State {
                ledger: ledger_after_deposit(s.ledger, amount),
                ..s
            },
            Operation::ReclaimStale { id, caller, now } => State {
                records: records_after_emptying(s.records, id),
                ..s
            },
            Operation::Deactivate { id, caller } => State {
                records: records_after_deactivate(s.records, id),
                ..s
            },
            Operation::Reassign { id, new_owner, caller } => State {
                records: records_after_reassign(s.records, id, new_owner),
                ..s
            },
        }
    }
}

} // verus!
