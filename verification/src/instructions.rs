//! The operations of the ledger.
//!
//! Each operation is one call. It is either accepted, changes the state as
//! the rules say and hands back the notifications for the audit trail, or
//! rejected with an error, and then changes nothing.
//!
//! The two operations that move value, the claim and the deposit, come in two
//! steps. The first names the transfer that has to take place and changes
//! nothing. Its caller performs the transfer and hands the outcome to the
//! second step, which settles the books.

use vstd::prelude::*;
use crate::accounts::{
    ClaimRewards, DeactivateServer, DepositRewards, Initialize, ReassignServer, ReclaimRewards,
    RegisterServer, SubmitMetrics,
};
use crate::error::ErrorCode;
use crate::events::{
    GracePeriodStarted, MetricsUpdated, RewardsClaimed, RewardsDeposited, RewardsReclaimed,
    ServerDeregistered, ServerReassigned, ServerRegistered,
};
use crate::identity::Pubkey;
use crate::registry::{index_of, record_of, Registry};
use crate::rules::{
    claim_rejection, deposit_rejection, initial_ledger, ledger_after_deposit, or_failed_transfer,
    rejection, step, Operation, State,
};
use crate::state::{
    AdminAccount, Server, ServerView, CLAIM_COOLDOWN, GRACE_PERIOD, MAX_SERVER_ID_LEN, MAX_UPTIME,
    STALE_AFTER,
};
use crate::transfer::{funding, payout, Party, Transfer, TransferError};
use vstd::string::*;

verus! {

/// A copy of `server` with the fields that operations change set anew.
fn amended(
    server: &Server,
    owner: Pubkey,
    active: bool,
    pending_rewards: u64,
    last_metrics_update: i64,
) -> (out: Server)
    ensures
        out@ == (ServerView { owner, active, pending_rewards, last_metrics_update, ..server@ }),
{
    Server {
        id: server.id.clone(),
        owner,
        active,
        registered_at: server.registered_at,
        pending_rewards,
        last_metrics_update,
        grace_period_end: server.grace_period_end,
    }
}

/// Whether at least `span` seconds lie between `earlier` and `now`.
fn elapsed_at_least(earlier: i64, now: i64, span: i64) -> (enough: bool)
    ensures
        enough == (now - earlier >= span),
{
    now as i128 - earlier as i128 >= span as i128
}

/// Creates the ledger, administered by `ctx.authority`.
pub fn initialize(ctx: &Initialize) -> (admin_account: AdminAccount)
    ensures
        admin_account == initial_ledger(ctx.authority),
{
    AdminAccount { authority: ctx.authority, reward_pool: 0, paused: false }
}

/// Checks a claim and finds the record that it addresses.
fn check_claim(
    admin_account: &AdminAccount,
    registry: &Registry,
    ctx: &ClaimRewards,
    now: i64,
) -> (res: Result<usize, ErrorCode>)
    ensures
        match claim_rejection(*admin_account, registry@, ctx.server@, ctx.owner, now) {
            Some(e) => res == Err::<usize, ErrorCode>(e),
            None => res matches Ok(i) && i == index_of(registry@, ctx.server@) && i
                < registry@.len(),
        },
{
    if admin_account.paused {
        return Err(ErrorCode::ProgramPaused);
    }
    let i = match registry.position(ctx.server.as_str()) {
        Some(i) => i,
        None => {
            return Err(ErrorCode::NotFound);
        },
    };
    let server = registry.at(i);
    if ctx.owner != server.owner {
        return Err(ErrorCode::Unauthorized);
    }
    if !elapsed_at_least(server.last_metrics_update, now, CLAIM_COOLDOWN) {
        return Err(ErrorCode::ClaimCooldownActive);
    }
    if server.pending_rewards > admin_account.reward_pool {
        return Err(ErrorCode::InsufficientRewardPool);
    }
    Ok(i)
}

/// The transfer that a claim requires: the pending rewards of the server,
/// out of the pool and to its owner. Nothing changes.
///
/// The claim is open to the owner of the server alone, once seven days have
/// passed since the last metrics update, and only in full: it is rejected
/// when the pool holds less than what is pending.
pub fn claim_transfer(
    admin_account: &AdminAccount,
    registry: &Registry,
    ctx: &ClaimRewards,
    now: i64,
) -> (res: Result<Transfer, ErrorCode>)
    ensures
        match claim_rejection(*admin_account, registry@, ctx.server@, ctx.owner, now) {
            Some(e) => res == Err::<Transfer, ErrorCode>(e),
            None => res == Ok::<Transfer, ErrorCode>(
                payout(ctx.owner, record_of(registry@, ctx.server@).pending_rewards),
            ),
        },
{
    match check_claim(admin_account, registry, ctx, now) {
        Err(e) => Err(e),
        Ok(i) => Ok(
            Transfer {
                from: Party::Pool,
                to: Party::Wallet(ctx.owner),
                amount: registry.at(i).pending_rewards,
            },
        ),
    }
}

/// Settles a claim, given the outcome of the transfer that `claim_transfer`
/// named.
///
/// A claim that `claim_transfer` rejects is rejected here with the same
/// error, whatever `transfer` says. Otherwise a failed transfer rejects the
/// claim, and a successful one empties the pending rewards of the server and
/// takes the same amount from the pool.
pub fn claim_rewards(
    admin_account: &mut AdminAccount,
    registry: &mut Registry,
    ctx: &ClaimRewards,
    now: i64,
    transfer: Result<(), TransferError>,
) -> (res: Result<RewardsClaimed, ErrorCode>)
    ensures
        ({
            let before = State { ledger: *old(admin_account), records: old(registry)@ };
            let after = State { ledger: *final(admin_account), records: final(registry)@ };
            let op = Operation::Claim {
                id: ctx.server@,
                caller: ctx.owner,
                now,
                transferred: transfer is Ok,
            };
            &&& after == step(before, op)
            &&& match rejection(before, op) {
                Some(e) => res == Err::<RewardsClaimed, ErrorCode>(e),
                None => res == Ok::<RewardsClaimed, ErrorCode>(
                    RewardsClaimed {
                        wallet_address: ctx.owner,
                        reward_amount: record_of(before.records, ctx.server@).pending_rewards,
                    },
                ),
            }
        }),
{
    let i = match check_claim(admin_account, registry, ctx, now) {
        Ok(i) => i,
        Err(e) => {
            return Err(e);
        },
    };
    if transfer.is_err() {
        return Err(ErrorCode::TransferError);
    }
    let server = registry.at(i);
    let rewards = server.pending_rewards;
    let emptied = amended(server, server.owner, server.active, 0, server.last_metrics_update);
    registry.replace(i, emptied);
    admin_account.reward_pool = admin_account.reward_pool - rewards;
    Ok(RewardsClaimed { wallet_address: ctx.owner, reward_amount: rewards })
}

/// Registers a server under the identifier `server_id`, owned by `ctx.owner`.
///
/// Only the authority registers servers. The identifier has at most 32
/// characters and is not yet taken. The new record is active, has nothing
/// pending and no metrics yet, and its grace period ends seven days after
/// `now`.
pub fn register_server(
    admin_account: &AdminAccount,
    registry: &mut Registry,
    ctx: &RegisterServer,
    server_id: String,
    now: i64,
) -> (res: Result<(ServerRegistered, GracePeriodStarted), ErrorCode>)
    requires
        now + GRACE_PERIOD <= i64::MAX,
    ensures
        ({
            let before = State { ledger: *admin_account, records: old(registry)@ };
            let after = State { ledger: *admin_account, records: final(registry)@ };
            let op = Operation::Register {
                id: server_id@,
                owner: ctx.owner,
                caller: ctx.authority,
                now,
            };
            &&& after == step(before, op)
            &&& match rejection(before, op) {
                Some(e) => res == Err::<(ServerRegistered, GracePeriodStarted), ErrorCode>(e),
                None => {
                    &&& res matches Ok(events)
                    &&& events.0.server_id@ == server_id@
                    &&& events.0.wallet_address == ctx.owner
                    &&& events.1.server_id@ == server_id@
                    &&& events.1.end_timestamp == now + GRACE_PERIOD
                },
            }
        }),
{
    if admin_account.paused {
        return Err(ErrorCode::ProgramPaused);
    }
    if ctx.authority != admin_account.authority {
        return Err(ErrorCode::Unauthorized);
    }
    if server_id.as_str().unicode_len() > MAX_SERVER_ID_LEN {
        return Err(ErrorCode::ServerIdTooLong);
    }
    if registry.contains(server_id.as_str()) {
        return Err(ErrorCode::DuplicateServerId);
    }
    let grace_period_end: i64 = now + GRACE_PERIOD;
    let registered = ServerRegistered { server_id: server_id.clone(), wallet_address: ctx.owner };
    let grace = GracePeriodStarted { server_id: server_id.clone(), end_timestamp: grace_period_end };
    let server = Server {
        id: server_id,
        owner: ctx.owner,
        active: true,
        registered_at: now,
        pending_rewards: 0,
        last_metrics_update: 0,
        grace_period_end,
    };
    registry.append(server);
    Ok((registered, grace))
}

/// The transfer that a deposit requires: `amount`, from the account of the
/// authority into the pool. Nothing changes.
///
/// Only the authority deposits, and only what the pool can still hold: a
/// deposit that would take the pool beyond the range of its balance is
/// rejected before any transfer is asked for.
pub fn deposit_transfer(admin_account: &AdminAccount, ctx: &DepositRewards, amount: u64) -> (res:
    Result<Transfer, ErrorCode>)
    ensures
        match deposit_rejection(*admin_account, ctx.authority, amount) {
            Some(e) => res == Err::<Transfer, ErrorCode>(e),
            None => res == Ok::<Transfer, ErrorCode>(funding(ctx.authority, amount)),
        },
{
    if admin_account.paused {
        return Err(ErrorCode::ProgramPaused);
    }
    if ctx.authority != admin_account.authority {
        return Err(ErrorCode::Unauthorized);
    }
    if admin_account.reward_pool.checked_add(amount).is_none() {
        return Err(ErrorCode::NumericOverflow);
    }
    Ok(Transfer { from: Party::Wallet(ctx.authority), to: Party::Pool, amount })
}

/// Settles a deposit, given the outcome of the transfer that
/// `deposit_transfer` named.
///
/// A deposit that `deposit_transfer` rejects is rejected here with the same
/// error, whatever `transfer` says. Otherwise a failed transfer rejects the
/// deposit, and a successful one adds `amount` to the pool.
pub fn deposit_rewards(
    admin_account: &mut AdminAccount,
    ctx: &DepositRewards,
    amount: u64,
    transfer: Result<(), TransferError>,
) -> (res: Result<RewardsDeposited, ErrorCode>)
    ensures
        match or_failed_transfer(
            deposit_rejection(*old(admin_account), ctx.authority, amount),
            transfer is Ok,
        ) {
            Some(e) => {
                &&& res == Err::<RewardsDeposited, ErrorCode>(e)
                &&& *final(admin_account) == *old(admin_account)
            },
            None => {
                &&& res == Ok::<RewardsDeposited, ErrorCode>(
                    RewardsDeposited { amount, new_balance: final(admin_account).reward_pool },
                )
                &&& *final(admin_account) == ledger_after_deposit(*old(admin_account), amount)
            },
        },
{
    if admin_account.paused {
        return Err(ErrorCode::ProgramPaused);
    }
    if ctx.authority != admin_account.authority {
        return Err(ErrorCode::Unauthorized);
    }
    let new_balance = match admin_account.reward_pool.checked_add(amount) {
        Some(new_balance) => new_balance,
        None => {
            return Err(ErrorCode::NumericOverflow);
        },
    };
    if transfer.is_err() {
        return Err(ErrorCode::TransferError);
    }
    admin_account.reward_pool = new_balance;
    Ok(RewardsDeposited { amount, new_balance })
}

/// Forfeits the pending rewards of a server that has had no metrics update
/// for 365 days.
///
/// Only the authority reclaims. What was pending is discarded: it goes
/// neither to the pool nor anywhere else.
pub fn reclaim_stale_rewards(
    admin_account: &AdminAccount,
    registry: &mut Registry,
    ctx: &ReclaimRewards,
    now: i64,
) -> (res: Result<RewardsReclaimed, ErrorCode>)
    ensures
        ({
            let before = State { ledger: *admin_account, records: old(registry)@ };
            let after = State { ledger: *admin_account, records: final(registry)@ };
            let op = Operation::ReclaimStale { id: ctx.server@, caller: ctx.authority, now };
            &&& after == step(before, op)
            &&& match rejection(before, op) {
                Some(e) => res == Err::<RewardsReclaimed, ErrorCode>(e),
                None => {
                    &&& res matches Ok(event)
                    &&& event.server_id@ == ctx.server@
                    &&& event.amount == record_of(before.records, ctx.server@).pending_rewards
                },
            }
        }),
{
    if admin_account.paused {
        return Err(ErrorCode::ProgramPaused);
    }
    if ctx.authority != admin_account.authority {
        return Err(ErrorCode::Unauthorized);
    }
    let i = match registry.position(ctx.server.as_str()) {
        Some(i) => i,
        None => {
            return Err(ErrorCode::NotFound);
        },
    };
    let server = registry.at(i);
    if !elapsed_at_least(server.last_metrics_update, now, STALE_AFTER) {
        return Err(ErrorCode::RewardsNotStale);
    }
    let reclaimed_amount = server.pending_rewards;
    let event = RewardsReclaimed { server_id: server.id.clone(), amount: reclaimed_amount };
    let emptied = amended(server, server.owner, server.active, 0, server.last_metrics_update);
    registry.replace(i, emptied);
    Ok(event)
}

/// Credits `points` to the pending rewards of a server and records `now` as
/// the time of its last metrics update.
///
/// Only the authority submits metrics. The uptime is a percentage; it and the
/// number of completed tasks are telemetry and change nothing. The server
/// need not be active. A sum beyond the range of the balance rejects the
/// submission.
pub fn submit_metrics(
    admin_account: &AdminAccount,
    registry: &mut Registry,
    ctx: &SubmitMetrics,
    uptime: u8,
    tasks_completed: u64,
    points: u64,
    now: i64,
) -> (res: Result<MetricsUpdated, ErrorCode>)
    ensures
        ({
            let before = State { ledger: *admin_account, records: old(registry)@ };
            let after = State { ledger: *admin_account, records: final(registry)@ };
            let op = Operation::SubmitMetrics {
                id: ctx.server@,
                caller: ctx.authority,
                uptime,
                points,
                now,
            };
            &&& after == step(before, op)
            &&& match rejection(before, op) {
                Some(e) => res == Err::<MetricsUpdated, ErrorCode>(e),
                None => {
                    &&& res matches Ok(event)
                    &&& event.server_id@ == ctx.server@
                    &&& event.points == points
                },
            }
        }),
{
    if admin_account.paused {
        return Err(ErrorCode::ProgramPaused);
    }
    if ctx.authority != admin_account.authority {
        return Err(ErrorCode::Unauthorized);
    }
    if uptime > MAX_UPTIME {
        return Err(ErrorCode::InvalidUptime);
    }
    let i = match registry.position(ctx.server.as_str()) {
        Some(i) => i,
        None => {
            return Err(ErrorCode::NotFound);
        },
    };
    let server = registry.at(i);
    let pending_rewards = match server.pending_rewards.checked_add(points) {
        Some(pending_rewards) => pending_rewards,
        None => {
            return Err(ErrorCode::NumericOverflow);
        },
    };
    let event = MetricsUpdated { server_id: server.id.clone(), points };
    let credited = amended(server, server.owner, server.active, pending_rewards, now);
    registry.replace(i, credited);
    Ok(event)
}

/// Passes an active server to `ctx.new_owner`.
///
/// Only the authority reassigns, and only a server that has not been
/// deactivated.
pub fn reassign_server(
    admin_account: &AdminAccount,
    registry: &mut Registry,
    ctx: &ReassignServer,
) -> (res: Result<ServerReassigned, ErrorCode>)
    ensures
        ({
            let before = State { ledger: *admin_account, records: old(registry)@ };
            let after = State { ledger: *admin_account, records: final(registry)@ };
            let op = Operation::Reassign {
                id: ctx.server@,
                new_owner: ctx.new_owner,
                caller: ctx.authority,
            };
            &&& after == step(before, op)
            &&& match rejection(before, op) {
                Some(e) => res == Err::<ServerReassigned, ErrorCode>(e),
                None => {
                    &&& res matches Ok(event)
                    &&& event.server_id@ == ctx.server@
                    &&& event.old_owner == record_of(before.records, ctx.server@).owner
                    &&& event.new_owner == ctx.new_owner
                },
            }
        }),
{
    if admin_account.paused {
        return Err(ErrorCode::ProgramPaused);
    }
    if ctx.authority != admin_account.authority {
        return Err(ErrorCode::Unauthorized);
    }
    let i = match registry.position(ctx.server.as_str()) {
        Some(i) => i,
        None => {
            return Err(ErrorCode::NotFound);
        },
    };
    let server = registry.at(i);
    if !server.active {
        return Err(ErrorCode::ServerNotActive);
    }
    let event = ServerReassigned {
        server_id: server.id.clone(),
        old_owner: server.owner,
        new_owner: ctx.new_owner,
    };
    let reassigned = amended(
        server,
        ctx.new_owner,
        server.active,
        server.pending_rewards,
        server.last_metrics_update,
    );
    registry.replace(i, reassigned);
    Ok(event)
}

/// Deactivates a server. Its record stays in the registry.
///
/// Only the authority deactivates. Deactivating a server that is already
/// inactive is accepted and changes nothing.
pub fn deactivate_server(
    admin_account: &AdminAccount,
    registry: &mut Registry,
    ctx: &DeactivateServer,
) -> (res: Result<ServerDeregistered, ErrorCode>)
    ensures
        ({
            let before = State { ledger: *admin_account, records: old(registry)@ };
            let after = State { ledger: *admin_account, records: final(registry)@ };
            let op = Operation::Deactivate { id: ctx.server@, caller: ctx.authority };
            &&& after == step(before, op)
            &&& match rejection(before, op) {
                Some(e) => res == Err::<ServerDeregistered, ErrorCode>(e),
                None => res matches Ok(event) && event.server_id@ == ctx.server@,
            }
        }),
{
    if admin_account.paused {
        return Err(ErrorCode::ProgramPaused);
    }
    if ctx.authority != admin_account.authority {
        return Err(ErrorCode::Unauthorized);
    }
    let i = match registry.position(ctx.server.as_str()) {
        Some(i) => i,
        None => {
            return Err(ErrorCode::NotFound);
        },
    };
    let server = registry.at(i);
    let event = ServerDeregistered { server_id: server.id.clone() };
    let deactivated = amended(
        server,
        server.owner,
        false,
        server.pending_rewards,
        server.last_metrics_update,
    );
    registry.replace(i, deactivated);
    Ok(event)
}

} // verus!
