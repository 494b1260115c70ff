//! What holds of the ledger whatever is asked of it.
//!
//! The laws below are proved of every state and every operation, over the
//! step that the rules define and that the operations of the library take.

use vstd::prelude::*;
use crate::error::ErrorCode;
use crate::identity::Pubkey;
use crate::registry::{
    has_id, index_of, lemma_has_id, lemma_index_of, lemma_push_keeps_ids,
    lemma_total_pending_push, lemma_total_pending_update, lemma_update_keeps_ids, record_of,
    total_pending, well_formed,
};
use crate::rules::{
    credited, deactivated, emptied, metrics_rejection, reassigned, records_after_deactivate,
    records_after_emptying, records_after_metrics, rejection, step, Operation, State,
};
use crate::state::{fresh_record, valid_record, AdminAccount, ServerView, GRACE_PERIOD};

verus! {

/// What the books hold: the pool and all that is pending, together.
pub open spec fn books(s: State) -> int {
    s.ledger.reward_pool + total_pending(s.records)
}

/// What the pool holds beyond all that is pending. It is negative while more
/// is pending than the pool could pay.
pub open spec fn surplus(s: State) -> int {
    s.ledger.reward_pool - total_pending(s.records)
}

/// A well-formed registry stays well formed: after every operation no two
/// records share an identifier, no identifier is too long, and every grace
/// period ends seven days after its registration.
pub proof fn law_well_formed_is_kept(s: State, op: Operation)
    requires
        well_formed(s.records),
        op matches Operation::Register { now, .. } ==> now + GRACE_PERIOD <= i64::MAX,
    ensures
        well_formed(step(s, op).records),
{
    if rejection(s, op) is None {
        match op {
            Operation::Register { id, owner, caller, now } => {
                lemma_push_keeps_ids(s.records, fresh_record(id, owner, now));
            },
            Operation::SubmitMetrics { id, caller, uptime, points, now } => {
                lemma_has_id(s.records, id);
                let r = record_of(s.records, id);
                lemma_update_keeps_ids(s.records, index_of(s.records, id), credited(r, points, now));
            },
            Operation::Claim { id, .. } => {
                lemma_has_id(s.records, id);
                let r = record_of(s.records, id);
                lemma_update_keeps_ids(s.records, index_of(s.records, id), emptied(r));
            },
            Operation::Deposit { .. } => {},
            Operation::ReclaimStale { id, .. } => {
                lemma_has_id(s.records, id);
                let r = record_of(s.records, id);
                lemma_update_keeps_ids(s.records, index_of(s.records, id), emptied(r));
            },
            Operation::Deactivate { id, .. } => {
                lemma_has_id(s.records, id);
                let r = record_of(s.records, id);
                lemma_update_keeps_ids(s.records, index_of(s.records, id), deactivated(r));
            },
            Operation::Reassign { id, new_owner, .. } => {
                lemma_has_id(s.records, id);
                let r = record_of(s.records, id);
                lemma_update_keeps_ids(
                    s.records,
                    index_of(s.records, id),
                    reassigned(r, new_owner),
                );
            },
        }
    }
}

/// An accepted metrics submission adds exactly `points` to what is pending
/// for the server, records the time, and touches nothing else. Where the sum
/// would leave the range of the balance, the submission is rejected with
/// `NumericOverflow` instead of wrapping.
pub proof fn law_accrual_is_exact(
    admin: AdminAccount,
    records: Seq<ServerView>,
    id: Seq<char>,
    caller: Pubkey,
    uptime: u8,
    points: u64,
    now: i64,
)
    requires
        well_formed(records),
    ensures
        metrics_rejection(admin, records, id, caller, uptime, points) is None ==> {
            let after = records_after_metrics(records, id, points, now);
            &&& has_id(after, id)
            &&& record_of(after, id).pending_rewards == record_of(records, id).pending_rewards
                + points
            &&& record_of(after, id) == credited(record_of(records, id), points, now)
            &&& after.len() == records.len()
            &&& forall|i: int|
                0 <= i < records.len() && i != index_of(records, id) ==> after[i] == records[i]
        },
        !admin.paused && caller == admin.authority && uptime <= 100 && has_id(records, id)
            && record_of(records, id).pending_rewards + points > u64::MAX ==> metrics_rejection(
            admin,
            records,
            id,
            caller,
            uptime,
            points,
        ) == Some(ErrorCode::NumericOverflow),
{
    if metrics_rejection(admin, records, id, caller, uptime, points) is None {
        lemma_has_id(records, id);
        let i = index_of(records, id);
        lemma_update_keeps_ids(records, i, credited(record_of(records, id), points, now));
        let after = records_after_metrics(records, id, points, now);
        lemma_index_of(after, i);
    }
}

/// An accepted claim leaves nothing pending for the server and takes from the
/// pool exactly what was pending before.
pub proof fn law_claim_pays_what_was_pending(s: State, id: Seq<char>, caller: Pubkey, now: i64)
    requires
        well_formed(s.records),
        rejection(s, Operation::Claim { id, caller, now, transferred: true }) is None,
    ensures
        ({
            let after = step(s, Operation::Claim { id, caller, now, transferred: true });
            let paid = record_of(s.records, id).pending_rewards;
            &&& has_id(after.records, id)
            &&& record_of(after.records, id).pending_rewards == 0
            &&& after.ledger.reward_pool == s.ledger.reward_pool - paid
            &&& paid <= s.ledger.reward_pool
        }),
{
    lemma_has_id(s.records, id);
    let i = index_of(s.records, id);
    lemma_update_keeps_ids(s.records, i, emptied(record_of(s.records, id)));
    lemma_index_of(records_after_emptying(s.records, id), i);
}

/// How each operation moves the books.
///
/// A rejected operation moves nothing. A registration, a deactivation and a
/// reassignment leave the books as they are. A metrics submission raises them
/// by the points, a deposit by the amount. A reclaim lowers them by what is
/// forfeited. A claim takes what it pays both from the pool and from what is
/// pending: it lowers the books by twice the payout and leaves the surplus of
/// the pool over what is pending as it was.
pub proof fn law_books_move_by_the_rules(s: State, op: Operation)
    ensures
        rejection(s, op) is Some ==> step(s, op) == s,
        rejection(s, op) is None ==> match op {
            Operation::Register { .. } => books(step(s, op)) == books(s),
            Operation::SubmitMetrics { points, .. } => books(step(s, op)) == books(s) + points,
            Operation::Claim { id, .. } => {
                &&& books(step(s, op)) == books(s) - 2 * record_of(s.records, id).pending_rewards
                &&& surplus(step(s, op)) == surplus(s)
            },
            Operation::Deposit { amount, .. } => books(step(s, op)) == books(s) + amount,
            Operation::ReclaimStale { id, .. } => books(step(s, op)) == books(s) - record_of(
                s.records,
                id,
            ).pending_rewards,
            Operation::Deactivate { .. } => books(step(s, op)) == books(s),
            Operation::Reassign { .. } => books(step(s, op)) == books(s),
        },
{
    if rejection(s, op) is None {
        match op {
            Operation::Register { id, owner, caller, now } => {
                lemma_total_pending_push(s.records, fresh_record(id, owner, now));
            },
            Operation::SubmitMetrics { id, caller, uptime, points, now } => {
                lemma_has_id(s.records, id);
                let r = record_of(s.records, id);
                lemma_total_pending_update(s.records, index_of(s.records, id), credited(r, points, now));
            },
            Operation::Claim { id, .. } => {
                lemma_has_id(s.records, id);
                let r = record_of(s.records, id);
                lemma_total_pending_update(s.records, index_of(s.records, id), emptied(r));
            },
            Operation::Deposit { .. } => {},
            Operation::ReclaimStale { id, .. } => {
                lemma_has_id(s.records, id);
                let r = record_of(s.records, id);
                lemma_total_pending_update(s.records, index_of(s.records, id), emptied(r));
            },
            Operation::Deactivate { id, .. } => {
                lemma_has_id(s.records, id);
                let r = record_of(s.records, id);
                lemma_total_pending_update(s.records, index_of(s.records, id), deactivated(r));
            },
            Operation::Reassign { id, new_owner, .. } => {
                lemma_has_id(s.records, id);
                let r = record_of(s.records, id);
                lemma_total_pending_update(
                    s.records,
                    index_of(s.records, id),
                    reassigned(r, new_owner),
                );
            },
        }
    }
}

/// The books rise only by a deposit or a metrics submission, and fall only by
/// a claim or a reclaim.
pub proof fn law_books_rise_and_fall(s: State, op: Operation)
    ensures
        books(step(s, op)) > books(s) ==> op is Deposit || op is SubmitMetrics,
        books(step(s, op)) < books(s) ==> op is Claim || op is ReclaimStale,
{
    law_books_move_by_the_rules(s, op);
}

/// A claim that pays nothing leaves the books as they are.
pub proof fn law_empty_claim_keeps_books(s: State, id: Seq<char>, caller: Pubkey, now: i64)
    requires
        rejection(s, Operation::Claim { id, caller, now, transferred: true }) is None,
        record_of(s.records, id).pending_rewards == 0,
    ensures
        books(step(s, Operation::Claim { id, caller, now, transferred: true })) == books(s),
{
    law_books_move_by_the_rules(s, Operation::Claim { id, caller, now, transferred: true });
}

/// A claim by the owner of a server, on a ledger that is not paused, is
/// rejected with `ClaimCooldownActive` as long as fewer than seven days have
/// passed since the last metrics update, and then changes nothing. From
/// exactly seven days on it is accepted, provided the pool can pay and the
/// transfer succeeds.
pub proof fn law_claim_cooldown(s: State, id: Seq<char>, caller: Pubkey, now: i64, transferred: bool)
    requires
        !s.ledger.paused,
        has_id(s.records, id),
        caller == record_of(s.records, id).owner,
    ensures
        now - record_of(s.records, id).last_metrics_update < 7 * 24 * 60 * 60 ==> {
            &&& rejection(s, Operation::Claim { id, caller, now, transferred }) == Some(
                ErrorCode::ClaimCooldownActive,
            )
            &&& step(s, Operation::Claim { id, caller, now, transferred }) == s
        },
        now - record_of(s.records, id).last_metrics_update >= 7 * 24 * 60 * 60 && record_of(
            s.records,
            id,
        ).pending_rewards <= s.ledger.reward_pool && transferred ==> rejection(
            s,
            Operation::Claim { id, caller, now, transferred },
        ) is None,
{
}

/// A reclaim by the authority, on a ledger that is not paused, is rejected
/// with `RewardsNotStale` as long as fewer than 365 days have passed since
/// the last metrics update. From exactly 365 days on it is accepted and
/// leaves nothing pending for the server.
pub proof fn law_reclaim_staleness(s: State, id: Seq<char>, caller: Pubkey, now: i64)
    requires
        well_formed(s.records),
        !s.ledger.paused,
        caller == s.ledger.authority,
        has_id(s.records, id),
    ensures
        now - record_of(s.records, id).last_metrics_update < 365 * 24 * 60 * 60 ==> {
            &&& rejection(s, Operation::ReclaimStale { id, caller, now }) == Some(
                ErrorCode::RewardsNotStale,
            )
            &&& step(s, Operation::ReclaimStale { id, caller, now }) == s
        },
        now - record_of(s.records, id).last_metrics_update >= 365 * 24 * 60 * 60 ==> {
            let after = step(s, Operation::ReclaimStale { id, caller, now });
            &&& rejection(s, Operation::ReclaimStale { id, caller, now }) is None
            &&& has_id(after.records, id)
            &&& record_of(after.records, id).pending_rewards == 0
            &&& after.ledger == s.ledger
        },
{
    lemma_has_id(s.records, id);
    let i = index_of(s.records, id);
    lemma_update_keeps_ids(s.records, i, emptied(record_of(s.records, id)));
    lemma_index_of(records_after_emptying(s.records, id), i);
}

/// Once a server is registered, every further registration under its
/// identifier is rejected with `DuplicateServerId`, whoever is to own the
/// server and whenever it is asked, and the record of the first registration
/// stays as it is.
pub proof fn law_second_registration_is_rejected(
    s: State,
    id: Seq<char>,
    owner: Pubkey,
    caller: Pubkey,
    now: i64,
    second_owner: Pubkey,
    second_now: i64,
)
    requires
        well_formed(s.records),
        now + GRACE_PERIOD <= i64::MAX,
        rejection(s, Operation::Register { id, owner, caller, now }) is None,
    ensures
        ({
            let first = step(s, Operation::Register { id, owner, caller, now });
            let again = Operation::Register { id, owner: second_owner, caller, now: second_now };
            &&& has_id(first.records, id)
            &&& record_of(first.records, id) == fresh_record(id, owner, now)
            &&& rejection(first, again) == Some(ErrorCode::DuplicateServerId)
            &&& step(first, again) == first
        }),
{
    lemma_push_keeps_ids(s.records, fresh_record(id, owner, now));
}

/// While the ledger is paused, every operation is rejected with
/// `ProgramPaused` and changes nothing, whatever else holds of it.
pub proof fn law_paused_rejects_everything(s: State, op: Operation)
    requires
        s.ledger.paused,
    ensures
        rejection(s, op) == Some(ErrorCode::ProgramPaused),
        step(s, op) == s,
{
}

/// Deactivating twice is the same as deactivating once: after an accepted
/// deactivation the server is inactive, and a second deactivation is accepted
/// too and leaves the state as the first left it.
pub proof fn law_deactivate_is_idempotent(s: State, id: Seq<char>, caller: Pubkey)
    requires
        well_formed(s.records),
        rejection(s, Operation::Deactivate { id, caller }) is None,
    ensures
        ({
            let once = step(s, Operation::Deactivate { id, caller });
            &&& has_id(once.records, id)
            &&& !record_of(once.records, id).active
            &&& rejection(once, Operation::Deactivate { id, caller }) is None
            &&& step(once, Operation::Deactivate { id, caller }) == once
        }),
{
    lemma_has_id(s.records, id);
    let i = index_of(s.records, id);
    let r = record_of(s.records, id);
    lemma_update_keeps_ids(s.records, i, deactivated(r));
    let once = records_after_deactivate(s.records, id);
    lemma_index_of(once, i);
    assert(records_after_deactivate(once, id) =~= once);
}

/// A deactivated server cannot be reassigned: after an accepted deactivation
/// every reassignment of the server is rejected with `ServerNotActive`.
pub proof fn law_inactive_server_keeps_its_owner(
    s: State,
    id: Seq<char>,
    caller: Pubkey,
    new_owner: Pubkey,
)
    requires
        well_formed(s.records),
        rejection(s, Operation::Deactivate { id, caller }) is None,
    ensures
        ({
            let once = step(s, Operation::Deactivate { id, caller });
            rejection(once, Operation::Reassign { id, new_owner, caller }) == Some(
                ErrorCode::ServerNotActive,
            )
        }),
{
    lemma_has_id(s.records, id);
    let i = index_of(s.records, id);
    lemma_update_keeps_ids(s.records, i, deactivated(record_of(s.records, id)));
    lemma_index_of(records_after_deactivate(s.records, id), i);
}

/// No operation removes a record, renames it, or changes when it was
/// registered or when its grace period ends. No operation makes an inactive
/// server active again. What is pending for a server rises only by a metrics
/// submission and falls only to zero, by a claim or a reclaim.
pub proof fn law_records_persist(s: State, op: Operation, id: Seq<char>)
    requires
        well_formed(s.records),
        has_id(s.records, id),
    ensures
        ({
            let before = record_of(s.records, id);
            let after = record_of(step(s, op).records, id);
            &&& has_id(step(s, op).records, id)
            &&& after.id == id
            &&& after.registered_at == before.registered_at
            &&& after.grace_period_end == before.grace_period_end
            &&& after.active ==> before.active
            &&& after.pending_rewards > before.pending_rewards ==> op is SubmitMetrics
            &&& after.pending_rewards < before.pending_rewards ==> after.pending_rewards == 0 && (op
                is Claim || op is ReclaimStale)
        }),
{
    lemma_has_id(s.records, id);
    let k = index_of(s.records, id);
    if rejection(s, op) is None {
        match op {
            Operation::Register { id: new_id, owner, caller, now } => {
                let r = fresh_record(new_id, owner, now);
                assert(!has_id(s.records, new_id));
                let pushed = s.records.push(r);
                assert(pushed[k] == s.records[k]);
                let j = index_of(pushed, id);
                assert(has_id(pushed, id));
                assert(pushed[j].id == id);
                if j == s.records.len() {
                    assert(r.id == id);
                    assert(false);
                } else {
                    assert(s.records[j].id == id);
                    lemma_index_of(s.records, j);
                }
            },
            Operation::SubmitMetrics { id: target, caller, uptime, points, now } => {
                law_update_is_local(s.records, target, credited(record_of(s.records, target), points, now), id);
            },
            Operation::Claim { id: target, .. } => {
                law_update_is_local(s.records, target, emptied(record_of(s.records, target)), id);
            },
            Operation::Deposit { .. } => {},
            Operation::ReclaimStale { id: target, .. } => {
                law_update_is_local(s.records, target, emptied(record_of(s.records, target)), id);
            },
            Operation::Deactivate { id: target, .. } => {
                law_update_is_local(s.records, target, deactivated(record_of(s.records, target)), id);
            },
            Operation::Reassign { id: target, new_owner, .. } => {
                law_update_is_local(
                    s.records,
                    target,
                    reassigned(record_of(s.records, target), new_owner),
                    id,
                );
            },
        }
    }
}

/// Replacing the record of one server by a record with the same identifier
/// leaves the records of all other servers as they were.
pub proof fn law_update_is_local(
    records: Seq<ServerView>,
    target: Seq<char>,
    r: ServerView,
    id: Seq<char>,
)
    requires
        well_formed(records),
        has_id(records, target),
        has_id(records, id),
        r.id == target,
        valid_record(r),
    ensures
        ({
            let after = records.update(index_of(records, target), r);
            &&& has_id(after, id)
            &&& record_of(after, id) == if id == target {
                r
            } else {
                record_of(records, id)
            }
        }),
{
    lemma_has_id(records, target);
    lemma_has_id(records, id);
    let i = index_of(records, target);
    let k = index_of(records, id);
    lemma_update_keeps_ids(records, i, r);
    let after = records.update(i, r);
    lemma_index_of(after, k);
    lemma_index_of(records, i);
    lemma_index_of(records, k);
}

} // verus!
