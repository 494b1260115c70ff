//! The persisted state: the ledger and the record of one server.

use vstd::prelude::*;
use crate::identity::Pubkey;

verus! {

/// Seconds for which the grace period of a new server runs.
pub const GRACE_PERIOD: i64 = 7 * 24 * 60 * 60;

/// Seconds that must have passed since the last metrics update before a claim.
pub const CLAIM_COOLDOWN: i64 = 7 * 24 * 60 * 60;

/// Seconds without a metrics update after which pending rewards are stale.
pub const STALE_AFTER: i64 = 365 * 24 * 60 * 60;

/// The greatest number of characters in a server identifier.
pub const MAX_SERVER_ID_LEN: usize = 32;

/// The greatest uptime percentage that can be reported.
pub const MAX_UPTIME: u8 = 100;

/// The ledger: who administers it, what the reward pool holds, and whether
/// operations are halted.
#[derive(Clone, Copy, Debug, PartialEq, Eq)]
pub struct AdminAccount {
    pub authority: Pubkey,
    pub reward_pool: u64,
    pub paused: bool,
}

/// The record of one registered server.
#[derive(Clone, Debug, PartialEq, Eq)]
pub struct Server {
    pub id: String,
    pub owner: Pubkey,
    pub active: bool,
    pub registered_at: i64,
    pub pending_rewards: u64,
    pub last_metrics_update: i64,
    pub grace_period_end: i64,
}

/// What a server record holds, with its identifier as a sequence of
/// characters.
pub struct ServerView {
    pub id: Seq<char>,
    pub owner: Pubkey,
    pub active: bool,
    pub registered_at: i64,
    pub pending_rewards: u64,
    pub last_metrics_update: i64,
    pub grace_period_end: i64,
}

impl View for Server {
    type V = ServerView;

    open spec fn view(&self) -> ServerView {
        ServerView {
            id: self.id@,
            owner: self.owner,
            active: self.active,
            registered_at: self.registered_at,
            pending_rewards: self.pending_rewards,
            last_metrics_update: self.last_metrics_update,
            grace_period_end: self.grace_period_end,
        }
    }
}

/// The record that registration creates: active, with nothing pending, no
/// metrics yet, and a grace period that starts at `now`.
pub open spec fn fresh_record(id: Seq<char>, owner: Pubkey, now: i64) -> ServerView {
    ServerView {
        id,
        owner,
        active: true,
        registered_at: now,
        pending_rewards: 0,
        last_metrics_update: 0,
        grace_period_end: (now + GRACE_PERIOD) as i64,
    }
}

/// What holds of every record in a registry: its identifier is short enough
/// and its grace period ends seven days after its registration.
pub open spec fn valid_record(r: ServerView) -> bool {
    &&& r.id.len() <= MAX_SERVER_ID_LEN
    &&& r.grace_period_end == r.registered_at + GRACE_PERIOD
}

} // verus!
