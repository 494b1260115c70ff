//! A registry of independently operated compute servers and the reward pool
//! that pays them.
//!
//! An authority funds the pool, registers servers and reports their metrics;
//! the owner of a server claims what has accrued to it. Every operation is
//! either accepted as a whole or rejected without a trace.

pub mod accounts;
pub mod error;
pub mod events;
pub mod identity;
pub mod instructions;
pub mod laws;
pub mod registry;
pub mod rules;
pub mod state;
pub mod transfer;

pub use accounts::{
    ClaimRewards, DeactivateServer, DepositRewards, Initialize, ReassignServer, ReclaimRewards,
    RegisterServer, SubmitMetrics,
};
pub use error::ErrorCode;
pub use events::{
    GracePeriodStarted, MetricsUpdated, RewardsClaimed, RewardsDeposited, RewardsReclaimed,
    ServerDeregistered, ServerReassigned, ServerRegistered,
};
pub use identity::Pubkey;
pub use instructions::{
    claim_rewards, claim_transfer, deactivate_server, deposit_rewards, deposit_transfer,
    initialize, reassign_server, reclaim_stale_rewards, register_server, submit_metrics,
};
pub use registry::Registry;
pub use state::{
    AdminAccount, Server, CLAIM_COOLDOWN, GRACE_PERIOD, MAX_SERVER_ID_LEN, MAX_UPTIME, STALE_AFTER,
};
pub use transfer::{Party, Transfer, TransferError};
