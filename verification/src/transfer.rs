//! The movement of value that an operation asks for.
//!
//! The library never moves value itself. An operation that pays out of the
//! pool, or into it, first names the transfer that has to take place; its
//! caller performs it and reports how it ended.

use vstd::prelude::*;
use crate::identity::Pubkey;

verus! {

/// One end of a transfer.
#[derive(Clone, Copy, Debug, PartialEq, Eq)]
pub enum Party {
    /// The shared reward pool.
    Pool,
    /// The account of an identity.
    Wallet(Pubkey),
}

/// A movement of `amount` units from one party to another.
#[derive(Clone, Copy, Debug, PartialEq, Eq)]
pub struct Transfer {
    pub from: Party,
    pub to: Party,
    pub amount: u64,
}

/// The transfer that pays `amount` out of the pool to `payee`.
pub open spec fn payout(payee: Pubkey, amount: u64) -> Transfer {
    Transfer { from: Party::Pool, to: Party::Wallet(payee), amount }
}

/// The transfer that pays `amount` from the account of `payer` into the pool.
pub open spec fn funding(payer: Pubkey, amount: u64) -> Transfer {
    Transfer { from: Party::Wallet(payer), to: Party::Pool, amount }
}

/// The failure of a transfer. A failed transfer has moved nothing.
#[derive(Clone, Copy, Debug, PartialEq, Eq)]
pub struct TransferError {}

} // verus!
