//! Plain-value models of the ledger entities the engine works on.
//!
//! The ledger runtime owns the real accounts; the engine only ever reads
//! and writes the fields modeled here. Native settlement balances (which
//! pay the fees) are passed around as plain `u64` values.

use vstd::prelude::*;

verus! {

/// An identity on the ledger: a party, an account, a currency, or the
/// engine's own signing authority. Opaque to the engine, which only ever
/// compares identities for equality.
#[derive(Clone, Copy, Debug, PartialEq, Eq, Structural)]
pub struct Pubkey {
    pub id: u64,
}

/// A value-holding account: a balance of one currency, owned by one
/// party, optionally carrying an authorization grant — a delegate
/// identity entitled to move up to `delegated_amount` out of the balance
/// without further owner signatures.
#[derive(Clone, Copy, Debug, PartialEq, Eq)]
pub struct TokenAccount {
    /// The account's own address.
    pub key: Pubkey,
    /// The party that owns the balance.
    pub owner: Pubkey,
    /// The currency the balance is denominated in.
    pub mint: Pubkey,
    /// The balance itself.
    pub amount: u64,
    /// The identity the authorization grant was issued to, if any.
    pub delegate: Option<Pubkey>,
    /// The grant's remaining allowance.
    pub delegated_amount: u64,
}

/// The protocol's fee accumulator account. Its native balance, where the
/// protocol share of every fee lands, is handled by the caller as an
/// explicit value.
#[derive(Clone, Copy, Debug, PartialEq, Eq, Structural)]
pub struct Treasury {
    /// Material proving the account's derived address to the ledger.
    pub bump: u8,
}

/// The shared program-wide delegate identity record, for deployments that
/// grant every payment's allowance to one authority instead of to each
/// payment record's own address.
#[derive(Clone, Copy, Debug, PartialEq, Eq, Structural)]
pub struct ProgramAuthority {
    /// Material proving the account's derived address to the ledger.
    pub bump: u8,
}

/// How one distribution attempt ended.
#[derive(Clone, Copy, Debug, PartialEq, Eq, Structural)]
pub enum TransferStatus {
    /// The authorization check failed; the record was marked failed.
    Failed,
    /// The installment's value moved to the creditor.
    Succeeded,
}

/// An audit record of one distribution attempt.
#[derive(Clone, Copy, Debug, PartialEq, Eq)]
pub struct TransferLog {
    /// The payment record the attempt was made against.
    pub payment: Pubkey,
    /// The executor that triggered the attempt.
    pub distributor: Pubkey,
    /// How the attempt ended.
    pub status: TransferStatus,
    /// The installment amount the attempt tried to move.
    pub amount: u64,
    /// When the attempt was made.
    pub timestamp: u64,
    /// Material proving the log's derived address to the ledger.
    pub bump: u8,
}

/// Opens the treasury record with its address material.
pub fn initialize_treasury(bump: u8) -> (treasury: Treasury)
    ensures
        treasury.bump == bump,
{
    Treasury { bump }
}

} // verus!
