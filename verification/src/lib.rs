//! A recurring, permissionlessly executed payment engine.
//!
//! A debtor authorizes a bounded, time-sliced stream of value to a creditor;
//! any third party (an executor) may later trigger each due installment in
//! exchange for a fixed reward. The engine validates chronology and fee
//! affordability at creation, escrows the whole fee reserve upfront,
//! establishes a spending allowance for a delegate identity, and then
//! advances the payment record one installment at a time, paying the fee
//! split on every attempt.
//!
//! The ledger runtime itself (account storage, atomic transfers, signature
//! checks, address derivation) is a collaborator: this crate works on plain
//! modeled values and leaves the runtime bindings to its caller.

pub mod accounts;
pub mod engine;
pub mod errors;
pub mod fees;
pub mod payment;
pub mod schedule;
