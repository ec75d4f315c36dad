//! Errors surfaced by the two caller-facing operations.

use vstd::prelude::*;

verus! {

/// Why a creation or distribution request was rejected.
///
/// `InvalidChronology` and `InsufficientFeeReserve` are fatal at creation:
/// no record is persisted and no funds move. `NotDue` is a transient
/// precondition failure (the caller may retry once the schedule is due) and
/// `AlreadyTerminal` a caller error; neither changes any state.
#[derive(Clone, Copy, Debug, PartialEq, Eq, Structural)]
pub enum ErrorCode {
    /// The timestamps and recurrence interval are not chronological.
    InvalidChronology,
    /// The debtor cannot afford the upfront fee reserve.
    InsufficientFeeReserve,
    /// The next installment's timestamp has not been reached yet.
    NotDue,
    /// The record is already `Completed` or `Failed`.
    AlreadyTerminal,
}

} // verus!
