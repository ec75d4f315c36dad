//! The schedule calculator: chronology validation and the installment count.
//!
//! Two rules that the rest of the engine builds on are fixed here:
//!
//! * Chronology. A one-shot schedule (`recurrence_interval == 0`) is
//!   chronological exactly when `completed_at == next_transfer_at`. A
//!   recurring schedule is chronological exactly when at least one full
//!   interval fits before the end, non-strictly:
//!   `next_transfer_at + recurrence_interval <= completed_at`. An interval
//!   exactly equal to the remaining span is accepted.
//!
//! * Rounding. The installment count of a recurring schedule is the span
//!   `completed_at - next_transfer_at` divided by the interval, rounded
//!   up: a partial final interval still takes one full installment. The
//!   fee reserve and the spending allowance are sized from this count, so
//!   they cover every call the schedule can ever need.

use vstd::prelude::*;

verus! {

use vstd::arithmetic::div_mod::{
    lemma_div_by_self, lemma_div_is_ordered, lemma_div_is_strictly_smaller,
    lemma_fundamental_div_mod, lemma_fundamental_div_mod_converse_div,
    lemma_mod_division_less_than_divisor,
};
use vstd::arithmetic::mul::lemma_mul_is_distributive_add_other_way;

/// Whether the given schedule parameters are chronological.
pub open spec fn chronology_ok(
    recurrence_interval: u64,
    next_transfer_at: u64,
    completed_at: u64,
) -> bool {
    if recurrence_interval == 0 {
        completed_at == next_transfer_at
    } else {
        next_transfer_at + recurrence_interval <= completed_at
    }
}

/// The number of installments the schedule prescribes: one for a one-shot
/// schedule, else the span divided by the interval, rounded up.
///
/// Meaningful under `chronology_ok`, where it is at least 1.
pub open spec fn spec_num_installments(
    recurrence_interval: u64,
    next_transfer_at: u64,
    completed_at: u64,
) -> int {
    if recurrence_interval == 0 {
        1
    } else {
        let span = completed_at - next_transfer_at;
        if span % (recurrence_interval as int) == 0 {
            span / (recurrence_interval as int)
        } else {
            span / (recurrence_interval as int) + 1
        }
    }
}

/// For a recurring schedule the installment count is exactly the span
/// divided by the interval, rounded up:
/// `(span + interval - 1) / interval`.
pub proof fn lemma_num_installments_rounds_up(
    recurrence_interval: u64,
    next_transfer_at: u64,
    completed_at: u64,
)
    requires
        recurrence_interval > 0,
    ensures
        spec_num_installments(recurrence_interval, next_transfer_at, completed_at)
            == (completed_at - next_transfer_at + recurrence_interval - 1)
                / (recurrence_interval as int),
{
    let ri = recurrence_interval as int;
    let span = completed_at - next_transfer_at;
    let q = span / ri;
    let r = span % ri;
    lemma_fundamental_div_mod(span, ri);
    lemma_mod_division_less_than_divisor(span, ri);
    if r == 0 {
        lemma_fundamental_div_mod_converse_div(span + ri - 1, ri, q, ri - 1);
    } else {
        lemma_mul_is_distributive_add_other_way(ri, q, 1);
        lemma_fundamental_div_mod_converse_div(span + ri - 1, ri, q + 1, r - 1);
    }
}

/// Validates the chronology of a schedule, as `chronology_ok` states it.
pub fn validate_chronology(
    recurrence_interval: u64,
    next_transfer_at: u64,
    completed_at: u64,
) -> (ok: bool)
    ensures
        ok == chronology_ok(recurrence_interval, next_transfer_at, completed_at),
{
    if recurrence_interval == 0 {
        completed_at == next_transfer_at
    } else {
        recurrence_interval <= completed_at && next_transfer_at <= completed_at - recurrence_interval
    }
}

/// Computes the installment count of a chronological schedule.
pub fn num_installments(
    recurrence_interval: u64,
    next_transfer_at: u64,
    completed_at: u64,
) -> (n: u64)
    requires
        chronology_ok(recurrence_interval, next_transfer_at, completed_at),
    ensures
        n == spec_num_installments(recurrence_interval, next_transfer_at, completed_at),
        n >= 1,
{
    if recurrence_interval == 0 {
        1
    } else {
        let span = completed_at - next_transfer_at;
        let whole = span / recurrence_interval;
        proof {
            lemma_div_by_self(recurrence_interval as int);
            lemma_div_is_ordered(
                recurrence_interval as int,
                span as int,
                recurrence_interval as int,
            );
        }
        if span % recurrence_interval == 0 {
            whole
        } else {
            proof {
                lemma_mod_division_less_than_divisor(span as int, recurrence_interval as int);
                lemma_div_is_strictly_smaller(span as int, recurrence_interval as int);
            }
            whole + 1
        }
    }
}

} // verus!
