//! The payment record: the persistent state machine at the engine's core.
//!
//! A record is `Scheduled` from creation until a terminal transition:
//! `Completed` when the schedule is exhausted, `Failed` when an
//! authorization check or the value transfer itself fails. Both terminal
//! states are final — no further advance is permitted.

use vstd::prelude::*;

verus! {

use crate::accounts::Pubkey;
use crate::fees::{TRANSFER_FEE_DISTRIBUTOR, TRANSFER_FEE_PROGRAM};
use crate::schedule::spec_num_installments;
use vstd::arithmetic::div_mod::{
    lemma_basic_div, lemma_div_by_self, lemma_div_is_ordered, lemma_div_minus_one,
    lemma_mod_self_0, lemma_mod_sub_multiples_vanish, lemma_small_mod,
};
use vstd::arithmetic::mul::lemma_mul_inequality;

/// The lifecycle state of a payment record. `Completed` and `Failed` are
/// terminal.
#[derive(Clone, Copy, Debug, PartialEq, Eq, Structural)]
pub enum PaymentStatus {
    /// Installments remain; the next one executes once it is due.
    Scheduled,
    /// Every installment has executed.
    Completed,
    /// An authorization check or a transfer failed; no further
    /// installment will execute.
    Failed,
}

/// One payment agreement: schedule, parties, status.
#[derive(Clone, Debug, PartialEq, Eq)]
pub struct Payment {
    /// Disambiguates concurrent agreements between the same pair.
    pub idempotency_key: String,
    /// Free-form note.
    pub memo: String,
    /// The paying party.
    pub debtor: Pubkey,
    /// The account value is drawn from.
    pub debtor_tokens: Pubkey,
    /// The receiving party.
    pub creditor: Pubkey,
    /// The account value is deposited to.
    pub creditor_tokens: Pubkey,
    /// The currency being moved.
    pub mint: Pubkey,
    /// Lifecycle state.
    pub status: PaymentStatus,
    /// Value moved per installment.
    pub amount: u64,
    /// Spacing between installments; 0 means one-shot.
    pub recurrence_interval: u64,
    /// Earliest time the next installment may execute.
    pub next_transfer_at: u64,
    /// Timestamp at which the schedule is exhausted.
    pub completed_at: u64,
    /// Immutable creation marker.
    pub created_at: u64,
    /// Material proving the record's derived address to the ledger.
    pub bump: u8,
}

impl Payment {
    /// Well-formedness, established at creation and preserved by every
    /// advance: the next transfer never lies beyond the end of the
    /// schedule, a one-shot record keeps `next_transfer_at` pinned to
    /// `completed_at`, and a scheduled recurring record still has span
    /// left to cover.
    pub open spec fn wf(self) -> bool {
        &&& self.next_transfer_at <= self.completed_at
        &&& (self.recurrence_interval == 0 ==> self.next_transfer_at == self.completed_at)
        &&& (self.status is Scheduled && self.recurrence_interval > 0
            ==> self.next_transfer_at < self.completed_at)
    }

    /// How many installments are still owed: none once terminal, else
    /// what the schedule calculator prescribes for the remaining span.
    pub open spec fn remaining_installments(self) -> int {
        if self.status is Scheduled {
            spec_num_installments(self.recurrence_interval, self.next_transfer_at, self.completed_at)
        } else {
            0
        }
    }
}

/// The record after one successful installment: `next_transfer_at` moves
/// one interval forward, capped at `completed_at`, and reaching the cap
/// completes the record.
pub open spec fn spec_advance_success(p: Payment) -> Payment {
    let bumped = if p.completed_at - p.next_transfer_at <= p.recurrence_interval {
        p.completed_at
    } else {
        (p.next_transfer_at + p.recurrence_interval) as u64
    };
    Payment {
        status: if bumped == p.completed_at {
            PaymentStatus::Completed
        } else {
            PaymentStatus::Scheduled
        },
        next_transfer_at: bumped,
        ..p
    }
}

/// The record after a failed authorization or transfer: marked `Failed`,
/// schedule untouched.
pub open spec fn spec_mark_failed(p: Payment) -> Payment {
    Payment { status: PaymentStatus::Failed, ..p }
}

/// A scheduled record always owes at least one more installment.
pub proof fn lemma_scheduled_owes_one(p: Payment)
    requires
        p.wf(),
        p.status is Scheduled,
    ensures
        p.remaining_installments() >= 1,
{
    let ri = p.recurrence_interval as int;
    if ri > 0 {
        let span = p.completed_at - p.next_transfer_at;
        if span < ri {
            lemma_small_mod(span as nat, ri as nat);
            lemma_basic_div(span, ri);
        } else {
            lemma_div_by_self(ri);
            lemma_div_is_ordered(ri, span, ri);
        }
    }
}

/// One successful advance of a well-formed scheduled record keeps it
/// well-formed, pays down exactly one owed installment, and completes the
/// record exactly when that installment was the last one.
pub proof fn lemma_advance_success_decrements(p: Payment)
    requires
        p.wf(),
        p.status is Scheduled,
    ensures
        spec_advance_success(p).wf(),
        spec_advance_success(p).remaining_installments() == p.remaining_installments() - 1,
        spec_advance_success(p).status is Completed <==> p.remaining_installments() == 1,
        spec_advance_success(p).status is Scheduled <==> p.remaining_installments() > 1,
{
    lemma_scheduled_owes_one(p);
    let ri = p.recurrence_interval as int;
    let span = p.completed_at - p.next_transfer_at;
    let q = spec_advance_success(p);
    if p.recurrence_interval == 0 {
        // One-shot: the single installment completes the record.
    } else if span <= ri {
        // Final installment: the bump caps at `completed_at`.
        if span == ri {
            lemma_div_by_self(ri);
            lemma_mod_self_0(ri);
        } else {
            lemma_small_mod(span as nat, ri as nat);
            lemma_basic_div(span, ri);
        }
    } else {
        // An intermediate installment: one whole interval of span is paid
        // down, so the rounded-up quotient drops by exactly one.
        lemma_mod_sub_multiples_vanish(span, ri);
        lemma_div_minus_one(span, ri);
        lemma_scheduled_owes_one(q);
    }
}

/// The record after `n` successful advances in a row.
pub open spec fn spec_advance_n(p: Payment, n: nat) -> Payment
    decreases n,
{
    if n == 0 {
        p
    } else {
        spec_advance_success(spec_advance_n(p, (n - 1) as nat))
    }
}

/// Successful distributions drive a well-formed scheduled record to
/// `Completed` in exactly `remaining_installments()` advances — for a
/// fresh recurring record, the span divided by the interval, rounded up —
/// and never in fewer: after any shorter run the record is still
/// `Scheduled`, still owing the difference.
pub proof fn lemma_completion_count(p: Payment, n: nat)
    requires
        p.wf(),
        p.status is Scheduled,
        n <= p.remaining_installments(),
    ensures
        spec_advance_n(p, n).wf(),
        spec_advance_n(p, n).remaining_installments() == p.remaining_installments() - n,
        n < p.remaining_installments() ==> spec_advance_n(p, n).status is Scheduled,
        n == p.remaining_installments() ==> spec_advance_n(p, n).status is Completed,
    decreases n,
{
    lemma_scheduled_owes_one(p);
    if n > 0 {
        let prev = spec_advance_n(p, (n - 1) as nat);
        lemma_completion_count(p, (n - 1) as nat);
        lemma_advance_success_decrements(prev);
    }
}

/// The payment record account as the ledger holds it: the record, its
/// address, the identity its allowance was granted to, and the native
/// balance escrowed on it at creation to cover every future fee.
#[derive(Clone, Debug, PartialEq, Eq)]
pub struct PaymentAccount {
    /// The record's own address.
    pub key: Pubkey,
    /// The identity entitled to move the debtor's value: the record's own
    /// address, or a shared program-wide authority.
    pub authority: Pubkey,
    /// The agreement itself.
    pub record: Payment,
    /// The escrowed fee reserve, in native settlement units.
    pub lamports: u64,
}

impl PaymentAccount {
    /// Well-formedness: the record is well-formed and the escrow still
    /// covers the fee split of every installment still owed.
    pub open spec fn wf(self) -> bool {
        &&& self.record.wf()
        &&& self.lamports >= self.record.remaining_installments()
            * (TRANSFER_FEE_DISTRIBUTOR + TRANSFER_FEE_PROGRAM)
    }
}

/// A well-formed scheduled account has the whole fee split of its next
/// installment escrowed.
pub proof fn lemma_escrow_covers_fee(a: PaymentAccount)
    requires
        a.wf(),
        a.record.status is Scheduled,
    ensures
        a.lamports >= TRANSFER_FEE_DISTRIBUTOR + TRANSFER_FEE_PROGRAM,
{
    lemma_scheduled_owes_one(a.record);
    lemma_mul_inequality(
        1,
        a.record.remaining_installments(),
        TRANSFER_FEE_DISTRIBUTOR + TRANSFER_FEE_PROGRAM,
    );
}

} // verus!
