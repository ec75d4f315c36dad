//! The two caller-facing operations: creation and distribution.
//!
//! `create_payment` validates chronology and fee affordability, collects
//! the whole fee reserve upfront, grants the spending allowance, and opens
//! the record. `distribute_payment` is the permissionless entry point that
//! executes one due installment: it verifies the authorization grant,
//! moves the installment or marks the record failed, advances the
//! schedule, and pays the fee split either way.

use vstd::prelude::*;

verus! {

use crate::accounts::{Pubkey, TokenAccount};
use crate::errors::ErrorCode;
use crate::fees::{total_fee_reserve, TRANSFER_FEE_DISTRIBUTOR, TRANSFER_FEE_PROGRAM};
use crate::payment::{
    lemma_advance_success_decrements, lemma_escrow_covers_fee, Payment, PaymentAccount,
    PaymentStatus, spec_advance_success, spec_mark_failed,
};
use crate::schedule::{chronology_ok, num_installments, spec_num_installments, validate_chronology};

/// How a distribution call ended: the installment's value moved, or the
/// record was marked failed (and the fee was paid either way).
#[derive(Clone, Copy, Debug, PartialEq, Eq, Structural)]
pub enum Outcome {
    /// The installment transferred and the schedule advanced.
    Transferred,
    /// The authorization check or the transfer failed; the record is now
    /// terminally `Failed`.
    MarkedFailed,
}

/// A creation request: everything the debtor signs off on, together with
/// the addresses the caller derived for the record and for the delegate
/// identity that will sign transfers on the debtor's behalf (the record's
/// own address, or a shared program-wide authority).
#[derive(Clone, Debug, PartialEq, Eq)]
pub struct CreatePayment {
    /// Disambiguates concurrent agreements between the same pair.
    pub idempotency_key: String,
    /// Free-form note.
    pub memo: String,
    /// The paying party.
    pub debtor: Pubkey,
    /// The receiving party.
    pub creditor: Pubkey,
    /// The currency being moved.
    pub mint: Pubkey,
    /// Value moved per installment.
    pub amount: u64,
    /// Spacing between installments; 0 means one-shot.
    pub recurrence_interval: u64,
    /// Earliest time the first installment may execute.
    pub next_transfer_at: u64,
    /// Timestamp at which the schedule is exhausted.
    pub completed_at: u64,
    /// The record's derived address.
    pub payment_key: Pubkey,
    /// The identity the allowance is granted to.
    pub authority: Pubkey,
    /// Material proving the record's derived address to the ledger.
    pub bump: u8,
}

/// The authorization check run before each installment: a live delegation
/// to the expected identity whose remaining allowance covers the amount.
pub open spec fn authorization_ok(tokens: TokenAccount, authority: Pubkey, amount: u64) -> bool {
    &&& tokens.delegate == Some(authority)
    &&& tokens.delegated_amount >= amount
}

/// Whether the ledger could execute the value transfer itself: the source
/// holds the amount and the sink can absorb it.
pub open spec fn transfer_ok(source: TokenAccount, sink: TokenAccount, amount: u64) -> bool {
    &&& source.amount >= amount
    &&& sink.amount + amount <= u64::MAX
}

/// The upfront fee reserve a schedule of `n` installments owes, as a
/// mathematical value.
pub open spec fn spec_fee_reserve(n: int) -> int {
    n * (TRANSFER_FEE_DISTRIBUTOR + TRANSFER_FEE_PROGRAM)
}

/// The allowance granted at creation: the whole schedule's worth of
/// value, capped at the largest representable balance.
pub open spec fn spec_allowance(n: int, amount: u64) -> int {
    if n * amount <= u64::MAX {
        n * amount
    } else {
        u64::MAX as int
    }
}

/// Opens a payment record.
///
/// Validates chronology (`InvalidChronology` otherwise), confirms the
/// debtor can afford the whole fee reserve (`InsufficientFeeReserve`
/// otherwise), and only then — all-or-nothing — collects the reserve into
/// the record's escrow, grants the delegate identity an allowance for the
/// whole schedule, and persists the record as `Scheduled`. On any error
/// nothing moves.
pub fn create_payment(
    req: CreatePayment,
    debtor_lamports: &mut u64,
    debtor_tokens: &mut TokenAccount,
    creditor_tokens: &TokenAccount,
    now: u64,
) -> (result: Result<PaymentAccount, ErrorCode>)
    requires
        old(debtor_tokens).owner == req.debtor,
        old(debtor_tokens).mint == req.mint,
        creditor_tokens.owner == req.creditor,
        creditor_tokens.mint == req.mint,
    ensures
        ({
            let chron = chronology_ok(req.recurrence_interval, req.next_transfer_at, req.completed_at);
            let n = spec_num_installments(
                req.recurrence_interval,
                req.next_transfer_at,
                req.completed_at,
            );
            &&& (!chron <==> result == Err::<PaymentAccount, ErrorCode>(
                ErrorCode::InvalidChronology,
            ))
            &&& ((chron && *old(debtor_lamports) < spec_fee_reserve(n)) <==> result
                == Err::<PaymentAccount, ErrorCode>(ErrorCode::InsufficientFeeReserve))
            &&& ((chron && *old(debtor_lamports) >= spec_fee_reserve(n)) <==> result is Ok)
            &&& (result is Err ==> *final(debtor_lamports) == *old(debtor_lamports)
                && *final(debtor_tokens) == *old(debtor_tokens))
            &&& (result matches Ok(acct) ==> {
                &&& acct.wf()
                &&& acct.key == req.payment_key
                &&& acct.authority == req.authority
                &&& acct.lamports == spec_fee_reserve(n)
                &&& acct.record == (Payment {
                    idempotency_key: req.idempotency_key,
                    memo: req.memo,
                    debtor: req.debtor,
                    debtor_tokens: old(debtor_tokens).key,
                    creditor: req.creditor,
                    creditor_tokens: creditor_tokens.key,
                    mint: req.mint,
                    status: PaymentStatus::Scheduled,
                    amount: req.amount,
                    recurrence_interval: req.recurrence_interval,
                    next_transfer_at: req.next_transfer_at,
                    completed_at: req.completed_at,
                    created_at: now,
                    bump: req.bump,
                })
                &&& acct.record.remaining_installments() == n
                &&& *final(debtor_lamports) == *old(debtor_lamports) - spec_fee_reserve(n)
                &&& *final(debtor_tokens) == (TokenAccount {
                    delegate: Some(req.authority),
                    delegated_amount: spec_allowance(n, req.amount) as u64,
                    ..*old(debtor_tokens)
                })
            })
            &&& (result is Ok && req.recurrence_interval == 0 ==> n == 1
                && req.next_transfer_at == req.completed_at)
        }),
{
    if !validate_chronology(req.recurrence_interval, req.next_transfer_at, req.completed_at) {
        return Err(ErrorCode::InvalidChronology);
    }
    let n = num_installments(req.recurrence_interval, req.next_transfer_at, req.completed_at);
    let reserve = match total_fee_reserve(TRANSFER_FEE_DISTRIBUTOR, TRANSFER_FEE_PROGRAM, n) {
        Some(r) => r,
        None => {
            // A reserve beyond the balance type exceeds any balance the
            // debtor could hold.
            return Err(ErrorCode::InsufficientFeeReserve);
        },
    };
    if *debtor_lamports < reserve {
        return Err(ErrorCode::InsufficientFeeReserve);
    }
    let allowance = match n.checked_mul(req.amount) {
        Some(a) => a,
        None => u64::MAX,
    };

    // Collect the whole fee reserve from the debtor into the record's
    // escrow.
    *debtor_lamports = *debtor_lamports - reserve;

    // Grant the delegate identity an allowance covering every
    // installment.
    debtor_tokens.delegate = Some(req.authority);
    debtor_tokens.delegated_amount = allowance;

    Ok(PaymentAccount {
        key: req.payment_key,
        authority: req.authority,
        record: Payment {
            idempotency_key: req.idempotency_key,
            memo: req.memo,
            debtor: req.debtor,
            debtor_tokens: debtor_tokens.key,
            creditor: req.creditor,
            creditor_tokens: creditor_tokens.key,
            mint: req.mint,
            status: PaymentStatus::Scheduled,
            amount: req.amount,
            recurrence_interval: req.recurrence_interval,
            next_transfer_at: req.next_transfer_at,
            completed_at: req.completed_at,
            created_at: now,
            bump: req.bump,
        },
        lamports: reserve,
    })
}

/// Executes one distribution attempt against a due record.
///
/// Fails with `AlreadyTerminal` on a `Completed` or `Failed` record and
/// with `NotDue` before `next_transfer_at`; both leave every account
/// unchanged. On a due `Scheduled` record the call always pays the fee
/// split out of the record's escrow — the executor's reward and the
/// treasury's share compensate the verification work itself — and then
/// either moves one installment and advances the schedule
/// (`Transferred`), or, when the authorization grant or the transfer
/// would not carry the amount, marks the record terminally `Failed` and
/// moves no value (`MarkedFailed`).
pub fn distribute_payment(
    account: &mut PaymentAccount,
    debtor_tokens: &mut TokenAccount,
    creditor_tokens: &mut TokenAccount,
    distributor_lamports: &mut u64,
    treasury_lamports: &mut u64,
    now: u64,
) -> (result: Result<Outcome, ErrorCode>)
    requires
        old(account).wf(),
        old(debtor_tokens).key == old(account).record.debtor_tokens,
        old(debtor_tokens).owner == old(account).record.debtor,
        old(debtor_tokens).mint == old(account).record.mint,
        old(creditor_tokens).key == old(account).record.creditor_tokens,
        old(creditor_tokens).owner == old(account).record.creditor,
        old(creditor_tokens).mint == old(account).record.mint,
        *old(distributor_lamports) + TRANSFER_FEE_DISTRIBUTOR <= u64::MAX,
        *old(treasury_lamports) + TRANSFER_FEE_PROGRAM <= u64::MAX,
    ensures
        ({
            let r = old(account).record;
            let can = authorization_ok(*old(debtor_tokens), old(account).authority, r.amount)
                && transfer_ok(*old(debtor_tokens), *old(creditor_tokens), r.amount);
            &&& (r.status !is Scheduled <==> result == Err::<Outcome, ErrorCode>(
                ErrorCode::AlreadyTerminal,
            ))
            &&& ((r.status is Scheduled && now < r.next_transfer_at) <==> result
                == Err::<Outcome, ErrorCode>(ErrorCode::NotDue))
            &&& ((r.status is Scheduled && now >= r.next_transfer_at) <==> result is Ok)
            &&& (result is Err ==> *final(account) == *old(account)
                && *final(debtor_tokens) == *old(debtor_tokens)
                && *final(creditor_tokens) == *old(creditor_tokens)
                && *final(distributor_lamports) == *old(distributor_lamports)
                && *final(treasury_lamports) == *old(treasury_lamports))
            &&& (result is Ok ==> {
                &&& final(account).wf()
                &&& final(account).key == old(account).key
                &&& final(account).authority == old(account).authority
                &&& final(account).lamports == old(account).lamports
                    - (TRANSFER_FEE_DISTRIBUTOR + TRANSFER_FEE_PROGRAM)
                &&& *final(distributor_lamports) == *old(distributor_lamports)
                    + TRANSFER_FEE_DISTRIBUTOR
                &&& *final(treasury_lamports) == *old(treasury_lamports) + TRANSFER_FEE_PROGRAM
            })
            &&& (result is Ok && can ==> {
                &&& result == Ok::<Outcome, ErrorCode>(Outcome::Transferred)
                &&& final(account).record == spec_advance_success(r)
                &&& *final(debtor_tokens) == (TokenAccount {
                    amount: (old(debtor_tokens).amount - r.amount) as u64,
                    delegated_amount: (old(debtor_tokens).delegated_amount - r.amount) as u64,
                    ..*old(debtor_tokens)
                })
                &&& *final(creditor_tokens) == (TokenAccount {
                    amount: (old(creditor_tokens).amount + r.amount) as u64,
                    ..*old(creditor_tokens)
                })
            })
            &&& (result is Ok && !can ==> {
                &&& result == Ok::<Outcome, ErrorCode>(Outcome::MarkedFailed)
                &&& final(account).record == spec_mark_failed(r)
                &&& *final(debtor_tokens) == *old(debtor_tokens)
                &&& *final(creditor_tokens) == *old(creditor_tokens)
            })
        }),
{
    match account.record.status {
        PaymentStatus::Scheduled => {},
        _ => {
            return Err(ErrorCode::AlreadyTerminal);
        },
    }
    if now < account.record.next_transfer_at {
        return Err(ErrorCode::NotDue);
    }

    // Check the authorization grant: a live delegation to the expected
    // identity, with allowance left for this installment — and that the
    // ledger could carry the transfer itself.
    let amount = account.record.amount;
    let can = match debtor_tokens.delegate {
        Some(delegate) => delegate == account.authority && debtor_tokens.delegated_amount >= amount
            && debtor_tokens.amount >= amount && amount <= u64::MAX - creditor_tokens.amount,
        None => false,
    };

    let outcome = if can {
        // Move the installment from debtor to creditor under the grant,
        // drawing down the allowance.
        debtor_tokens.amount = debtor_tokens.amount - amount;
        debtor_tokens.delegated_amount = debtor_tokens.delegated_amount - amount;
        creditor_tokens.amount = creditor_tokens.amount + amount;

        // Advance the schedule: one interval forward, capped at the end;
        // reaching the end completes the record.
        proof {
            lemma_advance_success_decrements(old(account).record);
        }
        let span = account.record.completed_at - account.record.next_transfer_at;
        if span <= account.record.recurrence_interval {
            account.record.next_transfer_at = account.record.completed_at;
            account.record.status = PaymentStatus::Completed;
        } else {
            account.record.next_transfer_at =
                account.record.next_transfer_at + account.record.recurrence_interval;
        }
        Outcome::Transferred
    } else {
        // Authorization failure is terminal, not retried: the debtor
        // revoked or exhausted the grant out-of-band.
        account.record.status = PaymentStatus::Failed;
        Outcome::MarkedFailed
    };

    // Pay the fee split out of the escrow, regardless of the branch
    // taken: the executor performed the verification work either way.
    proof {
        lemma_escrow_covers_fee(*old(account));
    }
    account.lamports = account.lamports - TRANSFER_FEE_DISTRIBUTOR;
    *distributor_lamports = *distributor_lamports + TRANSFER_FEE_DISTRIBUTOR;
    account.lamports = account.lamports - TRANSFER_FEE_PROGRAM;
    *treasury_lamports = *treasury_lamports + TRANSFER_FEE_PROGRAM;

    Ok(outcome)
}

} // verus!
