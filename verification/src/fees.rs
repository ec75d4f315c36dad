//! The fee policy: the upfront reserve and the per-installment split.
//!
//! Every distribution attempt, whether it transfers value or marks the
//! record failed, pays a fixed reward to the executor who triggered it and
//! a fixed share to the protocol treasury. The whole reserve covering every
//! future installment is collected from the debtor once, at creation.

use vstd::prelude::*;

verus! {

/// The per-installment reward paid to whichever identity performs a
/// distribution call, in native settlement units.
pub const TRANSFER_FEE_DISTRIBUTOR: u64 = 1000;

/// The per-installment share paid to the protocol treasury, in native
/// settlement units.
pub const TRANSFER_FEE_PROGRAM: u64 = 1000;

/// The reserve owed upfront for a schedule of `num_installments`
/// installments: `num_installments * (executor_fee + protocol_fee)`.
pub open spec fn spec_total_fee_reserve(
    executor_fee: u64,
    protocol_fee: u64,
    num_installments: u64,
) -> int {
    num_installments * (executor_fee + protocol_fee)
}

/// Computes the upfront fee reserve, or `None` when it does not fit in the
/// native balance type (no account could escrow it then).
pub fn total_fee_reserve(
    executor_fee: u64,
    protocol_fee: u64,
    num_installments: u64,
) -> (reserve: Option<u64>)
    ensures
        match reserve {
            Some(v) => v == spec_total_fee_reserve(executor_fee, protocol_fee, num_installments),
            None => spec_total_fee_reserve(executor_fee, protocol_fee, num_installments)
                > u64::MAX,
        },
{
    match executor_fee.checked_add(protocol_fee) {
        Some(per_installment) => num_installments.checked_mul(per_installment),
        None => {
            // The split alone exceeds the balance type; so does any
            // positive number of installments' worth of it.
            if num_installments == 0 {
                Some(0)
            } else {
                proof {
                    vstd::arithmetic::mul::lemma_mul_inequality(
                        1,
                        num_installments as int,
                        executor_fee + protocol_fee,
                    );
                }
                None
            }
        },
    }
}

} // verus!
