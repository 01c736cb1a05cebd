//! The fee engine: basis-point arithmetic with overflow detection.

use vstd::prelude::*;
use crate::errors::ContractError;

verus! {

/// One hundred percent, in basis points.
pub const MAX_FEE_BPS: u32 = 10000;

/// The divisor that turns `amount * fee_bps` into a fee.
pub const BPS_DENOMINATOR: i128 = 10000;

/// Whether `v` fits the 128-bit signed range.
pub open spec fn fits_i128(v: int) -> bool {
    i128::MIN <= v <= i128::MAX
}

/// Integer division of `n` by the positive `d`, rounding toward zero.
pub open spec fn div_toward_zero(n: int, d: int) -> int
    recommends
        d > 0,
{
    if n >= 0 {
        n / d
    } else {
        -((-n) / d)
    }
}

/// The fee on `amount` at `fee_bps` basis points:
/// `amount * fee_bps / 10000`, rounded toward zero.
pub open spec fn fee_of(amount: int, fee_bps: int) -> int {
    div_toward_zero(amount * fee_bps, 10000)
}

/// What the agent receives of a remittance.
pub open spec fn payout_of(amount: int, fee: int) -> int {
    amount - fee
}

/// For a positive amount and a rate of at most 10000 basis points the fee is
/// the floor of `amount * fee_bps / 10000`, lies between zero and the amount,
/// and leaves a payout that is not negative.
pub proof fn lemma_fee_within_amount(amount: int, fee_bps: int)
    requires
        amount > 0,
        0 <= fee_bps <= 10000,
    ensures
        fee_of(amount, fee_bps) == (amount * fee_bps) / 10000,
        0 <= fee_of(amount, fee_bps) <= amount,
        payout_of(amount, fee_of(amount, fee_bps)) >= 0,
        fee_bps == 0 ==> fee_of(amount, fee_bps) == 0,
        fee_bps == 10000 ==> fee_of(amount, fee_bps) == amount,
{
    let p = amount * fee_bps;
    assert(0 <= p <= amount * 10000) by (nonlinear_arith)
        requires
            p == amount * fee_bps,
            amount > 0,
            0 <= fee_bps <= 10000,
    ;
    assert(fee_bps == 0 ==> p == 0) by (nonlinear_arith)
        requires
            p == amount * fee_bps,
    ;
    assert(fee_bps == 10000 ==> p == amount * 10000) by (nonlinear_arith)
        requires
            p == amount * fee_bps,
    ;
}

/// The fee on `amount` at `fee_bps` basis points, rounded toward zero.
///
/// Fails with `Overflow` exactly when `amount * fee_bps` leaves the 128-bit
/// signed range. The caller checks that the amount is positive.
pub fn compute_fee(amount: i128, fee_bps: u32) -> (result: Result<i128, ContractError>)
    ensures
        fits_i128(amount * fee_bps) ==> result == Ok::<i128, ContractError>(
            fee_of(amount as int, fee_bps as int) as i128,
        ) && fits_i128(fee_of(amount as int, fee_bps as int)),
        !fits_i128(amount * fee_bps) ==> result == Err::<i128, ContractError>(
            ContractError::Overflow,
        ),
{
    let product = match amount.checked_mul(fee_bps as i128) {
        Some(p) => p,
        None => {
            return Err(ContractError::Overflow);
        },
    };
    match product.checked_div(BPS_DENOMINATOR) {
        Some(fee) => Ok(fee),
        None => Err(ContractError::Overflow),
    }
}

/// What the agent receives: `amount - fee`.
///
/// Fails with `Overflow` exactly when the difference leaves the 128-bit
/// signed range.
pub fn compute_payout(amount: i128, fee: i128) -> (result: Result<i128, ContractError>)
    ensures
        fits_i128(amount - fee) ==> result == Ok::<i128, ContractError>((amount - fee) as i128),
        !fits_i128(amount - fee) ==> result == Err::<i128, ContractError>(ContractError::Overflow),
{
    match amount.checked_sub(fee) {
        Some(payout) => Ok(payout),
        None => Err(ContractError::Overflow),
    }
}

} // verus!
