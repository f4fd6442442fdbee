//! The price of a loan: a fixed share of the principal, in whole units.

use vstd::prelude::*;
use crate::error::ProtocolError;

verus! {

/// The lender's share of the principal, in hundredths of a percent.
pub const FEE_BASIS_POINTS: u64 = 500;

/// How many basis points make the whole.
pub const BASIS_POINTS_PER_UNIT: u64 = 10_000;

/// The fee on a principal: the share, rounded down to a whole unit.
pub open spec fn fee_of(principal: nat) -> nat {
    principal * (FEE_BASIS_POINTS as nat) / (BASIS_POINTS_PER_UNIT as nat)
}

/// What settles a loan: the principal and its fee.
pub open spec fn amount_owed_of(principal: nat) -> nat {
    principal + fee_of(principal)
}

/// The fee never exceeds the principal, so it fits wherever the principal does.
pub proof fn lemma_fee_at_most_principal(principal: nat)
    ensures
        fee_of(principal) <= principal,
{
    assert(principal * 500 / 10_000 <= principal) by (nonlinear_arith);
}

/// Computes the fee on `principal`. The product is taken in 128 bits, where
/// it cannot overflow.
pub fn fee(principal: u64) -> (amount: u64)
    ensures
        amount == fee_of(principal as nat),
{
    let wide: u128 = principal as u128;
    assert(wide * 500 <= u128::MAX) by (nonlinear_arith)
        requires
            wide <= u64::MAX,
    ;
    let share: u128 = wide * (FEE_BASIS_POINTS as u128) / (BASIS_POINTS_PER_UNIT as u128);
    proof {
        lemma_fee_at_most_principal(principal as nat);
    }
    share as u64
}

/// Computes what settles a loan of `principal`, and refuses with `Overflow`
/// exactly when that amount does not fit in 64 bits.
pub fn amount_owed(principal: u64) -> (owed: Result<u64, ProtocolError>)
    ensures
        amount_owed_of(principal as nat) <= u64::MAX ==> owed == Ok::<u64, ProtocolError>(
            amount_owed_of(principal as nat) as u64,
        ),
        amount_owed_of(principal as nat) > u64::MAX ==> owed == Err::<u64, ProtocolError>(
            ProtocolError::Overflow,
        ),
{
    let share: u64 = fee(principal);
    match principal.checked_add(share) {
        Some(total) => Ok(total),
        None => Err(ProtocolError::Overflow),
    }
}

} // verus!
