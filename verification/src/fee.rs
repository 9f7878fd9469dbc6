use vstd::prelude::*;
use crate::constant::FEE_DENOMINATOR;
use crate::errors::Errors;

verus! {

/// The marketplace's cut of `amount` at `fee_bps` basis points: the product
/// divided by the denominator, rounded down, and kept to its low 64 bits.
pub open spec fn fee_amount(amount: u64, fee_bps: u16) -> u64 {
    ((amount as int * fee_bps as int) / FEE_DENOMINATOR as int) as u64
}

/// How `amount` is divided between the seller and the treasury: the seller
/// gets what is left after the fee, and a fee above the amount is an overflow.
pub open spec fn fee_split(amount: u64, fee_bps: u16) -> Result<(u64, u64), Errors> {
    let fee = fee_amount(amount, fee_bps);
    if fee <= amount {
        Ok(((amount - fee) as u64, fee))
    } else {
        Err(Errors::MathOverflow)
    }
}

/// Divides `amount` into the seller's share and the marketplace fee.
pub fn split_amount(amount: u64, fee_bps: u16) -> (r: Result<(u64, u64), Errors>)
    ensures
        r == fee_split(amount, fee_bps),
{
    let wide_amount: u128 = amount as u128;
    let wide_bps: u128 = fee_bps as u128;
    assert(wide_amount * wide_bps <= u128::MAX) by (nonlinear_arith)
        requires
            wide_amount <= u64::MAX,
            wide_bps <= u16::MAX,
    ;
    let product: u128 = wide_amount.checked_mul(wide_bps).unwrap();
    let quotient: u128 = match product.checked_div(FEE_DENOMINATOR) {
        Some(q) => q,
        None => return Err(Errors::MathOverflow),
    };
    let fee: u64 = #[verifier::truncate] (quotient as u64);
    match amount.checked_sub(fee) {
        Some(seller) => Ok((seller, fee)),
        None => Err(Errors::MathOverflow),
    }
}

} // verus!
