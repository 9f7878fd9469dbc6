use vstd::prelude::*;
use crate::state::account::Pubkey;

verus! {

/// An offer: the buyer (taker), the asset wanted, the token it pays in, the
/// amount held in escrow and the bump of the offer address.
#[derive(Clone, Copy, Debug, PartialEq, Eq)]
pub struct Offer {
    pub taker: Pubkey,
    pub asset: Pubkey,
    pub payment_mint: Pubkey,
    pub amount: u64,
    pub bump: u8,
}

} // verus!
