use vstd::prelude::*;
use crate::state::account::Pubkey;

verus! {

/// A listing: the seller (maker), the listed asset, its price in lamports and
/// the bump of the listing address.
#[derive(Clone, Copy, Debug, PartialEq, Eq)]
pub struct Listing {
    pub maker: Pubkey,
    pub asset: Pubkey,
    pub price: u64,
    pub bump: u8,
}

} // verus!
