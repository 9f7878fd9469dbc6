use vstd::prelude::*;
use crate::state::account::Pubkey;

verus! {

/// The marketplace record: who administers it, the fee it takes (in basis
/// points), its name, and the bumps of its own, treasury and rewards-mint
/// addresses.
#[derive(Clone, Debug, PartialEq, Eq)]
pub struct MarketPlace {
    pub admin: Pubkey,
    pub fee: u16,
    pub name: String,
    pub bump: u8,
    pub treasury_bump: u8,
    pub rewards_bump: u8,
}

} // verus!
