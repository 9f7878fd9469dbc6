use vstd::prelude::*;

verus! {

/// Seed prefix of the marketplace account address.
pub const MARKETPLACE: &'static str = "marketplace";

/// Seed prefix of the treasury account address.
pub const TREASURY: &'static str = "treasury";

/// Seed prefix of the rewards mint address.
pub const REWARDS_MINT: &'static str = "rewards";

/// Seed prefix of a listing account address.
pub const LISTING: &'static str = "listing";

/// Seed prefix of an offer account address.
pub const OFFER: &'static str = "offer";

/// Longest marketplace name accepted, in bytes.
pub const MAX_NAME_LENGTH: u8 = 32;

/// Decimals of the rewards mint.
pub const MINT_DECIMALS: u8 = 6;

/// Marketplace fees are given in basis points of this denominator.
pub const FEE_DENOMINATOR: u128 = 10_000;

} // verus!
