use vstd::prelude::*;
use crate::constant::MINT_DECIMALS;
use crate::cpi::{
    listing_signer, listing_signer_seeds, marketplace_signer, marketplace_signer_seeds,
    AssetTransfer, AssetTransferView, LamportTransfer, TokenMint, TokenMintView,
};
use crate::errors::Errors;
use crate::fee::{fee_split, split_amount};
use crate::state::account::{Keyed, Pubkey};
use crate::state::listing::Listing;
use crate::state::marketplace::MarketPlace;

verus! {

/// The accounts a purchase of a listed asset reads: the buyer (taker), the
/// seller (maker), the marketplace, the asset and its collection, the listing,
/// the treasury, the rewards mint and the buyer's rewards token account.
#[derive(Clone, Debug, PartialEq, Eq)]
pub struct Buy {
    pub taker: Pubkey,
    pub maker: Pubkey,
    pub marketplace: Keyed<MarketPlace>,
    pub asset: Pubkey,
    pub collection: Option<Pubkey>,
    pub listing: Keyed<Listing>,
    pub treasury: Pubkey,
    pub rewards_mint: Pubkey,
    pub taker_reward_ata: Pubkey,
}

/// The buyer's payment in lamports: the seller's share and the marketplace
/// fee, both paid by the buyer.
#[derive(Clone, Copy, Debug, PartialEq, Eq)]
pub struct SolPayment {
    pub to_maker: LamportTransfer,
    pub to_treasury: LamportTransfer,
}

/// The payment a purchase makes: the listing price split by the marketplace
/// fee, the seller's share to the seller and the fee to the treasury.
pub open spec fn buy_payment(b: Buy) -> Result<SolPayment, Errors> {
    match fee_split(b.listing.data.price, b.marketplace.data.fee) {
        Ok((seller, fee)) => Ok(
            SolPayment {
                to_maker: LamportTransfer { from: b.taker, to: b.maker, amount: seller },
                to_treasury: LamportTransfer { from: b.taker, to: b.treasury, amount: fee },
            },
        ),
        Err(e) => Err(e),
    }
}

/// The asset moves from the listing's custody to the buyer, approved by the
/// listing address, the buyer paying rent.
pub open spec fn buy_asset_transfer(b: Buy) -> AssetTransferView {
    AssetTransferView {
        asset: b.asset,
        collection: b.collection,
        payer: b.taker,
        authority: b.listing.key,
        new_owner: b.taker,
        signer_seeds: listing_signer(b.asset, b.listing.data.bump),
    }
}

/// The buyer is rewarded with as many reward tokens as the price, minted by
/// the marketplace address.
pub open spec fn buy_rewards(b: Buy) -> TokenMintView {
    TokenMintView {
        mint: b.rewards_mint,
        to: b.taker_reward_ata,
        authority: b.marketplace.key,
        amount: b.listing.data.price,
        decimals: MINT_DECIMALS,
        signer_seeds: marketplace_signer(b.marketplace.data.name@, b.marketplace.data.bump),
    }
}

impl Buy {
    /// Plans the buyer's payment: `MathOverflow` when the fee exceeds the price.
    pub fn send_sol(&self) -> (r: Result<SolPayment, Errors>)
        ensures
            r == buy_payment(*self),
    {
        let (seller, fee) = split_amount(self.listing.data.price, self.marketplace.data.fee)?;
        Ok(
            SolPayment {
                to_maker: LamportTransfer { from: self.taker, to: self.maker, amount: seller },
                to_treasury: LamportTransfer { from: self.taker, to: self.treasury, amount: fee },
            },
        )
    }

    /// Plans the transfer of the asset to the buyer.
    pub fn receive_nft(&self) -> (r: AssetTransfer)
        ensures
            r@ == buy_asset_transfer(*self),
    {
        AssetTransfer {
            asset: self.asset,
            collection: self.collection,
            payer: self.taker,
            authority: self.listing.key,
            new_owner: self.taker,
            signer_seeds: listing_signer_seeds(&self.asset, self.listing.data.bump),
        }
    }

    /// Plans the reward mint to the buyer.
    pub fn receive_rewards(&self) -> (r: TokenMint)
        ensures
            r@ == buy_rewards(*self),
    {
        TokenMint {
            mint: self.rewards_mint,
            to: self.taker_reward_ata,
            authority: self.marketplace.key,
            amount: self.listing.data.price,
            decimals: MINT_DECIMALS,
            signer_seeds: marketplace_signer_seeds(
                self.marketplace.data.name.as_str(),
                self.marketplace.data.bump,
            ),
        }
    }
}

} // verus!
