use vstd::prelude::*;
use crate::constant::MINT_DECIMALS;
use crate::cpi::{
    listing_signer, listing_signer_seeds, marketplace_signer, marketplace_signer_seeds,
    offer_signer, offer_signer_seeds, AccountClose, AccountCloseView, AssetTransfer,
    AssetTransferView, TokenMint, TokenMintView, TokenTransfer, TokenTransferView,
};
use crate::errors::Errors;
use crate::fee::{fee_split, split_amount};
use crate::state::account::{Keyed, Pubkey};
use crate::state::listing::Listing;
use crate::state::marketplace::MarketPlace;
use crate::state::offer::Offer;

verus! {

/// The accounts the seller's acceptance of an offer reads: the seller (maker),
/// the buyer (taker), the marketplace, the asset and its collection, the
/// listing, the offer, the payment mint and its decimals, the offer's vault,
/// the seller's and the treasury's payment token accounts, the rewards mint and
/// the buyer's rewards token account.
#[derive(Clone, Debug, PartialEq, Eq)]
pub struct BuyerOffer {
    pub maker: Pubkey,
    pub taker: Pubkey,
    pub marketplace: Keyed<MarketPlace>,
    pub asset: Pubkey,
    pub collection: Option<Pubkey>,
    pub listing: Keyed<Listing>,
    pub offer: Keyed<Offer>,
    pub payment_mint: Pubkey,
    pub payment_mint_decimals: u8,
    pub offer_vault_ata: Pubkey,
    pub maker_payment_ata: Pubkey,
    pub treasury_payment_ata: Pubkey,
    pub rewards_mint: Pubkey,
    pub taker_reward_ata: Pubkey,
}

/// Everything the acceptance of an offer does, in order: the seller's share
/// and the fee out of the vault, the vault's closing, the asset's transfer to
/// the buyer and the buyer's reward.
#[derive(Clone, Debug, PartialEq, Eq)]
pub struct AcceptOfferPlan {
    pub to_maker: TokenTransfer,
    pub to_treasury: TokenTransfer,
    pub close_vault: AccountClose,
    pub nft: AssetTransfer,
    pub rewards: TokenMint,
}

pub struct AcceptOfferPlanView {
    pub to_maker: TokenTransferView,
    pub to_treasury: TokenTransferView,
    pub close_vault: AccountCloseView,
    pub nft: AssetTransferView,
    pub rewards: TokenMintView,
}

impl View for AcceptOfferPlan {
    type V = AcceptOfferPlanView;

    open spec fn view(&self) -> AcceptOfferPlanView {
        AcceptOfferPlanView {
            to_maker: self.to_maker@,
            to_treasury: self.to_treasury@,
            close_vault: self.close_vault@,
            nft: self.nft@,
            rewards: self.rewards@,
        }
    }
}

/// A transfer out of the offer's vault, signed by the offer address.
pub open spec fn vault_payout(o: BuyerOffer, to: Pubkey, amount: u64) -> TokenTransferView {
    TokenTransferView {
        from: o.offer_vault_ata,
        mint: o.payment_mint,
        to: to,
        authority: o.offer.key,
        amount: amount,
        decimals: o.payment_mint_decimals,
        signer_seeds: offer_signer(o.asset, o.taker, o.offer.data.bump),
    }
}

/// The plan of an accepted offer: the offered amount split by the marketplace
/// fee, the seller's share and the fee paid out of the vault, the vault closed
/// with its rent to the buyer, the asset moved from the listing's custody to the
/// buyer (the seller paying rent), and the buyer rewarded with as many reward
/// tokens as the offered amount.
pub open spec fn accept_offer_plan(o: BuyerOffer) -> Result<AcceptOfferPlanView, Errors> {
    match fee_split(o.offer.data.amount, o.marketplace.data.fee) {
        Ok((seller, fee)) => Ok(
            AcceptOfferPlanView {
                to_maker: vault_payout(o, o.maker_payment_ata, seller),
                to_treasury: vault_payout(o, o.treasury_payment_ata, fee),
                close_vault: AccountCloseView {
                    account: o.offer_vault_ata,
                    destination: o.taker,
                    authority: o.offer.key,
                    signer_seeds: offer_signer(o.asset, o.taker, o.offer.data.bump),
                },
                nft: AssetTransferView {
                    asset: o.asset,
                    collection: o.collection,
                    payer: o.maker,
                    authority: o.listing.key,
                    new_owner: o.taker,
                    signer_seeds: listing_signer(o.asset, o.listing.data.bump),
                },
                rewards: TokenMintView {
                    mint: o.rewards_mint,
                    to: o.taker_reward_ata,
                    authority: o.marketplace.key,
                    amount: o.offer.data.amount,
                    decimals: MINT_DECIMALS,
                    signer_seeds: marketplace_signer(
                        o.marketplace.data.name@,
                        o.marketplace.data.bump,
                    ),
                },
            },
        ),
        Err(e) => Err(e),
    }
}

impl BuyerOffer {
    /// Plans the seller's acceptance of the buyer's offer: `MathOverflow` when
    /// the fee exceeds the offered amount.
    pub fn accept_offer(&self) -> (r: Result<AcceptOfferPlan, Errors>)
        ensures
            match r {
                Ok(plan) => accept_offer_plan(*self) == Ok::<AcceptOfferPlanView, Errors>(plan@),
                Err(e) => accept_offer_plan(*self) == Err::<AcceptOfferPlanView, Errors>(e),
            },
    {
        let amount: u64 = self.offer.data.amount;
        let (maker_amount, fee) = split_amount(amount, self.marketplace.data.fee)?;
        let to_maker = TokenTransfer {
            from: self.offer_vault_ata,
            mint: self.payment_mint,
            to: self.maker_payment_ata,
            authority: self.offer.key,
            amount: maker_amount,
            decimals: self.payment_mint_decimals,
            signer_seeds: offer_signer_seeds(&self.asset, &self.taker, self.offer.data.bump),
        };
        let to_treasury = TokenTransfer {
            from: self.offer_vault_ata,
            mint: self.payment_mint,
            to: self.treasury_payment_ata,
            authority: self.offer.key,
            amount: fee,
            decimals: self.payment_mint_decimals,
            signer_seeds: offer_signer_seeds(&self.asset, &self.taker, self.offer.data.bump),
        };
        let close_vault = AccountClose {
            account: self.offer_vault_ata,
            destination: self.taker,
            authority: self.offer.key,
            signer_seeds: offer_signer_seeds(&self.asset, &self.taker, self.offer.data.bump),
        };
        let nft = AssetTransfer {
            asset: self.asset,
            collection: self.collection,
            payer: self.maker,
            authority: self.listing.key,
            new_owner: self.taker,
            signer_seeds: listing_signer_seeds(&self.asset, self.listing.data.bump),
        };
        let rewards = TokenMint {
            mint: self.rewards_mint,
            to: self.taker_reward_ata,
            authority: self.marketplace.key,
            amount,
            decimals: MINT_DECIMALS,
            signer_seeds: marketplace_signer_seeds(
                self.marketplace.data.name.as_str(),
                self.marketplace.data.bump,
            ),
        };
        Ok(AcceptOfferPlan { to_maker, to_treasury, close_vault, nft, rewards })
    }
}

} // verus!
