use vstd::prelude::*;
use crate::cpi::{TokenTransfer, TokenTransferView};
use crate::state::account::{Keyed, Pubkey};
use crate::state::offer::Offer;

verus! {

/// Bump of the offer address that `MakeOffer` creates.
#[derive(Clone, Copy, Debug, PartialEq, Eq)]
pub struct MakeOfferBumps {
    pub offer: u8,
}

/// The accounts an offer reads and writes: the buyer (taker), the asset, the
/// payment mint and its decimals, the new offer account, the buyer's payment
/// token account and the offer's escrow (vault) token account.
#[derive(Clone, Copy, Debug, PartialEq, Eq)]
pub struct MakeOffer {
    pub taker: Pubkey,
    pub asset: Pubkey,
    pub payment_mint: Pubkey,
    pub payment_mint_decimals: u8,
    pub offer: Keyed<Offer>,
    pub taker_payment_ata: Pubkey,
    pub offer_vault_ata: Pubkey,
}

/// The offer record an offer of `amount` stores.
pub open spec fn new_offer(m: MakeOffer, amount: u64, bumps: MakeOfferBumps) -> Offer {
    Offer {
        taker: m.taker,
        asset: m.asset,
        payment_mint: m.payment_mint,
        amount: amount,
        bump: bumps.offer,
    }
}

/// The escrow deposit: `amount` tokens from the buyer's payment account to the
/// offer's vault, signed by the buyer.
pub open spec fn offer_deposit(m: MakeOffer, amount: u64) -> TokenTransferView {
    TokenTransferView {
        from: m.taker_payment_ata,
        mint: m.payment_mint,
        to: m.offer_vault_ata,
        authority: m.taker,
        amount: amount,
        decimals: m.payment_mint_decimals,
        signer_seeds: Seq::empty(),
    }
}

impl MakeOffer {
    /// Records an offer of `amount` for the asset and plans its escrow deposit.
    pub fn make_offer(&mut self, amount: u64, bumps: MakeOfferBumps) -> (r: TokenTransfer)
        ensures
            *final(self) == (MakeOffer {
                offer: Keyed { key: old(self).offer.key, data: new_offer(*old(self), amount, bumps) },
                ..*old(self)
            }),
            r@ == offer_deposit(*old(self), amount),
    {
        self.offer.data = Offer {
            taker: self.taker,
            asset: self.asset,
            payment_mint: self.payment_mint,
            amount,
            bump: bumps.offer,
        };
        let r = TokenTransfer {
            from: self.taker_payment_ata,
            mint: self.payment_mint,
            to: self.offer_vault_ata,
            authority: self.taker,
            amount,
            decimals: self.payment_mint_decimals,
            signer_seeds: Vec::new(),
        };
        assert(r@.signer_seeds =~= Seq::<Seq<u8>>::empty());
        r
    }
}

} // verus!
