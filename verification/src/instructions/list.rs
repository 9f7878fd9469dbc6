use vstd::prelude::*;
use crate::cpi::{AssetTransfer, AssetTransferView};
use crate::state::account::{Keyed, Pubkey};
use crate::state::listing::Listing;

verus! {

/// Bump of the listing address that `List` creates.
#[derive(Clone, Copy, Debug, PartialEq, Eq)]
pub struct ListBumps {
    pub listing: u8,
}

/// The accounts a listing reads and writes: the seller (maker), the asset and
/// its collection, and the new listing account.
#[derive(Clone, Copy, Debug, PartialEq, Eq)]
pub struct List {
    pub maker: Pubkey,
    pub asset: Pubkey,
    pub collection: Option<Pubkey>,
    pub listing: Keyed<Listing>,
}

/// The listing record a listing at `price` stores.
pub open spec fn new_listing(l: List, price: u64, bumps: ListBumps) -> Listing {
    Listing { maker: l.maker, asset: l.asset, price: price, bump: bumps.listing }
}

/// The asset moves from the seller into the custody of the listing address,
/// approved and paid for by the seller.
pub open spec fn listing_custody(l: List) -> AssetTransferView {
    AssetTransferView {
        asset: l.asset,
        collection: l.collection,
        payer: l.maker,
        authority: l.maker,
        new_owner: l.listing.key,
        signer_seeds: Seq::empty(),
    }
}

impl List {
    /// Records the listing of the asset at `price` and plans the move of the
    /// asset into the listing's custody.
    pub fn listing(&mut self, price: u64, bumps: ListBumps) -> (r: AssetTransfer)
        ensures
            *final(self) == (List {
                listing: Keyed { key: old(self).listing.key, data: new_listing(*old(self), price, bumps) },
                ..*old(self)
            }),
            r@ == listing_custody(*old(self)),
    {
        self.listing.data = Listing {
            maker: self.maker,
            asset: self.asset,
            price,
            bump: bumps.listing,
        };
        let r = AssetTransfer {
            asset: self.asset,
            collection: self.collection,
            payer: self.maker,
            authority: self.maker,
            new_owner: self.listing.key,
            signer_seeds: Vec::new(),
        };
        assert(r@.signer_seeds =~= Seq::<Seq<u8>>::empty());
        r
    }
}

} // verus!
