//! The calls into other programs that the instructions plan, as plain data.
//! An instruction computes these; the program that hosts the library
//! performs them, in the order the plan lists them.
use vstd::prelude::*;
use vstd::slice::slice_to_vec;
use vstd::string::StrSliceExecFns;
use vstd::string::StringSliceAdditionalSpecFns;
use vstd::utf8::encode_utf8;
use crate::constant::{LISTING, MARKETPLACE, OFFER};
use crate::state::account::Pubkey;

verus! {

/// The seeds with which a program-derived address signs, as byte strings.
pub open spec fn seeds_view(seeds: Seq<Vec<u8>>) -> Seq<Seq<u8>> {
    seeds.map_values(|s: Vec<u8>| s@)
}

/// The bytes of a seed prefix.
pub open spec fn seed_of(prefix: &str) -> Seq<u8> {
    prefix.spec_bytes()
}

/// The bytes of an address.
pub open spec fn key_seed(key: Pubkey) -> Seq<u8> {
    key.0@
}

/// A single-byte bump seed.
pub open spec fn bump_seed(bump: u8) -> Seq<u8> {
    seq![bump]
}

/// A transfer of lamports by the system program.
#[derive(Clone, Copy, Debug, PartialEq, Eq)]
pub struct LamportTransfer {
    pub from: Pubkey,
    pub to: Pubkey,
    pub amount: u64,
}

/// A checked transfer of tokens of `mint`, signed by `authority` (with
/// `signer_seeds` when the authority is a program-derived address; empty when
/// the authority signs the transaction itself).
#[derive(Clone, Debug, PartialEq, Eq)]
pub struct TokenTransfer {
    pub from: Pubkey,
    pub mint: Pubkey,
    pub to: Pubkey,
    pub authority: Pubkey,
    pub amount: u64,
    pub decimals: u8,
    pub signer_seeds: Vec<Vec<u8>>,
}

pub struct TokenTransferView {
    pub from: Pubkey,
    pub mint: Pubkey,
    pub to: Pubkey,
    pub authority: Pubkey,
    pub amount: u64,
    pub decimals: u8,
    pub signer_seeds: Seq<Seq<u8>>,
}

impl View for TokenTransfer {
    type V = TokenTransferView;

    open spec fn view(&self) -> TokenTransferView {
        TokenTransferView {
            from: self.from,
            mint: self.mint,
            to: self.to,
            authority: self.authority,
            amount: self.amount,
            decimals: self.decimals,
            signer_seeds: seeds_view(self.signer_seeds@),
        }
    }
}

/// A checked mint of `amount` tokens of `mint` to `to`.
#[derive(Clone, Debug, PartialEq, Eq)]
pub struct TokenMint {
    pub mint: Pubkey,
    pub to: Pubkey,
    pub authority: Pubkey,
    pub amount: u64,
    pub decimals: u8,
    pub signer_seeds: Vec<Vec<u8>>,
}

pub struct TokenMintView {
    pub mint: Pubkey,
    pub to: Pubkey,
    pub authority: Pubkey,
    pub amount: u64,
    pub decimals: u8,
    pub signer_seeds: Seq<Seq<u8>>,
}

impl View for TokenMint {
    type V = TokenMintView;

    open spec fn view(&self) -> TokenMintView {
        TokenMintView {
            mint: self.mint,
            to: self.to,
            authority: self.authority,
            amount: self.amount,
            decimals: self.decimals,
            signer_seeds: seeds_view(self.signer_seeds@),
        }
    }
}

/// Closing a token account, its rent going to `destination`.
#[derive(Clone, Debug, PartialEq, Eq)]
pub struct AccountClose {
    pub account: Pubkey,
    pub destination: Pubkey,
    pub authority: Pubkey,
    pub signer_seeds: Vec<Vec<u8>>,
}

pub struct AccountCloseView {
    pub account: Pubkey,
    pub destination: Pubkey,
    pub authority: Pubkey,
    pub signer_seeds: Seq<Seq<u8>>,
}

impl View for AccountClose {
    type V = AccountCloseView;

    open spec fn view(&self) -> AccountCloseView {
        AccountCloseView {
            account: self.account,
            destination: self.destination,
            authority: self.authority,
            signer_seeds: seeds_view(self.signer_seeds@),
        }
    }
}

/// A transfer of a core asset (in `collection`, if any) to `new_owner`,
/// approved by `authority` and with rent paid by `payer`.
#[derive(Clone, Debug, PartialEq, Eq)]
pub struct AssetTransfer {
    pub asset: Pubkey,
    pub collection: Option<Pubkey>,
    pub payer: Pubkey,
    pub authority: Pubkey,
    pub new_owner: Pubkey,
    pub signer_seeds: Vec<Vec<u8>>,
}

pub struct AssetTransferView {
    pub asset: Pubkey,
    pub collection: Option<Pubkey>,
    pub payer: Pubkey,
    pub authority: Pubkey,
    pub new_owner: Pubkey,
    pub signer_seeds: Seq<Seq<u8>>,
}

impl View for AssetTransfer {
    type V = AssetTransferView;

    open spec fn view(&self) -> AssetTransferView {
        AssetTransferView {
            asset: self.asset,
            collection: self.collection,
            payer: self.payer,
            authority: self.authority,
            new_owner: self.new_owner,
            signer_seeds: seeds_view(self.signer_seeds@),
        }
    }
}

/// The bytes of a seed prefix, as an owned seed.
pub fn prefix_seed(prefix: &str) -> (r: Vec<u8>)
    ensures
        r@ == seed_of(prefix),
{
    prefix.as_bytes_vec()
}

/// The bytes of an address, as an owned seed.
pub fn address_seed(key: &Pubkey) -> (r: Vec<u8>)
    ensures
        r@ == key_seed(*key),
{
    slice_to_vec(key.0.as_slice())
}

/// A bump, as an owned single-byte seed.
pub fn bump_byte_seed(bump: u8) -> (r: Vec<u8>)
    ensures
        r@ == bump_seed(bump),
{
    let mut r: Vec<u8> = Vec::new();
    r.push(bump);
    r
}

/// Seeds with which a listing address signs: the listing prefix, the
/// asset's address and the listing's bump.
pub open spec fn listing_signer(asset: Pubkey, bump: u8) -> Seq<Seq<u8>> {
    seq![seed_of(LISTING), key_seed(asset), bump_seed(bump)]
}

/// Seeds with which an offer address signs: the offer prefix, the asset's
/// and the buyer's addresses and the offer's bump.
pub open spec fn offer_signer(asset: Pubkey, taker: Pubkey, bump: u8) -> Seq<Seq<u8>> {
    seq![seed_of(OFFER), key_seed(asset), key_seed(taker), bump_seed(bump)]
}

/// Seeds with which the marketplace address signs: the marketplace prefix,
/// the UTF-8 bytes of its name and its bump.
pub open spec fn marketplace_signer(name: Seq<char>, bump: u8) -> Seq<Seq<u8>> {
    seq![seed_of(MARKETPLACE), encode_utf8(name), bump_seed(bump)]
}

/// Builds the signer seeds of a listing address.
pub fn listing_signer_seeds(asset: &Pubkey, bump: u8) -> (r: Vec<Vec<u8>>)
    ensures
        seeds_view(r@) == listing_signer(*asset, bump),
{
    let mut r: Vec<Vec<u8>> = Vec::new();
    r.push(prefix_seed(LISTING));
    r.push(address_seed(asset));
    r.push(bump_byte_seed(bump));
    assert(seeds_view(r@) =~= listing_signer(*asset, bump));
    r
}

/// Builds the signer seeds of an offer address.
pub fn offer_signer_seeds(asset: &Pubkey, taker: &Pubkey, bump: u8) -> (r: Vec<Vec<u8>>)
    ensures
        seeds_view(r@) == offer_signer(*asset, *taker, bump),
{
    let mut r: Vec<Vec<u8>> = Vec::new();
    r.push(prefix_seed(OFFER));
    r.push(address_seed(asset));
    r.push(address_seed(taker));
    r.push(bump_byte_seed(bump));
    assert(seeds_view(r@) =~= offer_signer(*asset, *taker, bump));
    r
}

/// Builds the signer seeds of the marketplace address.
pub fn marketplace_signer_seeds(name: &str, bump: u8) -> (r: Vec<Vec<u8>>)
    ensures
        seeds_view(r@) == marketplace_signer(name@, bump),
{
    let mut r: Vec<Vec<u8>> = Vec::new();
    r.push(prefix_seed(MARKETPLACE));
    r.push(name.as_bytes_vec());
    r.push(bump_byte_seed(bump));
    assert(seeds_view(r@) =~= marketplace_signer(name@, bump));
    r
}

} // verus!
