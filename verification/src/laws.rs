//! Properties of the marketplace as a whole, over the specifications of its
//! instructions.
use vstd::prelude::*;
use vstd::string::StringSliceAdditionalSpecFns;
use vstd::utf8::encode_utf8;
use crate::constant::{FEE_DENOMINATOR, LISTING, MARKETPLACE, MAX_NAME_LENGTH, MINT_DECIMALS, OFFER};
use crate::errors::Errors;
use crate::fee::{fee_amount, fee_split};
use crate::instructions::buy::{buy_asset_transfer, buy_payment, buy_rewards, Buy};
use crate::state::account::{Keyed, Pubkey};
use crate::state::marketplace::MarketPlace;
use crate::instructions::buyer_offer::{accept_offer_plan, BuyerOffer};
use crate::instructions::initialize::{
    is_blank, is_white_space, name_byte_len, name_is_valid, new_marketplace, InitializeBumps,
};
use crate::instructions::list::{listing_custody, new_listing, List, ListBumps};
use crate::instructions::make_offer::{new_offer, offer_deposit, MakeOffer, MakeOfferBumps};
use crate::program::buy_plan;

verus! {

/// A fee of at most the whole denominator (100%) is never more than the amount
/// it is taken from, so splitting the amount succeeds.
pub proof fn law_fee_at_most_amount(amount: u64, fee_bps: u16)
    requires
        fee_bps <= FEE_DENOMINATOR,
    ensures
        fee_amount(amount, fee_bps) <= amount,
        fee_split(amount, fee_bps) is Ok,
{
    let product: int = amount as int * fee_bps as int;
    assert(product <= amount as int * FEE_DENOMINATOR as int) by (nonlinear_arith)
        requires
            product == amount as int * fee_bps as int,
            0 <= amount,
            fee_bps <= FEE_DENOMINATOR,
    ;
    assert(product / FEE_DENOMINATOR as int <= amount) by (nonlinear_arith)
        requires
            0 <= product <= amount as int * FEE_DENOMINATOR as int,
            FEE_DENOMINATOR == 10_000,
    ;
}

/// Splitting an amount neither creates nor loses value: the seller's share and
/// the fee add up to the amount.
pub proof fn law_split_conserves(amount: u64, fee_bps: u16)
    ensures
        fee_split(amount, fee_bps) matches Ok((seller, fee)) ==> seller + fee == amount,
        fee_split(amount, fee_bps) is Err <==> fee_amount(amount, fee_bps) > amount,
{
}

/// A purchase that goes through charges the buyer exactly the listing price,
/// the seller's share to the seller and the fee to the treasury, moves the
/// asset to the buyer and rewards the buyer with as many tokens as the price.
pub proof fn law_buy_pays_listing_price(b: Buy)
    ensures
        buy_plan(b) matches Ok(p) ==> {
            &&& p.payment.to_maker.amount + p.payment.to_treasury.amount == b.listing.data.price
            &&& p.payment.to_maker.from == b.taker && p.payment.to_treasury.from == b.taker
            &&& p.payment.to_maker.to == b.maker && p.payment.to_treasury.to == b.treasury
            &&& p.nft.new_owner == b.taker && p.nft.asset == b.asset
            &&& p.rewards.amount == b.listing.data.price && p.rewards.to == b.taker_reward_ata
        },
{
}

/// A purchase fails only through the fee, with `MathOverflow` and before
/// anything moves, and never when the marketplace fee is at most 100%.
pub proof fn law_buy_fails_only_on_fee(b: Buy)
    ensures
        buy_plan(b) is Err ==> buy_plan(b) == Err::<crate::program::BuyPlanView, Errors>(
            Errors::MathOverflow,
        ) && fee_amount(b.listing.data.price, b.marketplace.data.fee) > b.listing.data.price,
        b.marketplace.data.fee <= FEE_DENOMINATOR ==> buy_plan(b) is Ok,
{
    if b.marketplace.data.fee <= FEE_DENOMINATOR {
        law_fee_at_most_amount(b.listing.data.price, b.marketplace.data.fee);
    }
}

/// What an offer puts in escrow, its acceptance pays out in full: the seller's
/// share and the fee leave the very vault the buyer paid into, in the offer's
/// token, add up to the deposit, and the emptied vault is closed with its rent
/// to the buyer who funded it. Acceptance fails only through the fee, never at
/// a fee of at most 100%.
pub proof fn law_offer_escrow_paid_out(
    make: MakeOffer,
    amount: u64,
    bumps: MakeOfferBumps,
    accept: BuyerOffer,
)
    requires
        accept.offer.data == new_offer(make, amount, bumps),
        accept.taker == accept.offer.data.taker,
        accept.payment_mint == accept.offer.data.payment_mint,
        accept.offer_vault_ata == make.offer_vault_ata,
    ensures
        accept_offer_plan(accept) matches Ok(p) ==> {
            let deposit = offer_deposit(make, amount);
            &&& p.to_maker.amount + p.to_treasury.amount == deposit.amount
            &&& p.to_maker.from == deposit.to && p.to_treasury.from == deposit.to
            &&& p.to_maker.mint == deposit.mint && p.to_treasury.mint == deposit.mint
            &&& p.close_vault.account == deposit.to
            &&& p.close_vault.destination == deposit.authority
            &&& p.nft.new_owner == deposit.authority
            &&& p.rewards.amount == deposit.amount
        },
        accept.marketplace.data.fee <= FEE_DENOMINATOR ==> accept_offer_plan(accept) is Ok,
{
    if accept.marketplace.data.fee <= FEE_DENOMINATOR {
        law_fee_at_most_amount(accept.offer.data.amount, accept.marketplace.data.fee);
    }
}

/// A sale of a listed asset pays the seller who listed it the listed price
/// (less the fee, which goes to the treasury), and the asset leaves from the
/// very account that took it into custody at listing.
pub proof fn law_listing_then_buy(l: List, price: u64, bumps: ListBumps, b: Buy)
    requires
        b.listing.key == l.listing.key,
        b.listing.data == new_listing(l, price, bumps),
        b.maker == b.listing.data.maker,
        b.asset == b.listing.data.asset,
    ensures
        buy_plan(b) matches Ok(p) ==> {
            &&& p.payment.to_maker.to == l.maker
            &&& p.payment.to_maker.amount + p.payment.to_treasury.amount == price
            &&& p.nft.asset == listing_custody(l).asset
            &&& p.nft.authority == listing_custody(l).new_owner
        },
{
}

/// A blank name (empty, or white space only) is never accepted.
pub proof fn law_blank_names_rejected(name: Seq<char>)
    ensures
        is_blank(name) ==> !name_is_valid(name),
{
}

/// A name is accepted exactly when it is not blank and at most
/// `MAX_NAME_LENGTH` bytes long; every longer name is refused.
pub proof fn law_name_rule(name: Seq<char>)
    ensures
        name_is_valid(name) <==> !is_blank(name) && name_byte_len(name) <= MAX_NAME_LENGTH,
        name_byte_len(name) > MAX_NAME_LENGTH ==> !name_is_valid(name),
{
}

/// For fees of at most 100%, a higher fee never takes less: the treasury's
/// share does not decrease and the seller's share does not increase as the
/// fee grows, and the treasury's share does not decrease as the amount grows.
pub proof fn law_fee_monotone(amount: u64, other_amount: u64, fee_bps: u16, other_fee_bps: u16)
    requires
        fee_bps <= other_fee_bps <= FEE_DENOMINATOR,
        amount <= other_amount,
    ensures
        fee_amount(amount, fee_bps) <= fee_amount(amount, other_fee_bps),
        fee_amount(amount, fee_bps) <= fee_amount(other_amount, fee_bps),
        fee_split(amount, fee_bps) matches Ok((seller, _)) ==> fee_split(
            amount,
            other_fee_bps,
        ) matches Ok((other_seller, _)) && other_seller <= seller,
{
    let d: int = FEE_DENOMINATOR as int;
    let q1: int = (amount as int * fee_bps as int) / d;
    let q2: int = (amount as int * other_fee_bps as int) / d;
    let q3: int = (other_amount as int * fee_bps as int) / d;
    assert(0 <= q1 <= q2 <= amount && q1 <= q3 <= other_amount) by (nonlinear_arith)
        requires
            d == 10_000,
            0 <= amount <= other_amount,
            0 <= fee_bps <= other_fee_bps <= 10_000,
            q1 == (amount as int * fee_bps as int) / d,
            q2 == (amount as int * other_fee_bps as int) / d,
            q3 == (other_amount as int * fee_bps as int) / d,
    {
        assert(amount as int * fee_bps as int <= amount as int * other_fee_bps as int);
        assert(amount as int * fee_bps as int <= other_amount as int * fee_bps as int);
        assert(amount as int * other_fee_bps as int <= amount as int * 10_000);
        assert(other_amount as int * fee_bps as int <= other_amount as int * 10_000);
    }
    assert(fee_amount(amount, fee_bps) == q1);
    assert(fee_amount(amount, other_fee_bps) == q2);
    assert(fee_amount(other_amount, fee_bps) == q3);
}

/// Between two purchases that differ only in the marketplace fee (both at
/// most 100%), the higher fee pays the treasury at least as much and the
/// seller at most as much.
pub proof fn law_buy_payment_monotone_in_fee(b: Buy, other_fee_bps: u16)
    requires
        b.marketplace.data.fee <= other_fee_bps <= FEE_DENOMINATOR,
    ensures
        ({
            let other = Buy {
                marketplace: Keyed {
                    key: b.marketplace.key,
                    data: MarketPlace { fee: other_fee_bps, ..b.marketplace.data },
                },
                ..b
            };
            &&& buy_payment(b) is Ok && buy_payment(other) is Ok
            &&& buy_payment(b)->Ok_0.to_treasury.amount <= buy_payment(other)->Ok_0.to_treasury.amount
            &&& buy_payment(other)->Ok_0.to_maker.amount <= buy_payment(b)->Ok_0.to_maker.amount
        }),
{
    let price: u64 = b.listing.data.price;
    law_fee_monotone(price, price, b.marketplace.data.fee, other_fee_bps);
    law_fee_at_most_amount(price, b.marketplace.data.fee);
    law_fee_at_most_amount(price, other_fee_bps);
}

/// Below 100%, the fee is the amount's share in basis points rounded down:
/// the largest whole number of tokens whose ten-thousandfold does not exceed
/// the amount times the rate.
pub proof fn law_fee_is_rounded_down_share(amount: u64, fee_bps: u16)
    requires
        fee_bps <= FEE_DENOMINATOR,
    ensures
        fee_amount(amount, fee_bps) * 10_000 <= amount * fee_bps,
        amount * fee_bps < (fee_amount(amount, fee_bps) + 1) * 10_000,
{
    let q: int = (amount as int * fee_bps as int) / 10_000;
    assert(q * 10_000 <= amount * fee_bps < (q + 1) * 10_000 && 0 <= q <= amount)
        by (nonlinear_arith)
        requires
            q == (amount as int * fee_bps as int) / 10_000,
            0 <= amount,
            0 <= fee_bps <= 10_000,
    ;
    assert(fee_amount(amount, fee_bps) == q);
}

/// A name is blank exactly when every one of its characters is white space;
/// any name holding a character that is not white space (an ASCII letter or
/// digit, for one) and at most `MAX_NAME_LENGTH` bytes long is accepted,
/// whatever white space it holds elsewhere.
pub proof fn law_blank_means_all_white_space(name: Seq<char>, i: int)
    ensures
        is_blank(name) <==> (forall|j: int| 0 <= j < name.len() ==> is_white_space(#[trigger] name[j])),
        0 <= i < name.len() && !is_white_space(name[i]) && name_byte_len(name) <= MAX_NAME_LENGTH
            ==> name_is_valid(name),
        0 <= i < name.len() && (('a' <= name[i] <= 'z') || ('A' <= name[i] <= 'Z') || ('0' <= name[i]
            <= '9')) ==> !is_white_space(name[i]) && !is_blank(name),
{
}

/// Initializing records the inputs as given: the admin, the fee in basis
/// points, the name, and the three bumps.
pub proof fn law_init_records_inputs(admin: Pubkey, name: String, fee: u16, bumps: InitializeBumps)
    ensures
        ({
            let m = new_marketplace(admin, name, fee, bumps);
            &&& m.admin == admin
            &&& m.fee == fee
            &&& m.name == name
            &&& m.bump == bumps.marketplace
            &&& m.treasury_bump == bumps.treasury
            &&& m.rewards_bump == bumps.rewards_mint
        }),
{
}

/// An offer records exactly the offered amount, the buyer, the asset, the
/// payment mint and the bump, and escrows exactly that amount of that mint
/// from the buyer's payment account into the offer's vault on the buyer's own
/// signature.
pub proof fn law_make_offer_records_and_escrows(m: MakeOffer, amount: u64, bumps: MakeOfferBumps)
    ensures
        ({
            let o = new_offer(m, amount, bumps);
            &&& o.amount == amount
            &&& o.taker == m.taker
            &&& o.asset == m.asset
            &&& o.payment_mint == m.payment_mint
            &&& o.bump == bumps.offer
        }),
        ({
            let d = offer_deposit(m, amount);
            &&& d.amount == amount
            &&& d.from == m.taker_payment_ata
            &&& d.to == m.offer_vault_ata
            &&& d.mint == m.payment_mint
            &&& d.authority == m.taker
            &&& d.decimals == m.payment_mint_decimals
            &&& d.signer_seeds.len() == 0
        }),
{
}

/// A listing records the seller, the asset, the price and the bump, and moves
/// the asset (within its collection) into the listing account on the seller's
/// own signature.
pub proof fn law_listing_records_and_takes_custody(l: List, price: u64, bumps: ListBumps)
    ensures
        ({
            let r = new_listing(l, price, bumps);
            &&& r.maker == l.maker && r.asset == l.asset && r.price == price
            &&& r.bump == bumps.listing
        }),
        ({
            let t = listing_custody(l);
            &&& t.asset == l.asset && t.collection == l.collection
            &&& t.payer == l.maker && t.authority == l.maker
            &&& t.new_owner == l.listing.key
            &&& t.signer_seeds.len() == 0
        }),
{
}

/// The three parts of a purchase. The payment comes from the buyer: the
/// seller gets the price less the fee and the treasury the fee. The asset,
/// within its collection, moves to the buyer, approved by the listing address
/// signing with its own seeds (listing prefix, asset, bump). The buyer gets
/// reward tokens equal to the price, minted by the marketplace address signing
/// with the seeds that derive it: the marketplace prefix, the bytes of the
/// stored name exactly as stored, and the marketplace's bump.
pub proof fn law_buy_parts(b: Buy)
    ensures
        buy_payment(b) is Ok <==> fee_amount(b.listing.data.price, b.marketplace.data.fee)
            <= b.listing.data.price,
        buy_payment(b) matches Ok(p) ==> {
            &&& p.to_maker.from == b.taker && p.to_treasury.from == b.taker
            &&& p.to_maker.to == b.maker && p.to_treasury.to == b.treasury
            &&& p.to_treasury.amount == fee_amount(b.listing.data.price, b.marketplace.data.fee)
            &&& p.to_maker.amount + p.to_treasury.amount == b.listing.data.price
        },
        ({
            let t = buy_asset_transfer(b);
            &&& t.asset == b.asset && t.collection == b.collection
            &&& t.payer == b.taker && t.authority == b.listing.key && t.new_owner == b.taker
            &&& t.signer_seeds == seq![LISTING.spec_bytes(), b.asset.0@, seq![b.listing.data.bump]]
        }),
        ({
            let m = buy_rewards(b);
            &&& m.mint == b.rewards_mint && m.to == b.taker_reward_ata
            &&& m.authority == b.marketplace.key
            &&& m.amount == b.listing.data.price && m.decimals == MINT_DECIMALS
            &&& m.signer_seeds == seq![
                MARKETPLACE.spec_bytes(),
                encode_utf8(b.marketplace.data.name@),
                seq![b.marketplace.data.bump],
            ]
        }),
{
}

/// A purchase is its three parts in order, and goes through exactly when its
/// payment does.
pub proof fn law_buy_is_its_parts(b: Buy)
    ensures
        buy_plan(b) is Ok <==> buy_payment(b) is Ok,
        buy_plan(b) matches Ok(p) ==> {
            &&& buy_payment(b) == Ok::<crate::instructions::buy::SolPayment, Errors>(p.payment)
            &&& p.nft == buy_asset_transfer(b)
            &&& p.rewards == buy_rewards(b)
        },
{
}

/// The reward mint of a purchase in a marketplace set up by `init` signs with
/// the seeds of the name and bump given to `init`.
pub proof fn law_buy_rewards_sign_as_initialized(
    b: Buy,
    admin: Pubkey,
    name: String,
    fee: u16,
    bumps: InitializeBumps,
)
    requires
        b.marketplace.data == new_marketplace(admin, name, fee, bumps),
    ensures
        buy_rewards(b).signer_seeds == seq![
            MARKETPLACE.spec_bytes(),
            encode_utf8(name@),
            seq![bumps.marketplace],
        ],
{
    law_init_records_inputs(admin, name, fee, bumps);
    law_buy_parts(b);
}

/// Accepting an offer, when the fee does not exceed the offered amount: the
/// seller's share and the fee (adding up to the amount) leave the offer's vault
/// in the payment mint, to the seller's and the treasury's payment accounts,
/// approved by the offer address signing with its seeds (offer prefix, asset,
/// buyer, bump); the vault is closed to the buyer; the asset, within its
/// collection, moves to the buyer, approved by the listing address, the seller
/// paying rent; and the buyer gets reward tokens equal to the offered amount,
/// minted by the marketplace address with the seeds that derive it. Otherwise
/// the acceptance fails with `MathOverflow`.
pub proof fn law_accept_offer_outcome(o: BuyerOffer)
    ensures
        accept_offer_plan(o) is Ok <==> fee_amount(o.offer.data.amount, o.marketplace.data.fee)
            <= o.offer.data.amount,
        accept_offer_plan(o) is Err ==> accept_offer_plan(o) == Err::<
            crate::instructions::buyer_offer::AcceptOfferPlanView,
            Errors,
        >(Errors::MathOverflow),
        accept_offer_plan(o) matches Ok(p) ==> {
            let offer_seeds = seq![OFFER.spec_bytes(), o.asset.0@, o.taker.0@, seq![o.offer.data.bump]];
            &&& p.to_maker.from == o.offer_vault_ata && p.to_treasury.from == o.offer_vault_ata
            &&& p.to_maker.mint == o.payment_mint && p.to_treasury.mint == o.payment_mint
            &&& p.to_maker.to == o.maker_payment_ata && p.to_treasury.to == o.treasury_payment_ata
            &&& p.to_maker.authority == o.offer.key && p.to_treasury.authority == o.offer.key
            &&& p.to_maker.decimals == o.payment_mint_decimals
            &&& p.to_treasury.decimals == o.payment_mint_decimals
            &&& p.to_maker.signer_seeds == offer_seeds && p.to_treasury.signer_seeds == offer_seeds
            &&& p.to_treasury.amount == fee_amount(o.offer.data.amount, o.marketplace.data.fee)
            &&& p.to_maker.amount + p.to_treasury.amount == o.offer.data.amount
            &&& p.close_vault.account == o.offer_vault_ata
            &&& p.close_vault.destination == o.taker
            &&& p.close_vault.authority == o.offer.key
            &&& p.close_vault.signer_seeds == offer_seeds
            &&& p.nft.asset == o.asset && p.nft.collection == o.collection
            &&& p.nft.payer == o.maker && p.nft.authority == o.listing.key
            &&& p.nft.new_owner == o.taker
            &&& p.nft.signer_seeds == seq![LISTING.spec_bytes(), o.asset.0@, seq![o.listing.data.bump]]
            &&& p.rewards.mint == o.rewards_mint && p.rewards.to == o.taker_reward_ata
            &&& p.rewards.authority == o.marketplace.key
            &&& p.rewards.amount == o.offer.data.amount && p.rewards.decimals == MINT_DECIMALS
            &&& p.rewards.signer_seeds == seq![
                MARKETPLACE.spec_bytes(),
                encode_utf8(o.marketplace.data.name@),
                seq![o.marketplace.data.bump],
            ]
        },
{
}

} // verus!
