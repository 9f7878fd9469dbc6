use nft_marketplace::constant::{LISTING, MARKETPLACE, MAX_NAME_LENGTH, MINT_DECIMALS, OFFER};
use nft_marketplace::cpi::{
    listing_signer_seeds, marketplace_signer_seeds, offer_signer_seeds, AccountClose,
    AssetTransfer, LamportTransfer, TokenMint, TokenTransfer,
};
use nft_marketplace::errors::Errors;
use nft_marketplace::fee::split_amount;
use nft_marketplace::instructions::buy::{Buy, SolPayment};
use nft_marketplace::instructions::buyer_offer::BuyerOffer;
use nft_marketplace::instructions::initialize::{
    is_blank_name, is_white_space_char, validate_name, Initialize, InitializeBumps,
};
use nft_marketplace::instructions::list::{List, ListBumps};
use nft_marketplace::instructions::make_offer::{MakeOffer, MakeOfferBumps};
use nft_marketplace::program::buy;
use nft_marketplace::state::account::{Keyed, Pubkey};
use nft_marketplace::state::listing::Listing;
use nft_marketplace::state::marketplace::MarketPlace;
use nft_marketplace::state::offer::Offer;

fn key(n: u8) -> Pubkey {
    Pubkey([n; 32])
}

fn market(fee: u16) -> Keyed<MarketPlace> {
    Keyed {
        key: key(50),
        data: MarketPlace {
            admin: key(1),
            fee,
            name: String::from("bazaar"),
            bump: 254,
            treasury_bump: 253,
            rewards_bump: 252,
        },
    }
}

fn buy_accounts(price: u64, fee: u16) -> Buy {
    Buy {
        taker: key(2),
        maker: key(3),
        marketplace: market(fee),
        asset: key(4),
        collection: Some(key(5)),
        listing: Keyed {
            key: key(6),
            data: Listing { maker: key(3), asset: key(4), price, bump: 250 },
        },
        treasury: key(7),
        rewards_mint: key(8),
        taker_reward_ata: key(9),
    }
}

fn offer_accounts(amount: u64, fee: u16) -> BuyerOffer {
    BuyerOffer {
        maker: key(3),
        taker: key(2),
        marketplace: market(fee),
        asset: key(4),
        collection: None,
        listing: Keyed {
            key: key(6),
            data: Listing { maker: key(3), asset: key(4), price: 1, bump: 250 },
        },
        offer: Keyed {
            key: key(10),
            data: Offer { taker: key(2), asset: key(4), payment_mint: key(11), amount, bump: 249 },
        },
        payment_mint: key(11),
        payment_mint_decimals: 9,
        offer_vault_ata: key(12),
        maker_payment_ata: key(13),
        treasury_payment_ata: key(14),
        rewards_mint: key(8),
        taker_reward_ata: key(9),
    }
}

fn listing_seeds(asset: Pubkey, bump: u8) -> Vec<Vec<u8>> {
    vec![b"listing".to_vec(), asset.0.to_vec(), vec![bump]]
}

fn market_seeds() -> Vec<Vec<u8>> {
    vec![b"marketplace".to_vec(), b"bazaar".to_vec(), vec![254]]
}

fn offer_seeds() -> Vec<Vec<u8>> {
    vec![b"offer".to_vec(), key(4).0.to_vec(), key(2).0.to_vec(), vec![249]]
}

#[test]
fn fee_is_taken_in_basis_points() {
    assert_eq!(split_amount(1000, 250), Ok((975, 25)));
    assert_eq!(split_amount(1_000_000_000, 500), Ok((950_000_000, 50_000_000)));
}

#[test]
fn fee_rounds_down() {
    assert_eq!(split_amount(9_999, 1), Ok((9_999, 0)));
    assert_eq!(split_amount(19_999, 1), Ok((19_998, 1)));
}

#[test]
fn fee_bounds() {
    assert_eq!(split_amount(12_345, 0), Ok((12_345, 0)));
    assert_eq!(split_amount(12_345, 10_000), Ok((0, 12_345)));
    assert_eq!(split_amount(0, 65_535), Ok((0, 0)));
}

#[test]
fn fee_above_price_is_an_overflow() {
    assert_eq!(split_amount(10_000, 10_001), Err(Errors::MathOverflow));
    assert_eq!(split_amount(100, 20_000), Err(Errors::MathOverflow));
}

#[test]
fn fee_keeps_its_low_64_bits() {
    let price: u64 = u64::MAX;
    let wide: u128 = (price as u128) * 65_535 / 10_000;
    let fee: u64 = wide as u64;
    assert!(wide > u64::MAX as u128);
    assert_eq!(split_amount(price, 65_535), Ok((price - fee, fee)));
}

#[test]
fn error_messages() {
    assert_eq!(Errors::InvalidName.msg(), "Name is empty or too long");
    assert_eq!(Errors::MathOverflow.msg(), "A mathetical overflow was detected");
}

#[test]
fn white_space_matches_std() {
    for u in 0u32..=0x10FFFF {
        if let Some(c) = char::from_u32(u) {
            assert_eq!(is_white_space_char(c), c.is_whitespace(), "at {:#x}", u);
        }
    }
}

#[test]
fn blank_names_match_trim() {
    for s in ["", " ", "\t\n", "\u{3000}\u{a0}", " a ", "x", "\u{200b}", "é", " \u{85}"] {
        assert_eq!(is_blank_name(s), s.trim().is_empty(), "for {:?}", s);
    }
}

#[test]
fn names_are_checked() {
    assert_eq!(validate_name(""), Err(Errors::InvalidName));
    assert_eq!(validate_name("   "), Err(Errors::InvalidName));
    assert_eq!(validate_name("bazaar"), Ok(()));
    assert_eq!(validate_name(&"a".repeat(MAX_NAME_LENGTH as usize)), Ok(()));
    assert_eq!(validate_name(&"a".repeat(MAX_NAME_LENGTH as usize + 1)), Err(Errors::InvalidName));
}

#[test]
fn name_length_counts_bytes() {
    let half: usize = MAX_NAME_LENGTH as usize / 2;
    assert_eq!(validate_name(&"é".repeat(half)), Ok(()));
    assert_eq!(validate_name(&"é".repeat(half + 1)), Err(Errors::InvalidName));
}

#[test]
fn long_names_are_refused() {
    assert_eq!(validate_name(&"a".repeat(255)), Err(Errors::InvalidName));
    assert_eq!(validate_name(&"a".repeat(256)), Err(Errors::InvalidName));
    assert_eq!(validate_name(&"a".repeat(257)), Err(Errors::InvalidName));
    assert_eq!(validate_name(&"a".repeat(256 + MAX_NAME_LENGTH as usize)), Err(Errors::InvalidName));
}

#[test]
fn init_refuses_a_long_name_and_changes_nothing() {
    let mut accounts = fresh_initialize();
    let before = accounts.clone();
    let bumps = InitializeBumps { marketplace: 254, treasury: 253, rewards_mint: 252 };
    assert_eq!(accounts.init("a".repeat(256), 100, bumps), Err(Errors::InvalidName));
    assert_eq!(accounts, before);
}

#[test]
fn higher_fee_takes_more() {
    let mut last_fee: u64 = 0;
    let mut last_seller: u64 = 1_000_003;
    for bps in (0u16..=10_000).step_by(7) {
        let (seller, fee) = split_amount(1_000_003, bps).unwrap();
        assert!(fee >= last_fee && seller <= last_seller);
        last_fee = fee;
        last_seller = seller;
    }
    assert!(buy_accounts(5_000, 100).send_sol().unwrap().to_treasury.amount
        <= buy_accounts(5_000, 200).send_sol().unwrap().to_treasury.amount);
}

fn fresh_initialize() -> Initialize {
    Initialize {
        admin: key(1),
        marketplace: Keyed {
            key: key(50),
            data: MarketPlace {
                admin: key(0),
                fee: 0,
                name: String::new(),
                bump: 0,
                treasury_bump: 0,
                rewards_bump: 0,
            },
        },
    }
}

#[test]
fn init_records_the_marketplace() {
    let mut accounts = fresh_initialize();
    let bumps = InitializeBumps { marketplace: 254, treasury: 253, rewards_mint: 252 };
    assert_eq!(accounts.init(String::from("bazaar"), 250, bumps), Ok(()));
    assert_eq!(accounts.marketplace, market(250));
    assert_eq!(accounts.admin, key(1));
}

#[test]
fn init_rejects_a_blank_name_and_changes_nothing() {
    let mut accounts = fresh_initialize();
    let before = accounts.clone();
    let bumps = InitializeBumps { marketplace: 254, treasury: 253, rewards_mint: 252 };
    assert_eq!(accounts.init(String::from(" \t "), 250, bumps), Err(Errors::InvalidName));
    assert_eq!(accounts, before);
}

#[test]
fn signer_seeds() {
    assert_eq!(listing_signer_seeds(&key(4), 7), listing_seeds(key(4), 7));
    assert_eq!(offer_signer_seeds(&key(4), &key(2), 249), offer_seeds());
    assert_eq!(marketplace_signer_seeds("bazaar", 254), market_seeds());
    assert_eq!(LISTING.as_bytes(), b"listing");
    assert_eq!(OFFER.as_bytes(), b"offer");
    assert_eq!(MARKETPLACE.as_bytes(), b"marketplace");
}

#[test]
fn send_sol_splits_the_price() {
    let accounts = buy_accounts(1_000_000, 250);
    assert_eq!(
        accounts.send_sol(),
        Ok(SolPayment {
            to_maker: LamportTransfer { from: key(2), to: key(3), amount: 975_000 },
            to_treasury: LamportTransfer { from: key(2), to: key(7), amount: 25_000 },
        })
    );
}

#[test]
fn send_sol_overflow() {
    let accounts = buy_accounts(10_000, 10_001);
    assert_eq!(accounts.send_sol(), Err(Errors::MathOverflow));
}

#[test]
fn receive_nft_moves_the_asset_to_the_buyer() {
    let accounts = buy_accounts(1_000, 250);
    assert_eq!(
        accounts.receive_nft(),
        AssetTransfer {
            asset: key(4),
            collection: Some(key(5)),
            payer: key(2),
            authority: key(6),
            new_owner: key(2),
            signer_seeds: listing_seeds(key(4), 250),
        }
    );
}

#[test]
fn receive_rewards_mints_the_price() {
    let accounts = buy_accounts(1_000, 250);
    assert_eq!(
        accounts.receive_rewards(),
        TokenMint {
            mint: key(8),
            to: key(9),
            authority: key(50),
            amount: 1_000,
            decimals: MINT_DECIMALS,
            signer_seeds: market_seeds(),
        }
    );
}

#[test]
fn buy_plans_every_step() {
    let accounts = buy_accounts(2_000, 500);
    let plan = buy(&accounts).unwrap();
    assert_eq!(plan.payment, accounts.send_sol().unwrap());
    assert_eq!(plan.nft, accounts.receive_nft());
    assert_eq!(plan.rewards, accounts.receive_rewards());
    assert_eq!(plan.payment.to_maker.amount + plan.payment.to_treasury.amount, 2_000);
    assert_eq!(plan.payment.to_treasury.amount, 100);
}

#[test]
fn buy_fails_on_excessive_fee() {
    assert_eq!(buy(&buy_accounts(10_000, 10_001)), Err(Errors::MathOverflow));
}

#[test]
fn make_offer_records_and_escrows() {
    let mut accounts = MakeOffer {
        taker: key(2),
        asset: key(4),
        payment_mint: key(11),
        payment_mint_decimals: 9,
        offer: Keyed {
            key: key(10),
            data: Offer { taker: key(0), asset: key(0), payment_mint: key(0), amount: 0, bump: 0 },
        },
        taker_payment_ata: key(15),
        offer_vault_ata: key(12),
    };
    let deposit = accounts.make_offer(5_000, MakeOfferBumps { offer: 249 });
    assert_eq!(
        accounts.offer.data,
        Offer { taker: key(2), asset: key(4), payment_mint: key(11), amount: 5_000, bump: 249 }
    );
    assert_eq!(accounts.offer.key, key(10));
    assert_eq!(
        deposit,
        TokenTransfer {
            from: key(15),
            mint: key(11),
            to: key(12),
            authority: key(2),
            amount: 5_000,
            decimals: 9,
            signer_seeds: Vec::new(),
        }
    );
}

#[test]
fn accept_offer_plans_every_step() {
    let accounts = offer_accounts(5_000, 250);
    let plan = accounts.accept_offer().unwrap();
    assert_eq!(
        plan.to_maker,
        TokenTransfer {
            from: key(12),
            mint: key(11),
            to: key(13),
            authority: key(10),
            amount: 4_875,
            decimals: 9,
            signer_seeds: offer_seeds(),
        }
    );
    assert_eq!(
        plan.to_treasury,
        TokenTransfer {
            from: key(12),
            mint: key(11),
            to: key(14),
            authority: key(10),
            amount: 125,
            decimals: 9,
            signer_seeds: offer_seeds(),
        }
    );
    assert_eq!(
        plan.close_vault,
        AccountClose { account: key(12), destination: key(2), authority: key(10), signer_seeds: offer_seeds() }
    );
    assert_eq!(
        plan.nft,
        AssetTransfer {
            asset: key(4),
            collection: None,
            payer: key(3),
            authority: key(6),
            new_owner: key(2),
            signer_seeds: listing_seeds(key(4), 250),
        }
    );
    assert_eq!(
        plan.rewards,
        TokenMint {
            mint: key(8),
            to: key(9),
            authority: key(50),
            amount: 5_000,
            decimals: MINT_DECIMALS,
            signer_seeds: market_seeds(),
        }
    );
}

#[test]
fn accept_offer_overflow() {
    assert_eq!(offer_accounts(10_000, 10_001).accept_offer(), Err(Errors::MathOverflow));
}

#[test]
fn offer_escrow_is_paid_out_in_full() {
    let mut make = MakeOffer {
        taker: key(2),
        asset: key(4),
        payment_mint: key(11),
        payment_mint_decimals: 9,
        offer: Keyed {
            key: key(10),
            data: Offer { taker: key(0), asset: key(0), payment_mint: key(0), amount: 0, bump: 0 },
        },
        taker_payment_ata: key(15),
        offer_vault_ata: key(12),
    };
    let deposit = make.make_offer(777_777, MakeOfferBumps { offer: 249 });
    let mut accept = offer_accounts(0, 333);
    accept.offer = make.offer;
    let plan = accept.accept_offer().unwrap();
    assert_eq!(plan.to_maker.amount + plan.to_treasury.amount, deposit.amount);
    assert_eq!(plan.to_maker.from, deposit.to);
    assert_eq!(plan.to_treasury.from, deposit.to);
    assert_eq!(plan.close_vault.account, deposit.to);
    assert_eq!(plan.close_vault.destination, deposit.authority);
    assert_eq!(plan.rewards.amount, deposit.amount);
}

#[test]
fn listing_records_and_takes_custody() {
    let mut accounts = List {
        maker: key(3),
        asset: key(4),
        collection: Some(key(5)),
        listing: Keyed { key: key(6), data: Listing { maker: key(0), asset: key(0), price: 0, bump: 0 } },
    };
    let custody = accounts.listing(42_000, ListBumps { listing: 250 });
    assert_eq!(accounts.listing.data, Listing { maker: key(3), asset: key(4), price: 42_000, bump: 250 });
    assert_eq!(
        custody,
        AssetTransfer {
            asset: key(4),
            collection: Some(key(5)),
            payer: key(3),
            authority: key(3),
            new_owner: key(6),
            signer_seeds: Vec::new(),
        }
    );
}

#[test]
fn listed_asset_sells_at_listed_price() {
    let mut accounts = List {
        maker: key(3),
        asset: key(4),
        collection: Some(key(5)),
        listing: Keyed { key: key(6), data: Listing { maker: key(0), asset: key(0), price: 0, bump: 0 } },
    };
    let custody = accounts.listing(42_000, ListBumps { listing: 250 });
    let mut sale = buy_accounts(0, 250);
    sale.listing = accounts.listing;
    let plan = buy(&sale).unwrap();
    assert_eq!(plan.payment.to_maker.to, key(3));
    assert_eq!(plan.payment.to_maker.amount + plan.payment.to_treasury.amount, 42_000);
    assert_eq!(plan.nft.authority, custody.new_owner);
    assert_eq!(plan.rewards.amount, 42_000);
}
