//! The whitelist and presale path: owner-only grants, the presale gate chain,
//! and the allocation limit that purchases decrement and never overdraw.

use launchpad::init_auction;
use launchpad::pre_sale_buy_using_sol;
use launchpad::pre_sale_buy_using_spl;
use launchpad::whitelist;
use launchpad::Auction;
use launchpad::InitAuctionParams;
use launchpad::LaunchpadError;
use launchpad::Settlement;
use launchpad::Whitelist;
use launchpad::WhitelistParams;

const OWNER: u64 = 7;

fn presale_auction() -> Auction {
    // Presale window [20, 40], sale window (50, 100), 1000 tokens at three
    // sale units per native payment unit.
    let mut auction = Auction {
        owner: 0,
        name: String::from("early"),
        enabled: false,
        fixed_amount: false,
        start_time: 0,
        end_time: 0,
        pay_with_native: false,
        pre_sale: false,
        pre_sale_start_time: 0,
        pre_sale_end_time: 0,
        tokens_in_pool: 0,
        remaining_tokens: 0,
        unit_price: 0,
        token_quantity_per_ticket: 0,
        funding_demand: 0,
    };
    let params = InitAuctionParams {
        name: String::from("early"),
        enabled: true,
        fixed_amount: false,
        start_time: 50,
        end_time: 100,
        pay_with_native: true,
        pre_sale: true,
        pre_sale_start_time: 20,
        pre_sale_end_time: 40,
        tokens_in_pool: 1000,
        unit_price: 3,
        token_quantity_per_ticket: 0,
        funding_demand: 0,
    };
    init_auction(OWNER, params, &mut auction).unwrap();
    auction
}

fn open_grant() -> Whitelist {
    Whitelist { whitelisted: true, limit: 300 }
}

#[test]
fn whitelist_needs_the_owner() {
    let auction = presale_auction();
    let mut grant = Whitelist { whitelisted: false, limit: 0 };
    let r = whitelist(8, &auction, &mut grant, WhitelistParams { whitelisted: true, limit: 300 });
    assert_eq!(r, Err(LaunchpadError::InvalidAuction));
    assert_eq!(grant, Whitelist { whitelisted: false, limit: 0 });
}

#[test]
fn whitelist_overwrites_the_grant() {
    let auction = presale_auction();
    let mut grant = Whitelist { whitelisted: false, limit: 0 };
    let r = whitelist(
        OWNER,
        &auction,
        &mut grant,
        WhitelistParams { whitelisted: true, limit: 300 },
    );
    assert_eq!(r, Ok(()));
    assert_eq!(grant, Whitelist { whitelisted: true, limit: 300 });
}

#[test]
fn whitelist_can_raise_a_spent_limit() {
    let auction = presale_auction();
    let mut grant = open_grant();
    pre_sale_buy_using_sol(&mut auction.clone(), &mut grant, 30, 100).unwrap();
    assert_eq!(grant.limit, 0);
    let r = whitelist(
        OWNER,
        &auction,
        &mut grant,
        WhitelistParams { whitelisted: true, limit: 600 },
    );
    assert_eq!(r, Ok(()));
    assert_eq!(grant.limit, 600);
}

#[test]
fn presale_needs_a_presale() {
    let mut auction = presale_auction();
    auction.pre_sale = false;
    let mut grant = open_grant();
    let r = pre_sale_buy_using_sol(&mut auction, &mut grant, 30, 10);
    assert_eq!(r, Err(LaunchpadError::PreSaleNotEnabled));
}

#[test]
fn presale_holds_to_its_window() {
    let mut auction = presale_auction();
    let mut grant = open_grant();
    assert_eq!(
        pre_sale_buy_using_sol(&mut auction, &mut grant, 19, 10),
        Err(LaunchpadError::InvalidPresaleTime)
    );
    assert_eq!(
        pre_sale_buy_using_sol(&mut auction, &mut grant, 41, 10),
        Err(LaunchpadError::InvalidPresaleTime)
    );
    assert!(pre_sale_buy_using_sol(&mut auction, &mut grant, 20, 10).is_ok());
    assert!(pre_sale_buy_using_sol(&mut auction, &mut grant, 40, 10).is_ok());
}

#[test]
fn presale_needs_a_whitelisted_buyer() {
    let mut auction = presale_auction();
    let mut grant = Whitelist { whitelisted: false, limit: 300 };
    let r = pre_sale_buy_using_sol(&mut auction, &mut grant, 30, 10);
    assert_eq!(r, Err(LaunchpadError::NotWhitelisted));
}

#[test]
fn presale_rejects_zero_payment() {
    let mut auction = presale_auction();
    let mut grant = open_grant();
    let r = pre_sale_buy_using_sol(&mut auction, &mut grant, 30, 0);
    assert_eq!(r, Err(LaunchpadError::InvalidSolAmount));
    let mut token_auction = presale_auction();
    token_auction.pay_with_native = false;
    let r2 = pre_sale_buy_using_spl(&mut token_auction, &mut grant, 30, 0);
    assert_eq!(r2, Err(LaunchpadError::InvalidTokenAmount));
}

#[test]
fn presale_rejects_the_wrong_payment_mode() {
    let mut auction = presale_auction();
    let mut grant = open_grant();
    let r = pre_sale_buy_using_spl(&mut auction, &mut grant, 30, 10);
    assert_eq!(r, Err(LaunchpadError::NonSplAuction));
    auction.pay_with_native = false;
    let r2 = pre_sale_buy_using_sol(&mut auction, &mut grant, 30, 10);
    assert_eq!(r2, Err(LaunchpadError::NonNativeAuction));
}

#[test]
fn presale_rejects_an_overflowing_sale() {
    let mut auction = presale_auction();
    auction.unit_price = u64::MAX;
    let mut grant = open_grant();
    let r = pre_sale_buy_using_sol(&mut auction, &mut grant, 30, 2);
    assert_eq!(r, Err(LaunchpadError::InvalidTokenAmount));
    assert_eq!(grant, open_grant());
}

#[test]
fn presale_holds_the_allocation_limit() {
    let mut auction = presale_auction();
    let mut grant = open_grant();
    let r = pre_sale_buy_using_sol(&mut auction, &mut grant, 30, 101);
    assert_eq!(r, Err(LaunchpadError::ExceedsLimit));
    assert_eq!(grant.limit, 300);
    assert_eq!(auction.remaining_tokens, 1000);
}

#[test]
fn presale_rejects_an_exhausted_pool() {
    let mut auction = presale_auction();
    auction.tokens_in_pool = 200;
    auction.remaining_tokens = 200;
    let mut grant = open_grant();
    let r = pre_sale_buy_using_sol(&mut auction, &mut grant, 30, 100);
    assert_eq!(r, Err(LaunchpadError::InsufficientTokens));
    assert_eq!(auction.remaining_tokens, 200);
    assert_eq!(grant.limit, 300);
}

#[test]
fn presale_decrements_pool_and_limit() {
    let mut auction = presale_auction();
    let mut grant = open_grant();
    let r = pre_sale_buy_using_sol(&mut auction, &mut grant, 30, 50);
    assert_eq!(r, Ok(Settlement { payment_amount: 50, sale_amount: 150 }));
    assert_eq!(auction.remaining_tokens, 850);
    assert_eq!(grant, Whitelist { whitelisted: true, limit: 150 });
}

#[test]
fn presale_spends_the_limit_to_zero_and_no_further() {
    let mut auction = presale_auction();
    let mut grant = open_grant();
    assert!(pre_sale_buy_using_sol(&mut auction, &mut grant, 30, 100).is_ok());
    assert_eq!(grant.limit, 0);
    let r = pre_sale_buy_using_sol(&mut auction, &mut grant, 31, 1);
    assert_eq!(r, Err(LaunchpadError::ExceedsLimit));
    assert_eq!(grant.limit, 0);
}

#[test]
fn presale_in_token_mode() {
    let mut auction = presale_auction();
    auction.pay_with_native = false;
    let mut grant = open_grant();
    let r = pre_sale_buy_using_spl(&mut auction, &mut grant, 30, 50);
    assert_eq!(r, Ok(Settlement { payment_amount: 50, sale_amount: 150 }));
    assert_eq!(auction.remaining_tokens, 850);
    assert_eq!(grant.limit, 150);
}
