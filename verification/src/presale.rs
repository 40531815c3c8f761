//! The whitelist and presale manager: owner-scoped allocation grants, and the
//! whitelist-gated presale purchase path that decrements them.
//!
//! Presale purchases always use the per-unit price: each payment unit buys
//! `unit_price` sale units, capped by the buyer's remaining allocation.

use vstd::prelude::*;

use crate::error::LaunchpadError;
use crate::state::Auction;
use crate::state::Settlement;
use crate::state::Whitelist;
use crate::state::WhitelistParams;

verus! {

/// Overwrites `buyer_grant`, the whitelist entry of one buyer for `auction`.
///
/// Only the recorded auction owner may write a grant; any other caller fails
/// and the entry is untouched. On success the entry holds exactly the request:
/// this is the one path that may raise a buyer's limit back up.
pub fn whitelist(
    caller: u64,
    auction: &Auction,
    buyer_grant: &mut Whitelist,
    params: WhitelistParams,
) -> (r: Result<(), LaunchpadError>)
    ensures
        caller != auction.owner ==> r == Err::<(), LaunchpadError>(LaunchpadError::InvalidAuction)
            && *final(buyer_grant) == *old(buyer_grant),
        caller == auction.owner ==> r is Ok && *final(buyer_grant) == (Whitelist {
            whitelisted: params.whitelisted,
            limit: params.limit,
        }),
{
    if caller != auction.owner {
        return Err(LaunchpadError::InvalidAuction);
    }
    buyer_grant.whitelisted = params.whitelisted;
    buyer_grant.limit = params.limit;
    Ok(())
}

/// What a presale purchase returns, as a function of the loaded records, the
/// clock and the call. The checks run in this order, and the first to fail
/// names the error:
///
/// 1. the auction must have a presale (`PreSaleNotEnabled`);
/// 2. the clock must be inside the presale window, inclusive at both ends
///    (`InvalidPresaleTime`);
/// 3. the buyer must be whitelisted (`NotWhitelisted`);
/// 4. the payment must be positive (`InvalidSolAmount` / `InvalidTokenAmount`);
/// 5. the call's payment currency must match the auction's
///    (`NonNativeAuction` / `NonSplAuction`);
/// 6. the sale amount `payment_amount * unit_price` must fit in 64 bits
///    (`InvalidTokenAmount`), must not exceed the buyer's remaining allocation
///    (`ExceedsLimit`), and must be covered by the remaining supply
///    (`InsufficientTokens`).
///
/// On success the settlement moves the payment in and the sale amount out.
pub open spec fn presale_outcome(
    auction: Auction,
    grant: Whitelist,
    now: i64,
    native_call: bool,
    payment_amount: u64,
) -> Result<Settlement, LaunchpadError> {
    if !auction.pre_sale {
        Err(LaunchpadError::PreSaleNotEnabled)
    } else if !auction.in_presale_window(now) {
        Err(LaunchpadError::InvalidPresaleTime)
    } else if !grant.whitelisted {
        Err(LaunchpadError::NotWhitelisted)
    } else if payment_amount == 0 {
        if native_call {
            Err(LaunchpadError::InvalidSolAmount)
        } else {
            Err(LaunchpadError::InvalidTokenAmount)
        }
    } else if native_call && !auction.pay_with_native {
        Err(LaunchpadError::NonNativeAuction)
    } else if !native_call && auction.pay_with_native {
        Err(LaunchpadError::NonSplAuction)
    } else if payment_amount * auction.unit_price > u64::MAX {
        Err(LaunchpadError::InvalidTokenAmount)
    } else if payment_amount * auction.unit_price > grant.limit {
        Err(LaunchpadError::ExceedsLimit)
    } else if payment_amount * auction.unit_price > auction.remaining_tokens {
        Err(LaunchpadError::InsufficientTokens)
    } else {
        Ok(
            Settlement {
                payment_amount,
                sale_amount: (payment_amount * auction.unit_price) as u64,
            },
        )
    }
}

/// How a presale purchase changes the records: an error changes nothing; a
/// settlement deducts the sale amount both from the remaining supply and from
/// the buyer's allocation.
pub open spec fn presale_updates(
    pre_auction: Auction,
    pre_grant: Whitelist,
    post_auction: Auction,
    post_grant: Whitelist,
    r: Result<Settlement, LaunchpadError>,
) -> bool {
    match r {
        Err(_) => post_auction == pre_auction && post_grant == pre_grant,
        Ok(s) => post_auction == (Auction {
            remaining_tokens: (pre_auction.remaining_tokens - s.sale_amount) as u64,
            ..pre_auction
        }) && post_grant == (Whitelist {
            limit: (pre_grant.limit - s.sale_amount) as u64,
            ..pre_grant
        }),
    }
}

/// One presale purchase, in either payment mode.
///
/// The result is exactly `presale_outcome`, the records change exactly as
/// `presale_updates` says, and on success the caller owes the two custody legs
/// of the returned settlement. The supply never grows and the buyer's
/// allocation never grows: a purchase that would drive the limit below zero
/// fails with `ExceedsLimit` rather than clamping it.
pub fn pre_sale_buy(
    auction: &mut Auction,
    buyer_grant: &mut Whitelist,
    now: i64,
    native_call: bool,
    payment_amount: u64,
) -> (r: Result<Settlement, LaunchpadError>)
    requires
        old(auction).inv(),
    ensures
        r == presale_outcome(*old(auction), *old(buyer_grant), now, native_call, payment_amount),
        presale_updates(
            *old(auction),
            *old(buyer_grant),
            *final(auction),
            *final(buyer_grant),
            r,
        ),
        final(auction).tokens_in_pool == old(auction).tokens_in_pool,
        final(auction).remaining_tokens <= old(auction).remaining_tokens,
        final(auction).inv(),
        final(buyer_grant).limit <= old(buyer_grant).limit,
        final(buyer_grant).whitelisted == old(buyer_grant).whitelisted,
        r matches Ok(s) ==> s.sale_amount <= old(buyer_grant).limit && s.sale_amount <= old(
            auction
        ).remaining_tokens,
{
    if !auction.pre_sale {
        return Err(LaunchpadError::PreSaleNotEnabled);
    }
    if now < auction.pre_sale_start_time || now > auction.pre_sale_end_time {
        return Err(LaunchpadError::InvalidPresaleTime);
    }
    if !buyer_grant.whitelisted {
        return Err(LaunchpadError::NotWhitelisted);
    }
    if payment_amount == 0 {
        if native_call {
            return Err(LaunchpadError::InvalidSolAmount);
        } else {
            return Err(LaunchpadError::InvalidTokenAmount);
        }
    }
    if native_call && !auction.pay_with_native {
        return Err(LaunchpadError::NonNativeAuction);
    }
    if !native_call && auction.pay_with_native {
        return Err(LaunchpadError::NonSplAuction);
    }
    let sale_amount = match payment_amount.checked_mul(auction.unit_price) {
        None => {
            return Err(LaunchpadError::InvalidTokenAmount);
        },
        Some(sale_amount) => sale_amount,
    };
    if sale_amount > buyer_grant.limit {
        return Err(LaunchpadError::ExceedsLimit);
    }
    if sale_amount > auction.remaining_tokens {
        return Err(LaunchpadError::InsufficientTokens);
    }
    auction.remaining_tokens = auction.remaining_tokens - sale_amount;
    buyer_grant.limit = buyer_grant.limit - sale_amount;
    Ok(Settlement { payment_amount, sale_amount })
}

/// A presale purchase paid in the native currency.
pub fn pre_sale_buy_using_sol(
    auction: &mut Auction,
    buyer_grant: &mut Whitelist,
    now: i64,
    sol_amount: u64,
) -> (r: Result<Settlement, LaunchpadError>)
    requires
        old(auction).inv(),
    ensures
        r == presale_outcome(*old(auction), *old(buyer_grant), now, true, sol_amount),
        presale_updates(
            *old(auction),
            *old(buyer_grant),
            *final(auction),
            *final(buyer_grant),
            r,
        ),
        final(auction).tokens_in_pool == old(auction).tokens_in_pool,
        final(auction).inv(),
        final(buyer_grant).limit <= old(buyer_grant).limit,
{
    pre_sale_buy(auction, buyer_grant, now, true, sol_amount)
}

/// A presale purchase paid in the auction's fungible payment token.
pub fn pre_sale_buy_using_spl(
    auction: &mut Auction,
    buyer_grant: &mut Whitelist,
    now: i64,
    spl_amount: u64,
) -> (r: Result<Settlement, LaunchpadError>)
    requires
        old(auction).inv(),
    ensures
        r == presale_outcome(*old(auction), *old(buyer_grant), now, false, spl_amount),
        presale_updates(
            *old(auction),
            *old(buyer_grant),
            *final(auction),
            *final(buyer_grant),
            r,
        ),
        final(auction).tokens_in_pool == old(auction).tokens_in_pool,
        final(auction).inv(),
        final(buyer_grant).limit <= old(buyer_grant).limit,
{
    pre_sale_buy(auction, buyer_grant, now, false, spl_amount)
}

} // verus!
