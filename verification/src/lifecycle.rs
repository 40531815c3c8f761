//! The auction lifecycle manager: creating (or re-creating) an auction record
//! at a slot, and authorizing deposits of the sale asset into its vault.

use vstd::prelude::*;

use crate::error::LaunchpadError;
use crate::state::Auction;
use crate::state::InitAuctionParams;

verus! {

/// The validation that initialization runs, in order: the sale window must be
/// non-empty, and when a presale is requested its window must be non-empty and
/// must close no later than the sale opens. `None` means the request is valid.
pub open spec fn init_validation_error(params: InitAuctionParams) -> Option<LaunchpadError> {
    if params.start_time >= params.end_time {
        Some(LaunchpadError::InvalidAuctionTimes)
    } else if params.pre_sale && params.pre_sale_start_time >= params.pre_sale_end_time {
        Some(LaunchpadError::InvalidPresaleTime)
    } else if params.pre_sale && params.pre_sale_end_time > params.start_time {
        Some(LaunchpadError::InvalidPresaleTime)
    } else {
        None
    }
}

/// The record that a valid initialization writes: every field comes from the
/// request, and the remaining supply starts at the full pool.
pub open spec fn initialized_auction(owner: u64, params: InitAuctionParams) -> Auction {
    Auction {
        owner,
        name: params.name,
        enabled: params.enabled,
        fixed_amount: params.fixed_amount,
        start_time: params.start_time,
        end_time: params.end_time,
        pay_with_native: params.pay_with_native,
        pre_sale: params.pre_sale,
        pre_sale_start_time: params.pre_sale_start_time,
        pre_sale_end_time: params.pre_sale_end_time,
        tokens_in_pool: params.tokens_in_pool,
        remaining_tokens: params.tokens_in_pool,
        unit_price: params.unit_price,
        token_quantity_per_ticket: params.token_quantity_per_ticket,
        funding_demand: params.funding_demand,
    }
}

/// Creates or re-creates the auction record at `auction`'s slot for `owner`.
///
/// A malformed request fails with the first error of `init_validation_error`
/// and leaves the record exactly as it was; a valid one overwrites the whole
/// record with `initialized_auction(owner, params)`.
pub fn init_auction(owner: u64, params: InitAuctionParams, auction: &mut Auction) -> (r: Result<
    (),
    LaunchpadError,
>)
    ensures
        match init_validation_error(params) {
            Some(e) => r == Err::<(), LaunchpadError>(e) && *final(auction) == *old(auction),
            None => r is Ok && *final(auction) == initialized_auction(owner, params),
        },
        r is Ok <==> init_validation_error(params) is None,
        r is Ok ==> final(auction).inv(),
        r is Ok ==> final(auction).start_time < final(auction).end_time,
        r is Ok && final(auction).pre_sale ==> final(auction).pre_sale_start_time < final(
            auction
        ).pre_sale_end_time <= final(auction).start_time,
{
    if params.start_time >= params.end_time {
        return Err(LaunchpadError::InvalidAuctionTimes);
    }
    if params.pre_sale && params.pre_sale_start_time >= params.pre_sale_end_time {
        return Err(LaunchpadError::InvalidPresaleTime);
    }
    if params.pre_sale && params.pre_sale_end_time > params.start_time {
        return Err(LaunchpadError::InvalidPresaleTime);
    }
    auction.owner = owner;
    auction.enabled = params.enabled;
    auction.fixed_amount = params.fixed_amount;
    auction.start_time = params.start_time;
    auction.end_time = params.end_time;
    auction.pay_with_native = params.pay_with_native;
    auction.pre_sale = params.pre_sale;
    auction.pre_sale_start_time = params.pre_sale_start_time;
    auction.pre_sale_end_time = params.pre_sale_end_time;
    auction.tokens_in_pool = params.tokens_in_pool;
    auction.remaining_tokens = params.tokens_in_pool;
    auction.unit_price = params.unit_price;
    auction.token_quantity_per_ticket = params.token_quantity_per_ticket;
    auction.funding_demand = params.funding_demand;
    auction.name = params.name;
    Ok(())
}

/// Authorizes a deposit of `amount` sale-asset units into the auction's vault.
///
/// Only the recorded owner may deposit, and only while the auction is not yet
/// enabled: topping up a live sale is rejected. On success the caller owes one
/// custody transfer of the returned amount, owner to vault; the record itself
/// does not change (the pool size was fixed at initialization).
pub fn add_token(caller: u64, auction: &Auction, amount: u64) -> (r: Result<u64, LaunchpadError>)
    ensures
        caller != auction.owner ==> r == Err::<u64, LaunchpadError>(LaunchpadError::Unauthorized),
        caller == auction.owner && auction.enabled ==> r == Err::<u64, LaunchpadError>(
            LaunchpadError::InvalidAuction,
        ),
        caller == auction.owner && !auction.enabled ==> r == Ok::<u64, LaunchpadError>(amount),
{
    if caller != auction.owner {
        return Err(LaunchpadError::Unauthorized);
    }
    if auction.enabled {
        return Err(LaunchpadError::InvalidAuction);
    }
    Ok(amount)
}

} // verus!
