//! The settlement and withdrawal manager: after the sale ends, the owner
//! sweeps the unsold supply and the collected proceeds out of the vault, and
//! the auction slot resets to neutral defaults for reuse.

use vstd::prelude::*;

use crate::error::LaunchpadError;
use crate::purchase::compute_ticket_price;
use crate::purchase::ticket_price_of;
use crate::state::Auction;
use crate::state::Withdrawal;

verus! {

/// The neutral record that a withdrawal leaves behind: the owner is cleared,
/// the sale is disabled, and every price, time and supply is zero. Only the
/// slot's name survives, so a later initialization can reuse it.
pub open spec fn reset_auction(name: String) -> Auction {
    Auction {
        owner: 0,
        name,
        enabled: false,
        fixed_amount: false,
        start_time: 0,
        end_time: 0,
        pay_with_native: false,
        pre_sale: false,
        pre_sale_start_time: 0,
        pre_sale_end_time: 0,
        tokens_in_pool: 0,
        remaining_tokens: 0,
        unit_price: 0,
        token_quantity_per_ticket: 0,
        funding_demand: 0,
    }
}

/// The payment-asset proceeds a withdrawal sweeps to the owner, computed from
/// the sold supply by the auction's pricing model: sold tickets times the
/// ticket price in the fixed-ticket model, sold units divided by the per-unit
/// rate otherwise. `None` when the computation is undefined or overflows with
/// a non-zero sold supply.
pub open spec fn withdraw_proceeds(auction: Auction) -> Option<u64> {
    if auction.sold() == 0 {
        Some(0u64)
    } else if auction.fixed_amount {
        match ticket_price_of(auction) {
            None => None,
            Some(price) => {
                let tickets_sold = auction.sold() / auction.token_quantity_per_ticket as int;
                if tickets_sold * price > u64::MAX {
                    None
                } else {
                    Some((tickets_sold * price) as u64)
                }
            },
        }
    } else {
        if auction.unit_price == 0 {
            None
        } else {
            Some((auction.sold() / auction.unit_price as int) as u64)
        }
    }
}

/// Sweeps the vault to the owner after the sale has ended and resets the slot.
///
/// Only the recorded owner may withdraw, only from the end time on, and only
/// while the auction is enabled; any failure leaves the record exactly as it
/// was and owes no transfer. On success the caller owes the two custody legs
/// of the returned `Withdrawal` — the whole unsold supply, and the proceeds of
/// `withdraw_proceeds` — and the record becomes `reset_auction` of its name:
/// the two legs and the reset commit in one atomic step or not at all.
pub fn withdraw_funds(caller: u64, auction: &mut Auction, now: i64) -> (r: Result<
    Withdrawal,
    LaunchpadError,
>)
    requires
        old(auction).inv(),
    ensures
        caller != old(auction).owner ==> r == Err::<Withdrawal, LaunchpadError>(
            LaunchpadError::Unauthorized,
        ),
        caller == old(auction).owner && now < old(auction).end_time ==> r == Err::<
            Withdrawal,
            LaunchpadError,
        >(LaunchpadError::AuctionNotEnded),
        caller == old(auction).owner && now >= old(auction).end_time && !old(auction).enabled
            ==> r == Err::<Withdrawal, LaunchpadError>(LaunchpadError::AuctionDisabled),
        caller == old(auction).owner && now >= old(auction).end_time && old(auction).enabled
            ==> match withdraw_proceeds(*old(auction)) {
            None => r == Err::<Withdrawal, LaunchpadError>(LaunchpadError::InvalidTokenAmount),
            Some(proceeds) => r == Ok::<Withdrawal, LaunchpadError>(
                Withdrawal { unsold_tokens: old(auction).remaining_tokens, proceeds },
            ),
        },
        r is Err ==> *final(auction) == *old(auction),
        r is Ok ==> *final(auction) == reset_auction(old(auction).name),
        final(auction).inv(),
{
    if caller != auction.owner {
        return Err(LaunchpadError::Unauthorized);
    }
    if now < auction.end_time {
        return Err(LaunchpadError::AuctionNotEnded);
    }
    if !auction.enabled {
        return Err(LaunchpadError::AuctionDisabled);
    }
    let sold = auction.tokens_in_pool - auction.remaining_tokens;
    let proceeds: u64 = if sold == 0 {
        0
    } else if auction.fixed_amount {
        let price = match compute_ticket_price(auction) {
            None => {
                return Err(LaunchpadError::InvalidTokenAmount);
            },
            Some(price) => price,
        };
        let tickets_sold = sold / auction.token_quantity_per_ticket;
        match tickets_sold.checked_mul(price) {
            None => {
                return Err(LaunchpadError::InvalidTokenAmount);
            },
            Some(proceeds) => proceeds,
        }
    } else {
        if auction.unit_price == 0 {
            return Err(LaunchpadError::InvalidTokenAmount);
        }
        sold / auction.unit_price
    };
    let unsold_tokens = auction.remaining_tokens;
    auction.owner = 0;
    auction.enabled = false;
    auction.fixed_amount = false;
    auction.start_time = 0;
    auction.end_time = 0;
    auction.pay_with_native = false;
    auction.pre_sale = false;
    auction.pre_sale_start_time = 0;
    auction.pre_sale_end_time = 0;
    auction.tokens_in_pool = 0;
    auction.remaining_tokens = 0;
    auction.unit_price = 0;
    auction.token_quantity_per_ticket = 0;
    auction.funding_demand = 0;
    Ok(Withdrawal { unsold_tokens, proceeds })
}

} // verus!
