//! The purchase engine for the general (post-presale) sale, across the four
//! combinations of {native, token} payment and {per-unit, fixed-ticket}
//! pricing.
//!
//! Every admissibility rule and both price computations are stated by
//! `buy_outcome`, a complete function of the loaded records, the clock and the
//! call arguments; the executable entry points return exactly that outcome and
//! mutate the records exactly as `buy_updates` says.

use vstd::prelude::*;

use crate::error::LaunchpadError;
use crate::state::Auction;
use crate::state::Buyer;
use crate::state::Settlement;

verus! {

/// The price of one ticket in the fixed-ticket model: the funding demand
/// divided over the number of whole tickets the pool holds. `None` when the
/// configuration leaves the price undefined (no whole ticket fits the pool).
pub open spec fn ticket_price_of(auction: Auction) -> Option<u64> {
    if auction.token_quantity_per_ticket == 0 {
        None
    } else {
        let tickets = auction.tokens_in_pool / auction.token_quantity_per_ticket;
        if tickets == 0 {
            None
        } else {
            Some(auction.funding_demand / tickets)
        }
    }
}

/// What a general purchase returns, as a function of the loaded records, the
/// clock and the call. The checks run in this order, and the first to fail
/// names the error:
///
/// 1. an enabled presale must have ended (`PreSaleNotEnded`);
/// 2. the call's payment currency must match the auction's
///    (`NonNativeAuction` / `NonSplAuction`);
/// 3. the auction must be live (`InvalidAuction`);
/// 4. the computed sale amount must be covered by the remaining supply
///    (`InsufficientTokens`) — in the per-unit model the payment must be
///    positive (`InvalidSolAmount` / `InvalidTokenAmount`) and the product
///    `payment_amount * unit_price` must fit in 64 bits (`InvalidTokenAmount`);
/// 5. fixed-ticket only: the buyer must not hold a ticket already
///    (`AlreadyParticipated`);
/// 6. fixed-ticket only: the ticket price must be defined
///    (`InvalidTokenAmount`) and the payment must equal it exactly
///    (`InvalidSolFor1ticket`).
///
/// On success the settlement moves the payment in and the sale amount out.
pub open spec fn buy_outcome(
    auction: Auction,
    buyer: Buyer,
    now: i64,
    native_call: bool,
    payment_amount: u64,
) -> Result<Settlement, LaunchpadError> {
    if !auction.presale_finished(now) {
        Err(LaunchpadError::PreSaleNotEnded)
    } else if native_call && !auction.pay_with_native {
        Err(LaunchpadError::NonNativeAuction)
    } else if !native_call && auction.pay_with_native {
        Err(LaunchpadError::NonSplAuction)
    } else if !auction.is_live(now) {
        Err(LaunchpadError::InvalidAuction)
    } else if auction.fixed_amount {
        if auction.remaining_tokens < auction.token_quantity_per_ticket {
            Err(LaunchpadError::InsufficientTokens)
        } else if buyer.participate {
            Err(LaunchpadError::AlreadyParticipated)
        } else {
            match ticket_price_of(auction) {
                None => Err(LaunchpadError::InvalidTokenAmount),
                Some(price) => if payment_amount != price {
                    Err(LaunchpadError::InvalidSolFor1ticket)
                } else {
                    Ok(
                        Settlement {
                            payment_amount: price,
                            sale_amount: auction.token_quantity_per_ticket,
                        },
                    )
                },
            }
        }
    } else {
        if payment_amount == 0 {
            if native_call {
                Err(LaunchpadError::InvalidSolAmount)
            } else {
                Err(LaunchpadError::InvalidTokenAmount)
            }
        } else if payment_amount * auction.unit_price > u64::MAX {
            Err(LaunchpadError::InvalidTokenAmount)
        } else if payment_amount * auction.unit_price > auction.remaining_tokens {
            Err(LaunchpadError::InsufficientTokens)
        } else {
            Ok(
                Settlement {
                    payment_amount,
                    sale_amount: (payment_amount * auction.unit_price) as u64,
                },
            )
        }
    }
}

/// How a general purchase changes the records: an error changes nothing; a
/// settlement deducts the sale amount from the remaining supply and, in the
/// fixed-ticket model, marks the buyer as having participated.
pub open spec fn buy_updates(
    pre_auction: Auction,
    pre_buyer: Buyer,
    post_auction: Auction,
    post_buyer: Buyer,
    r: Result<Settlement, LaunchpadError>,
) -> bool {
    match r {
        Err(_) => post_auction == pre_auction && post_buyer == pre_buyer,
        Ok(s) => post_auction == (Auction {
            remaining_tokens: (pre_auction.remaining_tokens - s.sale_amount) as u64,
            ..pre_auction
        }) && post_buyer == (Buyer {
            participate: pre_buyer.participate || pre_auction.fixed_amount,
        }),
    }
}

/// Computes the ticket price of a fixed-ticket auction, or `None` when the
/// configuration leaves it undefined.
pub(crate) fn compute_ticket_price(auction: &Auction) -> (r: Option<u64>)
    ensures
        r == ticket_price_of(*auction),
{
    if auction.token_quantity_per_ticket == 0 {
        return None;
    }
    let tickets = auction.tokens_in_pool / auction.token_quantity_per_ticket;
    if tickets == 0 {
        None
    } else {
        Some(auction.funding_demand / tickets)
    }
}

/// One general purchase against a live auction, in either payment mode.
///
/// `native_call` says which currency the caller is paying with; the auction's
/// own mode must match. The result is exactly `buy_outcome`, the records
/// change exactly as `buy_updates` says, and on success the caller owes the
/// two custody legs of the returned settlement. The supply never grows, a
/// buyer who already holds a ticket can never purchase again in the
/// fixed-ticket model, and the participation flag is never cleared.
pub fn buy_token(
    auction: &mut Auction,
    buyer: &mut Buyer,
    now: i64,
    native_call: bool,
    payment_amount: u64,
) -> (r: Result<Settlement, LaunchpadError>)
    requires
        old(auction).inv(),
    ensures
        r == buy_outcome(*old(auction), *old(buyer), now, native_call, payment_amount),
        buy_updates(*old(auction), *old(buyer), *final(auction), *final(buyer), r),
        final(auction).tokens_in_pool == old(auction).tokens_in_pool,
        final(auction).remaining_tokens <= old(auction).remaining_tokens,
        final(auction).inv(),
        old(auction).fixed_amount && old(buyer).participate ==> r is Err,
        old(buyer).participate ==> final(buyer).participate,
        r matches Ok(s) ==> s.sale_amount <= old(auction).remaining_tokens,
{
    if auction.pre_sale && now < auction.pre_sale_end_time {
        return Err(LaunchpadError::PreSaleNotEnded);
    }
    if native_call && !auction.pay_with_native {
        return Err(LaunchpadError::NonNativeAuction);
    }
    if !native_call && auction.pay_with_native {
        return Err(LaunchpadError::NonSplAuction);
    }
    if !(auction.enabled && auction.start_time < now && now < auction.end_time) {
        return Err(LaunchpadError::InvalidAuction);
    }
    if auction.fixed_amount {
        if auction.remaining_tokens < auction.token_quantity_per_ticket {
            return Err(LaunchpadError::InsufficientTokens);
        }
        if buyer.participate {
            return Err(LaunchpadError::AlreadyParticipated);
        }
        let price = match compute_ticket_price(auction) {
            None => {
                return Err(LaunchpadError::InvalidTokenAmount);
            },
            Some(price) => price,
        };
        if payment_amount != price {
            return Err(LaunchpadError::InvalidSolFor1ticket);
        }
        auction.remaining_tokens = auction.remaining_tokens - auction.token_quantity_per_ticket;
        buyer.participate = true;
        Ok(Settlement { payment_amount: price, sale_amount: auction.token_quantity_per_ticket })
    } else {
        if payment_amount == 0 {
            if native_call {
                return Err(LaunchpadError::InvalidSolAmount);
            } else {
                return Err(LaunchpadError::InvalidTokenAmount);
            }
        }
        let sale_amount = match payment_amount.checked_mul(auction.unit_price) {
            None => {
                return Err(LaunchpadError::InvalidTokenAmount);
            },
            Some(sale_amount) => sale_amount,
        };
        if sale_amount > auction.remaining_tokens {
            return Err(LaunchpadError::InsufficientTokens);
        }
        auction.remaining_tokens = auction.remaining_tokens - sale_amount;
        Ok(Settlement { payment_amount, sale_amount })
    }
}

/// A general purchase paid in the native currency. The payment must equal the
/// exact ticket price in the fixed-ticket model; in the per-unit model it buys
/// `sol_amount * unit_price` sale units.
pub fn buy_token_using_sol(
    auction: &mut Auction,
    buyer: &mut Buyer,
    now: i64,
    sol_amount: u64,
) -> (r: Result<Settlement, LaunchpadError>)
    requires
        old(auction).inv(),
    ensures
        r == buy_outcome(*old(auction), *old(buyer), now, true, sol_amount),
        buy_updates(*old(auction), *old(buyer), *final(auction), *final(buyer), r),
        final(auction).tokens_in_pool == old(auction).tokens_in_pool,
        final(auction).remaining_tokens <= old(auction).remaining_tokens,
        final(auction).inv(),
        old(auction).fixed_amount && old(buyer).participate ==> r is Err,
        old(buyer).participate ==> final(buyer).participate,
{
    buy_token(auction, buyer, now, true, sol_amount)
}

/// A general purchase paid in the auction's fungible payment token. The
/// payment must equal the exact ticket price in the fixed-ticket model; in the
/// per-unit model it buys `spl_amount * unit_price` sale units.
pub fn buy_token_using_spl(
    auction: &mut Auction,
    buyer: &mut Buyer,
    now: i64,
    spl_amount: u64,
) -> (r: Result<Settlement, LaunchpadError>)
    requires
        old(auction).inv(),
    ensures
        r == buy_outcome(*old(auction), *old(buyer), now, false, spl_amount),
        buy_updates(*old(auction), *old(buyer), *final(auction), *final(buyer), r),
        final(auction).tokens_in_pool == old(auction).tokens_in_pool,
        final(auction).remaining_tokens <= old(auction).remaining_tokens,
        final(auction).inv(),
        old(auction).fixed_amount && old(buyer).participate ==> r is Err,
        old(buyer).participate ==> final(buyer).participate,
{
    buy_token(auction, buyer, now, false, spl_amount)
}

} // verus!
