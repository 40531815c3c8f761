//! The persisted records of the auction system and their invariants, together
//! with the value types that a successful operation hands back to the caller
//! for settlement.
//!
//! Identities (the auction owner, buyers) are opaque to the rules here: they
//! are compared for equality and nothing else, so they are carried as plain
//! `u64` values. The cleared owner of a reset auction slot is `0`.

use vstd::prelude::*;

verus! {

/// One configured token sale. The record lives in the ledger store under a
/// human-chosen name; the substrate loads it before every operation and
/// persists it afterwards.
///
/// `fixed_amount` selects the pricing model: `false` is the per-unit model
/// (`unit_price` sale units for each payment unit), `true` is the fixed-ticket
/// model (`token_quantity_per_ticket` sale units for one ticket, whose price
/// is derived from `funding_demand`). `pay_with_native` selects the payment
/// currency for the lifetime of the sale.
#[derive(Clone, Debug, PartialEq)]
pub struct Auction {
    pub owner: u64,
    pub name: String,
    pub enabled: bool,
    pub fixed_amount: bool,
    pub start_time: i64,
    pub end_time: i64,
    pub pay_with_native: bool,
    pub pre_sale: bool,
    pub pre_sale_start_time: i64,
    pub pre_sale_end_time: i64,
    pub tokens_in_pool: u64,
    pub remaining_tokens: u64,
    pub unit_price: u64,
    pub token_quantity_per_ticket: u64,
    pub funding_demand: u64,
}

impl Auction {
    /// The record invariant: the pool never holds more than it started with.
    /// Initialization establishes it and every operation preserves it.
    pub open spec fn inv(self) -> bool {
        self.remaining_tokens <= self.tokens_in_pool
    }

    /// The general sale is open: the auction is enabled and the clock is
    /// strictly inside the sale window.
    pub open spec fn is_live(self, now: i64) -> bool {
        self.enabled && self.start_time < now < self.end_time
    }

    /// No presale stands in the way of a general purchase: either the auction
    /// has no presale, or the presale window has closed.
    pub open spec fn presale_finished(self, now: i64) -> bool {
        !self.pre_sale || now >= self.pre_sale_end_time
    }

    /// The clock is inside the presale window (inclusive at both ends).
    pub open spec fn in_presale_window(self, now: i64) -> bool {
        self.pre_sale_start_time <= now <= self.pre_sale_end_time
    }

    /// How many sale-asset units have been sold so far.
    pub open spec fn sold(self) -> int {
        self.tokens_in_pool - self.remaining_tokens
    }
}

/// One buyer's presale grant for one auction, written only by the auction
/// owner. `limit` is the remaining allocation in sale-asset units; presale
/// purchases decrement it and never drive it below zero.
#[derive(Clone, Copy, Debug, PartialEq, Eq, Structural)]
pub struct Whitelist {
    pub whitelisted: bool,
    pub limit: u64,
}

/// One buyer's participation flag for one auction. In the fixed-ticket model
/// it moves from `false` to `true` on the first successful purchase and blocks
/// every later one; only resetting the auction slot clears it.
#[derive(Clone, Copy, Debug, PartialEq, Eq, Structural)]
pub struct Buyer {
    pub participate: bool,
}

/// The request that creates or re-creates an auction record.
#[derive(Clone, Debug, PartialEq)]
pub struct InitAuctionParams {
    pub name: String,
    pub enabled: bool,
    pub fixed_amount: bool,
    pub start_time: i64,
    pub end_time: i64,
    pub pay_with_native: bool,
    pub pre_sale: bool,
    pub pre_sale_start_time: i64,
    pub pre_sale_end_time: i64,
    pub tokens_in_pool: u64,
    pub unit_price: u64,
    pub token_quantity_per_ticket: u64,
    pub funding_demand: u64,
}

/// The request that overwrites one buyer's whitelist grant.
#[derive(Clone, Copy, Debug, PartialEq, Eq, Structural)]
pub struct WhitelistParams {
    pub whitelisted: bool,
    pub limit: u64,
}

/// What a successful purchase owes in custody transfers: `payment_amount` of
/// the payment asset moves buyer to vault, and `sale_amount` of the sale asset
/// moves vault to buyer, in the same atomic step as the record updates.
#[derive(Clone, Copy, Debug, PartialEq, Eq, Structural)]
pub struct Settlement {
    pub payment_amount: u64,
    pub sale_amount: u64,
}

/// What a successful withdrawal owes: `unsold_tokens` of the sale asset and
/// `proceeds` of the payment asset move vault to owner (a zero amount means
/// the leg is skipped), in the same atomic step as the record reset.
#[derive(Clone, Copy, Debug, PartialEq, Eq, Structural)]
pub struct Withdrawal {
    pub unsold_tokens: u64,
    pub proceeds: u64,
}

} // verus!
