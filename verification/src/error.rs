//! The error kinds that the auction operations surface. Every failure is
//! terminal for the call: no record is mutated and no custody transfer is owed.

use vstd::prelude::*;

verus! {

#[derive(Clone, Copy, Debug, PartialEq, Eq, Structural)]
pub enum LaunchpadError {
    /// The auction is disabled, outside its time window, or the caller does
    /// not own it (legacy owner-mismatch paths).
    InvalidAuction,
    /// The sale asset handed in does not belong to the auction.
    InvalidToken,
    /// The purchase asks for more sale-asset units than remain in the pool.
    InsufficientTokens,
    /// The caller is not the auction owner on an owner-only operation.
    Unauthorized,
    /// Withdrawal was attempted before the auction's end time.
    AuctionNotEnded,
    /// Withdrawal was attempted on a disabled auction.
    AuctionDisabled,
    /// A native-currency call against an auction paid with a fungible token.
    NonNativeAuction,
    /// A fungible-token call against an auction paid with native currency.
    NonSplAuction,
    /// The presale buyer has no whitelist grant.
    NotWhitelisted,
    /// The presale purchase would exceed the buyer's remaining allocation.
    ExceedsLimit,
    /// A presale call against an auction whose presale is not enabled.
    PreSaleNotEnabled,
    /// Malformed presale window at initialization, or a presale call outside
    /// the presale window.
    InvalidPresaleTime,
    /// A general purchase before the presale window has closed.
    PreSaleNotEnded,
    /// A malformed token quantity: a zero payment on a token-paid call, or a
    /// quantity computation that overflows or is undefined.
    InvalidTokenAmount,
    /// A zero payment on a native-currency call.
    InvalidSolAmount,
    /// The auction window is malformed at initialization.
    InvalidAuctionTimes,
    /// The buyer already holds a ticket in this auction.
    AlreadyParticipated,
    /// The payment does not equal the exact price of one ticket.
    InvalidSolFor1ticket,
}

} // verus!
