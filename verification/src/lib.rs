//! A token-sale auction engine: an owner deposits a fixed supply of a sale
//! asset, configures pricing and timing, and buyers exchange a payment asset
//! (native currency or a fungible token) for units of the sale asset, subject
//! to time windows, per-buyer allocation limits, and a whitelist-gated presale.
//!
//! The library holds the auction state machine and the fund-settlement rules:
//! which calls are admissible, what each one pays and receives, and how the
//! records change. The ledger substrate around it — durable keyed storage,
//! signature checks, the custody-transfer primitive, and the clock — is an
//! external collaborator: callers load the records, pass the current time in,
//! and perform the custody transfers that a successful call returns.

pub mod error;
pub mod laws;
pub mod lifecycle;
pub mod presale;
pub mod purchase;
pub mod state;
pub mod withdraw;

pub use error::LaunchpadError;
pub use lifecycle::add_token;
pub use lifecycle::init_auction;
pub use presale::pre_sale_buy;
pub use presale::pre_sale_buy_using_sol;
pub use presale::pre_sale_buy_using_spl;
pub use presale::whitelist;
pub use purchase::buy_token;
pub use purchase::buy_token_using_sol;
pub use purchase::buy_token_using_spl;
pub use state::Auction;
pub use state::Buyer;
pub use state::InitAuctionParams;
pub use state::Settlement;
pub use state::Whitelist;
pub use state::WhitelistParams;
pub use state::Withdrawal;
pub use withdraw::withdraw_funds;
