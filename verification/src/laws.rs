//! Laws that span whole runs of operations, proved from the contracts of the
//! purchase paths: however many purchases succeed against one auction, the
//! supply they hand out in total never exceeds what the auction started with.

use vstd::prelude::*;

use crate::error::LaunchpadError;
use crate::presale::presale_outcome;
use crate::presale::presale_updates;
use crate::purchase::buy_outcome;
use crate::purchase::buy_updates;
use crate::state::Auction;
use crate::state::Buyer;
use crate::state::Settlement;
use crate::state::Whitelist;

verus! {

/// One successful sale of `sale_amount` units, as every purchase path leaves
/// it: the record was valid, the supply covered the sale, the pool size is
/// untouched and the remaining supply drops by exactly the sale.
pub open spec fn successful_sale_step(pre: Auction, post: Auction, sale_amount: u64) -> bool {
    &&& pre.inv()
    &&& sale_amount <= pre.remaining_tokens
    &&& post.tokens_in_pool == pre.tokens_in_pool
    &&& post.remaining_tokens == pre.remaining_tokens - sale_amount
}

/// The total of a run of sale amounts.
pub open spec fn sale_total(sales: Seq<u64>) -> int
    decreases sales.len(),
{
    if sales.len() == 0 {
        0
    } else {
        sale_total(sales.drop_last()) + sales.last()
    }
}

/// A run of successful sales against one auction: `states` walks the record
/// through every purchase, and `sales[i]` is what the `i`-th purchase sold.
pub open spec fn sale_history(states: Seq<Auction>, sales: Seq<u64>) -> bool {
    &&& states.len() == sales.len() + 1
    &&& forall|i: int|
        0 <= i < sales.len() ==> successful_sale_step(states[i], states[i + 1], sales[i])
}

/// Law: across any run of successful purchases against one auction, the
/// remaining supply drops by exactly the total sold, so the total sold never
/// exceeds the supply the auction started the run with.
pub proof fn lemma_sales_never_exceed_supply(states: Seq<Auction>, sales: Seq<u64>)
    requires
        sale_history(states, sales),
    ensures
        sale_total(sales) == states[0].remaining_tokens - states[states.len() - 1].remaining_tokens,
        sale_total(sales) <= states[0].tokens_in_pool,
    decreases sales.len(),
{
    if sales.len() == 0 {
    } else {
        let n = sales.len() as int;
        assert forall|i: int| 0 <= i < n - 1 implies successful_sale_step(
            states.drop_last()[i],
            states.drop_last()[i + 1],
            sales.drop_last()[i],
        ) by {
            assert(successful_sale_step(states[i], states[i + 1], sales[i]));
        }
        lemma_sales_never_exceed_supply(states.drop_last(), sales.drop_last());
        assert(states.drop_last()[0] == states[0]);
        assert(states.drop_last()[states.drop_last().len() - 1] == states[n - 1]);
        assert(successful_sale_step(states[0], states[1], sales[0]));
        assert(successful_sale_step(states[n - 1], states[n], sales[n - 1]));
    }
}

/// A successful general purchase is a `successful_sale_step` of its
/// settlement's sale amount: the engine's contracts feed the law above.
pub proof fn lemma_buy_is_sale_step(
    pre_auction: Auction,
    pre_buyer: Buyer,
    post_auction: Auction,
    post_buyer: Buyer,
    now: i64,
    native_call: bool,
    payment_amount: u64,
    r: Result<Settlement, LaunchpadError>,
)
    requires
        pre_auction.inv(),
        r == buy_outcome(pre_auction, pre_buyer, now, native_call, payment_amount),
        buy_updates(pre_auction, pre_buyer, post_auction, post_buyer, r),
        r is Ok,
    ensures
        successful_sale_step(pre_auction, post_auction, r->Ok_0.sale_amount),
{
}

/// A successful presale purchase is a `successful_sale_step` as well.
pub proof fn lemma_presale_buy_is_sale_step(
    pre_auction: Auction,
    pre_grant: Whitelist,
    post_auction: Auction,
    post_grant: Whitelist,
    now: i64,
    native_call: bool,
    payment_amount: u64,
    r: Result<Settlement, LaunchpadError>,
)
    requires
        pre_auction.inv(),
        r == presale_outcome(pre_auction, pre_grant, now, native_call, payment_amount),
        presale_updates(pre_auction, pre_grant, post_auction, post_grant, r),
        r is Ok,
    ensures
        successful_sale_step(pre_auction, post_auction, r->Ok_0.sale_amount),
{
}

} // verus!
