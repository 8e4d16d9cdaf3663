use vstd::prelude::*;

use crate::constants::PRICE_SCALE_FACTOR;
use crate::market::{total_held, Market};
use crate::player_module::Player;
use crate::stock_module::{
    spec_new_momentum, spec_new_price, spec_price_floor, Stock,
};
use crate::transaction_module::{
    buy_applied_player, sell_applied_player, settle_pass_rel, settle_rel, settle_step_rel,
    spec_buy_error, spec_buy_fee, spec_sell_error, spec_sell_fee, spec_total_price,
};

verus! {

/// Inventory conservation: in any well-formed market, every stock's
/// available shares plus the shares of it held across all players equal the
/// supply ceiling fixed at its creation. Every operation of the market
/// ensures well-formedness, so this holds after any settlement pass.
pub proof fn lemma_shares_conserved(m: Market, k: int)
    requires
        m.wf(),
        0 <= k < m.stocks@.len(),
    ensures
        m.stocks@[k].available_shares + total_held(m.players@, m.stocks@[k].id)
            == m.stocks@[k].total_shares,
{
}

/// A confirmed buy moves the buyer's money by exactly the trade value plus
/// the fee, and strictly downward whenever the stock has a positive price.
pub proof fn lemma_confirmed_buy_strictly_decreases_money(
    p: Player,
    p2: Player,
    s: Stock,
    amount: u64,
)
    requires
        s.price_per_share >= 1,
        amount >= 1,
        spec_buy_error(p, s, amount) is None,
        buy_applied_player(p, p2, s, amount),
    ensures
        p2.money == p.money - (spec_total_price(s, amount) + spec_buy_fee(p, s, amount)),
        p2.money < p.money,
{
    assert(spec_total_price(s, amount) >= 1) by (nonlinear_arith)
        requires
            s.price_per_share >= 1,
            amount >= 1,
    ;
    assert(spec_total_price(s, amount) * p.stock_buy_fee >= 0) by (nonlinear_arith)
        requires
            spec_total_price(s, amount) >= 0,
    ;
}

/// A confirmed sell moves the seller's money by exactly the trade value
/// minus the fee, computed by truncating division; with a fee rate of at
/// most the scale factor the fee never exceeds the trade value, so the
/// saturation at zero never engages.
pub proof fn lemma_confirmed_sell_increases_money(p: Player, p2: Player, s: Stock, amount: u64)
    requires
        p.stock_sell_fee <= PRICE_SCALE_FACTOR,
        spec_sell_error(p, s, amount) is None,
        sell_applied_player(p, p2, s, amount),
    ensures
        spec_sell_fee(p, s, amount) <= spec_total_price(s, amount),
        p2.money == p.money + spec_total_price(s, amount) - spec_sell_fee(p, s, amount),
{
    assert(spec_sell_fee(p, s, amount) <= spec_total_price(s, amount)) by (nonlinear_arith)
        requires
            p.stock_sell_fee <= PRICE_SCALE_FACTOR,
            PRICE_SCALE_FACTOR == 1000,
            spec_total_price(s, amount) >= 0,
            spec_sell_fee(p, s, amount) == spec_total_price(s, amount) * p.stock_sell_fee / (
            PRICE_SCALE_FACTOR as int),
    ;
}

/// A price is never updated below 1 nor below the configured floor,
/// whatever the stock state and the draw.
pub proof fn lemma_price_update_floor(s: Stock, noise: int, min_price: u128)
    ensures
        spec_new_price(s, noise, min_price) >= 1,
        spec_new_price(s, noise, min_price) >= min_price,
        spec_new_price(s, noise, min_price) >= spec_price_floor(min_price),
{
}

/// Momentum is clamped to [-100, 100] by every update, whatever the stock
/// state and the draw.
pub proof fn lemma_momentum_clamped(s: Stock, noise: int)
    ensures
        -100 <= spec_new_momentum(s, noise) <= 100,
{
}

/// Along a settlement trace, the steps before an order's own leave it
/// exactly as it was queued, and keep the market well-formed.
proof fn lemma_trace_stable_before(pre: Market, trace: Seq<Market>, i: int, k: int)
    requires
        pre.wf(),
        trace.len() == pre.transactions@.len() + 1,
        trace[0] == pre,
        forall|i2: int|
            0 <= i2 < pre.transactions@.len() ==> #[trigger] settle_step_rel(
                trace[i2],
                trace[i2 + 1],
                i2,
            ),
        0 <= k <= i < pre.transactions@.len(),
    ensures
        trace[k].wf(),
        trace[k].transactions@.len() == pre.transactions@.len(),
        trace[k].transactions@[i] == pre.transactions@[i],
    decreases k,
{
    if k > 0 {
        lemma_trace_stable_before(pre, trace, i, k - 1);
        assert(settle_step_rel(trace[k - 1], trace[k - 1 + 1], k - 1));
        assert(trace[k - 1 + 1] == trace[k]);
    }
}

/// Along a settlement trace, the steps after an order's own leave it with
/// the status its own step gave it.
proof fn lemma_trace_stable_after(pre: Market, trace: Seq<Market>, i: int, k: int)
    requires
        pre.wf(),
        trace.len() == pre.transactions@.len() + 1,
        trace[0] == pre,
        forall|i2: int|
            0 <= i2 < pre.transactions@.len() ==> #[trigger] settle_step_rel(
                trace[i2],
                trace[i2 + 1],
                i2,
            ),
        0 <= i < pre.transactions@.len(),
        i + 1 <= k <= pre.transactions@.len(),
    ensures
        trace[k].transactions@.len() == pre.transactions@.len(),
        trace[k].transactions@[i] == trace[i + 1].transactions@[i],
    decreases k - i,
{
    if k == i + 1 {
        lemma_trace_stable_before(pre, trace, i, i);
        assert(settle_step_rel(trace[i], trace[i + 1], i));
    } else {
        lemma_trace_stable_after(pre, trace, i, k - 1);
        assert(settle_step_rel(trace[k - 1], trace[k - 1 + 1], k - 1));
        assert(trace[k - 1 + 1] == trace[k]);
    }
}

/// A settlement pass settles each order it found Pending exactly once,
/// against the market as the orders before it in the queue left it: around
/// the order's own step stand two markets in the full per-order settlement
/// relation, the first carrying the order exactly as it was queued, the
/// second already carrying its final status. Through that relation the
/// order's money, holding and inventory effects over the whole pass are
/// exact: a confirmed buy debits the trade value plus the truncated fee, a
/// confirmed sell credits the trade value minus it, evaluated at the
/// intermediate price.
pub proof fn lemma_pass_settles_each_order(pre: Market, post: Market, i: int)
    requires
        pre.wf(),
        settle_pass_rel(pre, post),
        0 <= i < pre.transactions@.len(),
        pre.transactions@[i].status is Pending,
    ensures
        exists|m1: Market, m2: Market|
            {
                &&& #[trigger] settle_rel(m1, m2, i)
                &&& m1.wf()
                &&& m1.transactions@.len() == pre.transactions@.len()
                &&& m1.transactions@[i] == pre.transactions@[i]
                &&& m2.transactions@[i] == post.transactions@[i]
            },
{
    let n = pre.transactions@.len() as int;
    let trace = choose|trace: Seq<Market>|
        #![trigger trace.len()]
        {
            &&& trace.len() == pre.transactions@.len() + 1
            &&& trace[0] == pre
            &&& trace[pre.transactions@.len() as int] == post
            &&& (forall|i2: int|
                0 <= i2 < pre.transactions@.len() ==> #[trigger] settle_step_rel(
                    trace[i2],
                    trace[i2 + 1],
                    i2,
                ))
        };
    lemma_trace_stable_before(pre, trace, i, i);
    assert(settle_step_rel(trace[i], trace[i + 1], i));
    assert(settle_rel(trace[i], trace[i + 1], i));
    lemma_trace_stable_after(pre, trace, i, n);
    let m1 = trace[i];
    let m2 = trace[i + 1];
    assert(settle_rel(m1, m2, i) && m1.wf() && m1.transactions@.len() == pre.transactions@.len()
        && m1.transactions@[i] == pre.transactions@[i] && m2.transactions@[i]
        == post.transactions@[i]);
}

} // verus!
