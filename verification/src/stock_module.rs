use vstd::prelude::*;

use crate::constants::{
    DEMAND_IMPACT_DIVISOR, EVENT_END_PERCENT, EVENT_START_PERCENT, HYPE_BONUS,
    MOMENTUM_PERSISTENCE_DEN, MOMENTUM_PERSISTENCE_NUM, MOMENTUM_TERM_DIVISOR, PRICE_SCALE_FACTOR,
    SCANDAL_PENALTY,
};
use crate::errors::MarketError;
use crate::market::{lemma_total_held_fresh, Market};
use crate::player_module::same_player_core;
use crate::transaction_module::{same_tx_core, settle_pass_rel};

verus! {

/// A temporary per-stock event biasing the price upward (hype) or downward
/// (scandal) while it is active.
#[derive(Clone, Copy, PartialEq, Eq, Structural, Debug)]
pub enum TrendingEvent {
    Hype,
    Scandal,
}

/// A tradable instrument: the authoritative record of its price and
/// inventory.
pub struct Stock {
    pub id: u16,
    pub name: String,
    pub description: String,
    /// Unsigned fixed-point price, scaled by PRICE_SCALE_FACTOR.
    pub price_per_share: u128,
    /// Immutable supply ceiling set at creation; always positive.
    pub total_shares: u64,
    /// Shares not currently held by any player.
    pub available_shares: u64,
    /// price_per_share as of the previous tick.
    pub last_price: u128,
    /// Carried directional pressure, always within [-100, 100].
    pub momentum: i64,
    /// Non-negative magnitude bounding per-tick random price noise.
    pub volatility: u64,
    /// Shares bought since the last price update; reset to 0 every tick.
    pub recent_buys: u64,
    /// Shares sold since the last price update; reset to 0 every tick.
    pub recent_sells: u64,
    /// The active event, if any.
    pub trending_event: Option<TrendingEvent>,
}

impl Stock {
    pub open spec fn wf(self) -> bool {
        &&& self.total_shares >= 1
        &&& self.available_shares <= self.total_shares
        &&& -100 <= self.momentum <= 100
    }
}

/// Process-wide tuning constants, set once at initialization and read-only
/// thereafter.
#[derive(Clone, Copy, PartialEq, Eq, Structural, Debug)]
pub struct MarketConfig {
    pub sensitivity: u64,
    pub slippage_factor: u64,
    /// Prices are never updated below this floor (nor below 1).
    pub min_price: u128,
}

/// Everything of a stock except its inventory and demand counters: the
/// fields a trade settlement never touches.
pub open spec fn same_stock_core(a: Stock, b: Stock) -> bool {
    &&& a.id == b.id
    &&& a.name == b.name
    &&& a.description == b.description
    &&& a.price_per_share == b.price_per_share
    &&& a.total_shares == b.total_shares
    &&& a.last_price == b.last_price
    &&& a.momentum == b.momentum
    &&& a.volatility == b.volatility
    &&& a.trending_event == b.trending_event
}

/// Why creating a stock would fail, or None where it succeeds.
pub open spec fn spec_create_stock_error(
    m: Market,
    initial_price: u128,
    total_shares: u64,
) -> Option<MarketError> {
    if total_shares == 0 {
        Some(MarketError::InvalidArgument)
    } else if initial_price * PRICE_SCALE_FACTOR > u128::MAX {
        Some(MarketError::Overflow)
    } else if m.next_stock_id == u16::MAX {
        Some(MarketError::Overflow)
    } else {
        None
    }
}

impl Market {
    /// Set the process-wide market configuration. Repeated calls replace
    /// the previous configuration.
    pub fn init_market_config(
        &mut self,
        sensitivity_scaled: u64,
        slippage_factor_scaled: u64,
        min_price_scaled: u128,
    ) -> (r: Result<(), MarketError>)
        requires
            old(self).wf(),
        ensures
            final(self).wf(),
            r is Ok,
            final(self).config == Some(
                MarketConfig {
                    sensitivity: sensitivity_scaled,
                    slippage_factor: slippage_factor_scaled,
                    min_price: min_price_scaled,
                },
            ),
            final(self).stocks@ == old(self).stocks@,
            final(self).players@ == old(self).players@,
            final(self).transactions@ == old(self).transactions@,
            final(self).upgrades@ == old(self).upgrades@,
            final(self).next_stock_id == old(self).next_stock_id,
            final(self).next_tx_id == old(self).next_tx_id,
            final(self).next_upgrade_id == old(self).next_upgrade_id,
    {
        self.config = Some(
            MarketConfig {
                sensitivity: sensitivity_scaled,
                slippage_factor: slippage_factor_scaled,
                min_price: min_price_scaled,
            },
        );
        Ok(())
    }

    /// Create a new tradable stock. Fails with InvalidArgument when the
    /// supply ceiling is zero and with Overflow when the scaled price does
    /// not fit the integer width or the id space is exhausted; on failure
    /// no row is inserted. On success the new stock starts fully available
    /// at the scaled initial price, with zeroed counters, zero momentum and
    /// no active event.
    pub fn create_stock(
        &mut self,
        name: String,
        description: String,
        initial_price: u128,
        total_shares: u64,
        volatility: u64,
    ) -> (r: Result<u16, MarketError>)
        requires
            old(self).wf(),
        ensures
            final(self).wf(),
            match r {
                Err(e) => *final(self) == *old(self) && spec_create_stock_error(
                    *old(self),
                    initial_price,
                    total_shares,
                ) == Some(e),
                Ok(id) => {
                    &&& spec_create_stock_error(*old(self), initial_price, total_shares) is None
                    &&& id == old(self).next_stock_id
                    &&& final(self).stocks@.len() == old(self).stocks@.len() + 1
                    &&& forall|k: int|
                        0 <= k < old(self).stocks@.len() ==> final(self).stocks@[k] == old(
                            self,
                        ).stocks@[k]
                    &&& final(self).stocks@.last().id == id
                    &&& final(self).stocks@.last().name == name
                    &&& final(self).stocks@.last().description == description
                    &&& final(self).stocks@.last().price_per_share == initial_price
                        * PRICE_SCALE_FACTOR
                    &&& final(self).stocks@.last().last_price == initial_price * PRICE_SCALE_FACTOR
                    &&& final(self).stocks@.last().total_shares == total_shares
                    &&& final(self).stocks@.last().available_shares == total_shares
                    &&& final(self).stocks@.last().momentum == 0
                    &&& final(self).stocks@.last().volatility == volatility
                    &&& final(self).stocks@.last().recent_buys == 0
                    &&& final(self).stocks@.last().recent_sells == 0
                    &&& final(self).stocks@.last().trending_event is None
                    &&& final(self).next_stock_id == old(self).next_stock_id + 1
                },
            },
            final(self).players@ == old(self).players@,
            final(self).transactions@ == old(self).transactions@,
            final(self).upgrades@ == old(self).upgrades@,
            final(self).config == old(self).config,
            final(self).next_tx_id == old(self).next_tx_id,
            final(self).next_upgrade_id == old(self).next_upgrade_id,
    {
        if total_shares == 0 {
            return Err(MarketError::InvalidArgument);
        }
        let price_per_share = match initial_price.checked_mul(PRICE_SCALE_FACTOR) {
            None => {
                return Err(MarketError::Overflow);
            },
            Some(p) => p,
        };
        if self.next_stock_id == u16::MAX {
            return Err(MarketError::Overflow);
        }
        let id = self.next_stock_id;
        let stock = Stock {
            id,
            name,
            description,
            price_per_share,
            total_shares,
            available_shares: total_shares,
            last_price: price_per_share,
            momentum: 0,
            volatility,
            recent_buys: 0,
            recent_sells: 0,
            trending_event: None,
        };
        self.stocks.push(stock);
        self.next_stock_id = id + 1;
        proof {
            assert forall|j: int, i: int|
                0 <= j < self.players@.len() && 0 <= i < self.players@[j].stocks@.len()
                    implies (#[trigger] self.players@[j].stocks@[i]).stock_id != id by {}
            lemma_total_held_fresh(self.players@, id);
        }
        Ok(id)
    }
}


/// Integer division truncating toward zero (the native machine division),
/// for a positive divisor.
pub open spec fn div_trunc(a: int, b: int) -> int {
    if a >= 0 {
        a / b
    } else {
        -((-a) / b)
    }
}

pub open spec fn clamp_int(v: int, lo: int, hi: int) -> int {
    if v < lo {
        lo
    } else if v > hi {
        hi
    } else {
        v
    }
}

/// The demand term of the per-tick change: net demand since the last tick,
/// magnitude-reduced by the impact divisor.
pub open spec fn spec_demand_term(s: Stock) -> int {
    div_trunc(s.recent_buys - s.recent_sells, DEMAND_IMPACT_DIVISOR as int)
}

pub open spec fn spec_momentum_term(s: Stock) -> int {
    div_trunc(s.momentum as int, MOMENTUM_TERM_DIVISOR as int)
}

pub open spec fn spec_event_bias(e: Option<TrendingEvent>) -> int {
    match e {
        Some(TrendingEvent::Hype) => HYPE_BONUS as int,
        Some(TrendingEvent::Scandal) => -(SCANDAL_PENALTY as int),
        None => 0,
    }
}

/// The total per-tick percentage change: noise plus momentum, demand and
/// event terms.
pub open spec fn spec_total_change(s: Stock, noise: int) -> int {
    noise + spec_momentum_term(s) + spec_demand_term(s) + spec_event_bias(s.trending_event)
}

/// The lower clamp applied to every updated price: the configured floor,
/// and never below 1.
pub open spec fn spec_price_floor(min_price: u128) -> int {
    if min_price >= 1 {
        min_price as int
    } else {
        1
    }
}

/// The fixed-point percent application: price times change over 100,
/// truncating toward zero.
pub open spec fn spec_price_delta(s: Stock, noise: int) -> int {
    div_trunc(s.price_per_share * spec_total_change(s, noise), 100)
}

pub open spec fn spec_new_price(s: Stock, noise: int, min_price: u128) -> int {
    if s.price_per_share + spec_price_delta(s, noise) >= spec_price_floor(min_price) {
        s.price_per_share + spec_price_delta(s, noise)
    } else {
        spec_price_floor(min_price)
    }
}

/// Whether the update arithmetic stays inside the integer width for this
/// stock and draw.
pub open spec fn spec_update_fits(s: Stock, noise: int) -> bool {
    let tcp = spec_total_change(s, noise);
    &&& (tcp >= 0 ==> s.price_per_share * tcp <= u128::MAX)
    &&& (tcp >= 0 ==> s.price_per_share + spec_price_delta(s, noise) <= u128::MAX)
    &&& (tcp < 0 ==> s.price_per_share * -tcp <= u128::MAX)
}

/// Momentum after decay: the old momentum scaled by the persistence ratio,
/// truncating toward zero.
pub open spec fn spec_momentum_decayed(m: int) -> int {
    div_trunc(m * MOMENTUM_PERSISTENCE_NUM, MOMENTUM_PERSISTENCE_DEN as int)
}

pub open spec fn spec_new_momentum(s: Stock, noise: int) -> int {
    clamp_int(
        spec_momentum_decayed(s.momentum as int) + spec_total_change(s, noise),
        -100,
        100,
    )
}

/// The Bernoulli event transition: with no active event, start one with a
/// small chance (choosing hype or scandal by the kind roll); with one
/// active, end it with a larger chance.
pub open spec fn spec_next_event(
    cur: Option<TrendingEvent>,
    event_roll: u64,
    kind_roll: u64,
) -> Option<TrendingEvent> {
    match cur {
        None => if event_roll < EVENT_START_PERCENT {
            if kind_roll % 2 == 0 {
                Some(TrendingEvent::Hype)
            } else {
                Some(TrendingEvent::Scandal)
            }
        } else {
            None
        },
        Some(e) => if event_roll < EVENT_END_PERCENT {
            None
        } else {
            Some(e)
        },
    }
}

/// The whole effect of one price update on one stock, for the given draws.
pub open spec fn stock_updated(
    s: Stock,
    s2: Stock,
    noise: int,
    event_roll: u64,
    kind_roll: u64,
    min_price: u128,
) -> bool {
    &&& s2.price_per_share == spec_new_price(s, noise, min_price)
    &&& s2.last_price == s.price_per_share
    &&& s2.momentum == spec_new_momentum(s, noise)
    &&& s2.recent_buys == 0
    &&& s2.recent_sells == 0
    &&& s2.trending_event == spec_next_event(s.trending_event, event_roll, kind_roll)
    &&& s2.id == s.id
    &&& s2.name == s.name
    &&& s2.description == s.description
    &&& s2.total_shares == s.total_shares
    &&& s2.available_shares == s.available_shares
    &&& s2.volatility == s.volatility
}

/// A draw the price update could have made for this stock.
pub open spec fn admissible_draw(s: Stock, noise: int, event_roll: u64, kind_roll: u64) -> bool {
    &&& -(s.volatility as int) <= noise <= s.volatility as int
    &&& event_roll < 100
    &&& kind_roll < 100
}

/// One stock was either updated under some admissible draw, or left exactly
/// as it was because the arithmetic for its draw would have overflowed.
pub open spec fn updated_or_skipped(s: Stock, s2: Stock, min_price: u128) -> bool {
    exists|noise: int, er: u64, kr: u64|
        #[trigger] admissible_draw(s, noise, er, kr) && ((spec_update_fits(s, noise)
            && stock_updated(s, s2, noise, er, kr, min_price)) || (!spec_update_fits(s, noise)
            && s2 == s))
}

/// The deterministic event transition, applied once per tick per stock.
pub fn next_event(cur: Option<TrendingEvent>, event_roll: u64, kind_roll: u64) -> (r: Option<
    TrendingEvent,
>)
    ensures
        r == spec_next_event(cur, event_roll, kind_roll),
{
    match cur {
        None => {
            if event_roll < EVENT_START_PERCENT {
                if kind_roll % 2 == 0 {
                    Some(TrendingEvent::Hype)
                } else {
                    Some(TrendingEvent::Scandal)
                }
            } else {
                None
            }
        },
        Some(e) => {
            if event_roll < EVENT_END_PERCENT {
                None
            } else {
                Some(e)
            }
        },
    }
}

impl Stock {
    /// Recompute this stock's price, momentum, counters and event state
    /// from the given noise and event draws: the deterministic core of the
    /// price update engine, verified for every admissible draw. Fails with
    /// Overflow, changing nothing, exactly when the percent application
    /// would leave the integer width.
    pub fn update_price(
        &mut self,
        min_price: u128,
        noise: i128,
        event_roll: u64,
        kind_roll: u64,
    ) -> (r: Result<(), MarketError>)
        requires
            old(self).wf(),
            -(old(self).volatility as int) <= noise as int <= old(self).volatility as int,
        ensures
            match r {
                Err(e) => {
                    &&& *final(self) == *old(self)
                    &&& e == MarketError::Overflow
                    &&& !spec_update_fits(*old(self), noise as int)
                },
                Ok(()) => {
                    &&& spec_update_fits(*old(self), noise as int)
                    &&& stock_updated(
                        *old(self),
                        *final(self),
                        noise as int,
                        event_roll,
                        kind_roll,
                        min_price,
                    )
                    &&& final(self).wf()
                    &&& final(self).price_per_share >= 1
                    &&& final(self).price_per_share >= min_price
                    &&& -100 <= final(self).momentum <= 100
                },
            },
    {
        let demand_term: i128 = if self.recent_buys >= self.recent_sells {
            ((self.recent_buys - self.recent_sells) / DEMAND_IMPACT_DIVISOR) as i128
        } else {
            -(((self.recent_sells - self.recent_buys) / DEMAND_IMPACT_DIVISOR) as i128)
        };
        let momentum_term: i128 = if self.momentum >= 0 {
            ((self.momentum as u64) / MOMENTUM_TERM_DIVISOR) as i128
        } else {
            -((((-self.momentum) as u64) / MOMENTUM_TERM_DIVISOR) as i128)
        };
        let event_bias: i128 = match self.trending_event {
            Some(TrendingEvent::Hype) => HYPE_BONUS,
            Some(TrendingEvent::Scandal) => -SCANDAL_PENALTY,
            None => 0,
        };
        let tcp: i128 = noise + momentum_term + demand_term + event_bias;
        assert(tcp == spec_total_change(*old(self), noise as int));
        let price = self.price_per_share;
        let candidate: u128;
        if tcp >= 0 {
            let prod = match price.checked_mul(tcp as u128) {
                None => {
                    return Err(MarketError::Overflow);
                },
                Some(v) => v,
            };
            let mag = prod / 100;
            candidate = match price.checked_add(mag) {
                None => {
                    return Err(MarketError::Overflow);
                },
                Some(v) => v,
            };
        } else {
            let neg = (-tcp) as u128;
            proof {
                assert((price as int) * (neg as int) == -((price as int) * (tcp as int)))
                    by (nonlinear_arith)
                    requires
                        (neg as int) == -(tcp as int),
                ;
            }
            let prod = match price.checked_mul(neg) {
                None => {
                    return Err(MarketError::Overflow);
                },
                Some(v) => v,
            };
            let mag = prod / 100;
            candidate = if mag >= price {
                0
            } else {
                price - mag
            };
        }
        let floor = if min_price >= 1 {
            min_price
        } else {
            1
        };
        let new_price = if candidate >= floor {
            candidate
        } else {
            floor
        };
        self.last_price = self.price_per_share;
        self.price_per_share = new_price;
        let m = self.momentum;
        let decayed: i64 = if m >= 0 {
            (((m as u64) * MOMENTUM_PERSISTENCE_NUM) / MOMENTUM_PERSISTENCE_DEN) as i64
        } else {
            -(((((-m) as u64) * MOMENTUM_PERSISTENCE_NUM) / MOMENTUM_PERSISTENCE_DEN) as i64)
        };
        let mnew: i128 = (decayed as i128) + tcp;
        self.momentum = if mnew > 100 {
            100
        } else if mnew < -100 {
            -100
        } else {
            mnew as i64
        };
        self.recent_buys = 0;
        self.recent_sells = 0;
        self.trending_event = next_event(self.trending_event, event_roll, kind_roll);
        Ok(())
    }
}


/// The price update pass as a relation between markets: every row but the
/// stocks is untouched, and every stock is updated under some admissible
/// draw or skipped on an overflowing one.
pub open spec fn price_pass_rel(pre: Market, post: Market) -> bool {
    &&& pre.config is Some
    &&& post.wf()
    &&& post.players@ == pre.players@
    &&& post.transactions@ == pre.transactions@
    &&& post.config == pre.config
    &&& post.upgrades@ == pre.upgrades@
    &&& post.next_stock_id == pre.next_stock_id
    &&& post.next_tx_id == pre.next_tx_id
    &&& post.next_upgrade_id == pre.next_upgrade_id
    &&& post.stocks@.len() == pre.stocks@.len()
    &&& (forall|k: int|
        0 <= k < pre.stocks@.len() ==> #[trigger] updated_or_skipped(
            pre.stocks@[k],
            post.stocks@[k],
            pre.config->0.min_price,
        ))
}

/// What one tick leaves behind: with no configuration the tick fails and
/// nothing moves; otherwise every pending order is settled exactly once and
/// every stock is re-priced (or, where its draw would overflow the
/// arithmetic, left with only its settlement changes for this tick).
pub open spec fn tick_outcome(pre: Market, post: Market, r: Result<(), MarketError>) -> bool {
    &&& post.wf()
    &&& (r is Err <==> pre.config is None)
    &&& (r is Err ==> r == Err::<(), MarketError>(MarketError::NotInitialized) && post == pre)
    &&& (r is Ok ==> {
        &&& post.transactions@.len() == pre.transactions@.len()
        &&& (forall|i: int|
            0 <= i < pre.transactions@.len() ==> same_tx_core(
                pre.transactions@[i],
                post.transactions@[i],
            ))
        &&& (forall|i: int|
            0 <= i < pre.transactions@.len() && !(pre.transactions@[i].status is Pending)
                ==> post.transactions@[i] == pre.transactions@[i])
        &&& (forall|i: int|
            0 <= i < pre.transactions@.len() && pre.transactions@[i].status is Pending ==> (
            post.transactions@[i].status is Confirmed
                || post.transactions@[i].status is Rejected))
        &&& post.players@.len() == pre.players@.len()
        &&& (forall|j: int|
            0 <= j < pre.players@.len() ==> same_player_core(pre.players@[j], post.players@[j]))
        &&& post.stocks@.len() == pre.stocks@.len()
        &&& (forall|k: int|
            0 <= k < pre.stocks@.len() ==> (#[trigger] post.stocks@[k]).id == pre.stocks@[k].id
                && post.stocks@[k].name == pre.stocks@[k].name && post.stocks@[k].description
                == pre.stocks@[k].description && post.stocks@[k].total_shares
                == pre.stocks@[k].total_shares && post.stocks@[k].volatility
                == pre.stocks@[k].volatility)
        &&& (forall|k: int|
            0 <= k < pre.stocks@.len() ==> ((#[trigger] post.stocks@[k]).price_per_share
                >= spec_price_floor(pre.config->0.min_price) && post.stocks@[k].recent_buys == 0
                && post.stocks@[k].recent_sells == 0 && -100 <= post.stocks@[k].momentum <= 100)
                || same_stock_core(pre.stocks@[k], post.stocks@[k]))
        &&& post.config == pre.config
        &&& post.upgrades@ == pre.upgrades@
        &&& post.next_stock_id == pre.next_stock_id
        &&& post.next_tx_id == pre.next_tx_id
        &&& post.next_upgrade_id == pre.next_upgrade_id
        // the tick is exactly a settlement pass followed by a price pass
        &&& (exists|mid: Market|
            #[trigger] settle_pass_rel(pre, mid) && price_pass_rel(mid, post))
    })
}

impl Market {
    /// The price update pass: recompute every stock's price independently
    /// from freshly drawn noise and event rolls. Fails with NotInitialized,
    /// mutating nothing, when the configuration is missing (validated
    /// before any stock is touched). A stock whose draw would overflow the
    /// arithmetic is left exactly as it was for this tick.
    pub fn update_all_prices(&mut self) -> (r: Result<(), MarketError>)
        requires
            old(self).wf(),
        ensures
            final(self).wf(),
            (r is Err <==> old(self).config is None),
            r is Err ==> r == Err::<(), MarketError>(MarketError::NotInitialized) && *final(self)
                == *old(self),
            final(self).players@ == old(self).players@,
            final(self).transactions@ == old(self).transactions@,
            final(self).config == old(self).config,
            final(self).upgrades@ == old(self).upgrades@,
            final(self).next_stock_id == old(self).next_stock_id,
            final(self).next_tx_id == old(self).next_tx_id,
            final(self).next_upgrade_id == old(self).next_upgrade_id,
            final(self).stocks@.len() == old(self).stocks@.len(),
            r is Ok ==> forall|k: int|
                0 <= k < old(self).stocks@.len() ==> updated_or_skipped(
                    old(self).stocks@[k],
                    final(self).stocks@[k],
                    old(self).config->0.min_price,
                ),
            r is Ok ==> price_pass_rel(*old(self), *final(self)),
    {
        let min_price = match self.config {
            None => {
                return Err(MarketError::NotInitialized);
            },
            Some(c) => c.min_price,
        };
        let n = self.stocks.len();
        let mut k: usize = 0;
        while k < n
            invariant
                self.wf(),
                n == self.stocks@.len(),
                k <= n,
                self.players@ == old(self).players@,
                self.transactions@ == old(self).transactions@,
                self.config == old(self).config,
                self.upgrades@ == old(self).upgrades@,
                self.next_stock_id == old(self).next_stock_id,
                self.next_tx_id == old(self).next_tx_id,
                self.next_upgrade_id == old(self).next_upgrade_id,
                self.stocks@.len() == old(self).stocks@.len(),
                old(self).config is Some,
                min_price == old(self).config->0.min_price,
                forall|k2: int| k <= k2 < n ==> self.stocks@[k2] == old(self).stocks@[k2],
                forall|k2: int|
                    0 <= k2 < k ==> updated_or_skipped(
                        old(self).stocks@[k2],
                        self.stocks@[k2],
                        min_price,
                    ),
            decreases n - k,
        {
            let vol = self.stocks[k].volatility;
            let noise = crate::rng::draw_in_range(-(vol as i128), vol as i128);
            let event_roll = crate::rng::draw_percent();
            let kind_roll = crate::rng::draw_percent();
            let ghost pre_stocks = self.stocks@;
            let res = self.stocks[k].update_price(min_price, noise, event_roll, kind_roll);
            proof {
                let s = old(self).stocks@[k as int];
                let s2 = self.stocks@[k as int];
                assert(self.stocks@ =~= pre_stocks.update(k as int, s2));
                assert(admissible_draw(s, noise as int, event_roll, kind_roll));
                if res is Ok {
                    assert(spec_update_fits(s, noise as int) && stock_updated(
                        s,
                        s2,
                        noise as int,
                        event_roll,
                        kind_roll,
                        min_price,
                    ));
                } else {
                    assert(!spec_update_fits(s, noise as int) && s2 == s);
                }
                assert(updated_or_skipped(s, s2, min_price));
            }
            k = k + 1;
        }
        Ok(())
    }

    /// One scheduler tick: validate
    /// the configuration, settle every pending order, then run the price
    /// update pass over all stocks.
    pub fn update_stock_prices(&mut self) -> (r: Result<(), MarketError>)
        requires
            old(self).wf(),
        ensures
            tick_outcome(*old(self), *final(self), r),
    {
        if self.config.is_none() {
            return Err(MarketError::NotInitialized);
        }
        let ghost start = *self;
        let settled = self.update_transactions();
        let ghost mid = *self;
        let res = self.update_all_prices();
        proof {
            assert(res is Ok);
            assert(settle_pass_rel(start, mid));
            assert(price_pass_rel(mid, *self));
            assert forall|k: int| 0 <= k < start.stocks@.len() implies ((
            #[trigger] self.stocks@[k]).price_per_share >= spec_price_floor(
                start.config->0.min_price,
            ) && self.stocks@[k].recent_buys == 0 && self.stocks@[k].recent_sells == 0 && -100
                <= self.stocks@[k].momentum <= 100) || same_stock_core(
                start.stocks@[k],
                self.stocks@[k],
            ) by {
                assert(updated_or_skipped(mid.stocks@[k], self.stocks@[k], mid.config->0.min_price));
                let (noise, er, kr): (int, u64, u64) = choose|noise: int, er: u64, kr: u64|
                    admissible_draw(mid.stocks@[k], noise, er, kr) && ((spec_update_fits(
                        mid.stocks@[k],
                        noise,
                    ) && stock_updated(
                        mid.stocks@[k],
                        self.stocks@[k],
                        noise,
                        er,
                        kr,
                        mid.config->0.min_price,
                    )) || (!spec_update_fits(mid.stocks@[k], noise) && self.stocks@[k]
                        == mid.stocks@[k]));
                if spec_update_fits(mid.stocks@[k], noise) && stock_updated(
                    mid.stocks@[k],
                    self.stocks@[k],
                    noise,
                    er,
                    kr,
                    mid.config->0.min_price,
                ) {
                } else {
                    assert(same_stock_core(start.stocks@[k], mid.stocks@[k]));
                }
            }
        }
        res
    }

    /// The tick entry point the external scheduler invokes: settlement to
    /// completion, then the price update for all stocks.
    pub fn on_tick(&mut self) -> (r: Result<(), MarketError>)
        requires
            old(self).wf(),
        ensures
            tick_outcome(*old(self), *final(self), r),
    {
        self.update_stock_prices()
    }
}

/// Find the index of the stock with the given id.
pub fn find_stock(stocks: &Vec<Stock>, id: u16) -> (r: Option<usize>)
    ensures
        match r {
            Some(k) => k < stocks@.len() && stocks@[k as int].id == id,
            None => forall|i: int| 0 <= i < stocks@.len() ==> (#[trigger] stocks@[i]).id != id,
        },
{
    let mut k: usize = 0;
    while k < stocks.len()
        invariant
            k <= stocks@.len(),
            forall|i: int| 0 <= i < k ==> (#[trigger] stocks@[i]).id != id,
        decreases stocks@.len() - k,
    {
        if stocks[k].id == id {
            return Some(k);
        }
        k = k + 1;
    }
    None
}

} // verus!
