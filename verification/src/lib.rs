//! A simulated stock market for an idle-clicker game: players accumulate
//! currency and trade shares whose prices evolve autonomously on a fixed
//! tick. The core here is the market simulation and order-settlement
//! engine: the periodic price-update algorithm (demand, momentum,
//! volatility, random events) and the transaction state machine that
//! settles pending buy and sell orders against player balances and share
//! inventory under fixed-point arithmetic with overflow protection.
//!
//! All state lives in a [`market::Market`] value, the in-memory model of
//! the host's row store; the host layer owns the store, the scheduler and
//! player identity, and calls in with plain values.

mod constants;
mod errors;
mod initializer;
mod laws;
mod market;
mod player_module;
mod rng;
mod stock_module;
mod transaction_module;
mod upgrades_module;

pub use constants::{
    DEMAND_IMPACT_DIVISOR, EVENT_END_PERCENT, EVENT_START_PERCENT, HYPE_BONUS,
    MOMENTUM_PERSISTENCE_DEN, MOMENTUM_PERSISTENCE_NUM, MOMENTUM_TERM_DIVISOR,
    PLAYER_STARTING_CLICK_POWER, PLAYER_STARTING_CLICK_TIMER_MICROS, PLAYER_STARTING_MONEY,
    PLAYER_STARTING_PASSIVE_INCOME, PLAYER_STARTING_STOCK_BUY_FEE, PLAYER_STARTING_STOCK_SELL_FEE,
    PLAYER_UPDATE_INTERVAL_MICROS, PRICE_SCALE_FACTOR, SCANDAL_PENALTY,
    STOCK_UPDATE_INTERVAL_MICROS,
};
pub use errors::{spec_message, MarketError};
pub use initializer::{
    init_stocks, init_upgrades, initializer, standard_stocks_added, standard_upgrades_added,
    upgrade_row_is,
};
pub use laws::{
    lemma_confirmed_buy_strictly_decreases_money, lemma_confirmed_sell_increases_money,
    lemma_momentum_clamped, lemma_pass_settles_each_order, lemma_price_update_floor,
    lemma_shares_conserved,
};
pub use market::{find_player, total_held, Market};
pub use player_module::{
    add_holding, find_holding, holding_amount, holdings_wf, passive_credited, player_holding,
    same_player_but_online, same_player_core, sat_add_u128, starting_player, sub_holding,
    trimmed_of, Player, StockType,
};
pub use stock_module::{
    admissible_draw, clamp_int, div_trunc, find_stock, next_event, price_pass_rel,
    same_stock_core, spec_create_stock_error, spec_demand_term, spec_event_bias,
    spec_momentum_decayed, spec_momentum_term, spec_new_momentum, spec_new_price, spec_next_event,
    spec_price_delta, spec_price_floor, spec_total_change, spec_update_fits, stock_updated,
    tick_outcome, updated_or_skipped, MarketConfig, Stock, TrendingEvent,
};
pub use transaction_module::{
    buy_applied_player, buy_applied_stock, rows_unchanged, same_tx_core, sell_applied_player,
    sell_applied_stock, settle_frame, settle_pass_rel, settle_rel, settle_step_rel, spec_buy_cost,
    spec_buy_error, spec_buy_fee, spec_create_tx_error, spec_sell_error, spec_sell_fee,
    spec_sell_proceeds, spec_total_price, spec_trade_error, trade_applied_player,
    trade_applied_stock, Transaction, TransactionStatus, TransactionType,
};
pub use upgrades_module::{
    find_upgrade, player_owns_upgrade, sat_sub_i64, spec_timer_delta, spec_upgrade_cost,
    upgrade_applied, Upgrades,
};
