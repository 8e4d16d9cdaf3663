use vstd::prelude::*;

verus! {

/// Money and prices are fixed-point integers scaled by a factor of 1000,
/// giving three decimal places: a stored value of 12500 stands for a
/// display value of 12.500.
pub const PRICE_SCALE_FACTOR: u128 = 1000;

/// Net demand (shares bought minus sold since the last tick) is divided by
/// this before it moves the price, so a single large trade cannot dominate.
pub const DEMAND_IMPACT_DIVISOR: u64 = 10;

/// Percentage points added to the per-tick price change while a hype event
/// is active on a stock.
pub const HYPE_BONUS: i128 = 5;

/// Percentage points subtracted from the per-tick price change while a
/// scandal event is active on a stock.
pub const SCANDAL_PENALTY: i128 = 5;

/// Carried momentum is divided by this when it enters the per-tick price
/// change.
pub const MOMENTUM_TERM_DIVISOR: u64 = 10;

/// Momentum decays by the ratio of these two every tick before the tick's
/// change is folded in, making it an exponentially decaying moving average.
pub const MOMENTUM_PERSISTENCE_NUM: u64 = 8;
pub const MOMENTUM_PERSISTENCE_DEN: u64 = 10;

/// Chance, in percent, that a stock with no active event starts one on a
/// given tick.
pub const EVENT_START_PERCENT: u64 = 5;

/// Chance, in percent, that an active event on a stock ends on a given tick.
pub const EVENT_END_PERCENT: u64 = 20;

pub const PLAYER_STARTING_MONEY: u128 = 0;
pub const PLAYER_STARTING_PASSIVE_INCOME: u128 = 0;
pub const PLAYER_STARTING_CLICK_POWER: u128 = 1000;
pub const PLAYER_STARTING_CLICK_TIMER_MICROS: i64 = 1_000_000;

/// Fee rates are fixed-point fractions of the trade value, scaled by
/// PRICE_SCALE_FACTOR: 50 means 5 percent.
pub const PLAYER_STARTING_STOCK_BUY_FEE: u64 = 50;
pub const PLAYER_STARTING_STOCK_SELL_FEE: u64 = 50;

pub const PLAYER_UPDATE_INTERVAL_MICROS: u64 = 1_000_000;
pub const STOCK_UPDATE_INTERVAL_MICROS: u64 = 5_000_000;

} // verus!
