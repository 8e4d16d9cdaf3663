use idle_market::{Market, MarketError, Stock, TrendingEvent};

fn bare_stock(price: u128, volatility: u64) -> Stock {
    Stock {
        id: 1,
        name: "A".to_string(),
        description: "a".to_string(),
        price_per_share: price,
        total_shares: 1000,
        available_shares: 1000,
        last_price: price,
        momentum: 0,
        volatility,
        recent_buys: 0,
        recent_sells: 0,
        trending_event: None,
    }
}

// An event roll at or above the start chance keeps a stock event-free.
const NO_EVENT_ROLL: u64 = 99;

#[test]
fn update_price_applies_demand_percent_exactly() {
    let mut s = bare_stock(10_000, 0);
    s.recent_buys = 50;
    // demand term 50 / 10 = 5 percent; no noise, momentum or event
    s.update_price(1, 0, NO_EVENT_ROLL, 0).unwrap();
    assert_eq!(s.price_per_share, 10_500);
    assert_eq!(s.last_price, 10_000);
    assert_eq!(s.momentum, 5);
    assert_eq!(s.recent_buys, 0);
    assert_eq!(s.recent_sells, 0);
    assert_eq!(s.trending_event, None);
}

#[test]
fn update_price_negative_demand_truncates_toward_zero() {
    let mut s = bare_stock(10_000, 0);
    s.recent_sells = 19;
    // net demand -19; -19 / 10 truncates to -1 percent
    s.update_price(1, 0, NO_EVENT_ROLL, 0).unwrap();
    assert_eq!(s.price_per_share, 9_900);
    assert_eq!(s.momentum, -1);
}

#[test]
fn update_price_momentum_decays_and_drifts() {
    let mut s = bare_stock(10_000, 0);
    s.momentum = 20;
    // momentum term 20 / 10 = 2 percent; new momentum 20 * 8 / 10 + 2 = 18
    s.update_price(1, 0, NO_EVENT_ROLL, 0).unwrap();
    assert_eq!(s.price_per_share, 10_200);
    assert_eq!(s.momentum, 18);
}

#[test]
fn update_price_momentum_clamped_to_hundred() {
    let mut s = bare_stock(10_000, 1_000);
    s.momentum = 100;
    // huge noise: momentum would be 80 + 1008 without the clamp
    s.update_price(1, 1_000, NO_EVENT_ROLL, 0).unwrap();
    assert_eq!(s.momentum, 100);
    let mut t = bare_stock(10_000, 1_000);
    t.momentum = -100;
    t.update_price(1, -1_000, NO_EVENT_ROLL, 0).unwrap();
    assert_eq!(t.momentum, -100);
}

#[test]
fn update_price_never_below_floor() {
    // a -100 percent move lands on the configured floor, never below 1
    let mut s = bare_stock(10_000, 100);
    s.update_price(250, -100, NO_EVENT_ROLL, 0).unwrap();
    assert_eq!(s.price_per_share, 250);
    let mut t = bare_stock(10_000, 100);
    t.update_price(0, -100, NO_EVENT_ROLL, 0).unwrap();
    assert_eq!(t.price_per_share, 1);
}

#[test]
fn update_price_event_bias_and_transitions() {
    // an active hype event adds its bonus to the change
    let mut s = bare_stock(10_000, 0);
    s.trending_event = Some(TrendingEvent::Hype);
    s.update_price(1, 0, NO_EVENT_ROLL, 0).unwrap();
    assert_eq!(s.price_per_share, 10_500);
    // the roll kept it active
    assert_eq!(s.trending_event, Some(TrendingEvent::Hype));
    // a scandal subtracts, and a low roll ends it
    let mut t = bare_stock(10_000, 0);
    t.trending_event = Some(TrendingEvent::Scandal);
    t.update_price(1, 0, 0, 0).unwrap();
    assert_eq!(t.price_per_share, 9_500);
    assert_eq!(t.trending_event, None);
    // a low roll on an event-free stock starts one, hype on an even kind roll
    let mut u = bare_stock(10_000, 0);
    u.update_price(1, 0, 0, 2).unwrap();
    assert_eq!(u.trending_event, Some(TrendingEvent::Hype));
    let mut v = bare_stock(10_000, 0);
    v.update_price(1, 0, 0, 3).unwrap();
    assert_eq!(v.trending_event, Some(TrendingEvent::Scandal));
}

#[test]
fn update_price_overflow_leaves_stock_unchanged() {
    let mut s = bare_stock(u128::MAX - 5, 200);
    s.recent_buys = 1000;
    let before_price = s.price_per_share;
    let r = s.update_price(1, 200, NO_EVENT_ROLL, 0);
    assert_eq!(r, Err(MarketError::Overflow));
    assert_eq!(s.price_per_share, before_price);
    assert_eq!(s.recent_buys, 1000);
}

#[test]
fn tick_noise_stays_inside_volatility_bounds() {
    let mut m = Market::new();
    m.init_market_config(20, 10, 1).unwrap();
    m.create_stock("A".to_string(), "a".to_string(), 1000, 100, 10).unwrap();
    for _ in 0..50 {
        let before = m.stocks[0].price_per_share;
        m.on_tick().unwrap();
        let after = m.stocks[0].price_per_share;
        // with zero demand and zero momentum at most the noise and an event
        // bias move the price: |change| <= (10 + 5) percent, on top of the
        // momentum the previous ticks built up (at most 100 / 10 percent)
        let hi = before + before * 25 / 100;
        let lo = before - before * 25 / 100;
        assert!(after <= hi, "price {after} above bound {hi}");
        assert!(after >= lo.max(1), "price {after} below bound {lo}");
        assert!(m.stocks[0].momentum >= -100 && m.stocks[0].momentum <= 100);
        assert_eq!(m.stocks[0].recent_buys, 0);
        assert_eq!(m.stocks[0].recent_sells, 0);
        assert!(m.stocks[0].price_per_share >= 1);
    }
}

#[test]
fn first_tick_with_zero_volatility_is_deterministic() {
    let mut m = Market::new();
    m.init_market_config(20, 10, 1).unwrap();
    m.create_stock("A".to_string(), "a".to_string(), 10, 1000, 0).unwrap();
    m.on_tick().unwrap();
    // no demand, no momentum, no event yet: the price holds
    assert_eq!(m.stocks[0].price_per_share, 10_000);
    assert_eq!(m.stocks[0].last_price, 10_000);
}
