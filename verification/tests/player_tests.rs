use idle_market::{initializer, Market, MarketError, TransactionType};

#[test]
fn connect_creates_row_once_and_tracks_online() {
    let mut m = Market::new();
    m.identity_connected(7, 5);
    assert_eq!(m.players.len(), 1);
    assert_eq!(m.players[0].identity, 7);
    assert_eq!(m.players[0].money, 0);
    assert_eq!(m.players[0].username, None);
    assert!(m.players[0].online);
    assert_eq!(m.players[0].last_click, 5);
    // a second connect only flips the flag back on
    m.identity_disconnected(7);
    assert!(!m.players[0].online);
    m.identity_connected(7, 99);
    assert_eq!(m.players.len(), 1);
    assert!(m.players[0].online);
    assert_eq!(m.players[0].last_click, 5);
    // disconnecting an unknown identity is ignored
    m.identity_disconnected(8);
    assert_eq!(m.players.len(), 1);
}

#[test]
fn click_respects_cooldown() {
    let mut m = Market::new();
    m.identity_connected(7, 0);
    // the starting click timer is one second of microseconds
    let r = m.increase_money(7, 999_999);
    assert_eq!(r, Err(MarketError::InvalidArgument));
    assert_eq!(m.players[0].money, 0);
    m.increase_money(7, 1_000_000).unwrap();
    assert_eq!(m.players[0].money, 1000);
    assert_eq!(m.players[0].last_click, 1_000_000);
    assert_eq!(m.increase_money(8, 2_000_000), Err(MarketError::NotFound));
}

#[test]
fn click_cooldown_overflow_reported() {
    let mut m = Market::new();
    m.identity_connected(7, 0);
    m.players[0].last_click = i64::MAX - 1;
    let r = m.increase_money(7, i64::MAX);
    assert_eq!(r, Err(MarketError::Overflow));
}

#[test]
fn passive_income_credited_every_player_tick() {
    let mut m = Market::new();
    m.identity_connected(1, 0);
    m.identity_connected(2, 0);
    m.players[0].passive_income = 200;
    m.update_players().unwrap();
    assert_eq!(m.players[0].money, 200);
    assert_eq!(m.players[1].money, 0);
    m.update_players().unwrap();
    assert_eq!(m.players[0].money, 400);
}

#[test]
fn passive_income_saturates_at_the_top() {
    let mut m = Market::new();
    m.identity_connected(1, 0);
    m.players[0].money = u128::MAX - 100;
    m.players[0].passive_income = 200;
    m.update_players().unwrap();
    assert_eq!(m.players[0].money, u128::MAX);
}

#[test]
fn set_name_trims_and_validates() {
    let mut m = Market::new();
    m.identity_connected(7, 0);
    assert_eq!(m.set_name(7, "   ".to_string()), Err(MarketError::InvalidArgument));
    assert_eq!(m.players[0].username, None);
    assert_eq!(m.set_name(8, "bob".to_string()), Err(MarketError::NotFound));
    m.set_name(7, "  alice  ".to_string()).unwrap();
    assert_eq!(m.players[0].username.as_deref(), Some("alice"));
}

#[test]
fn buy_upgrade_charges_and_applies_bonuses() {
    let mut m = Market::new();
    m.add_upgrade(
        "starter".to_string(),
        "Starter".to_string(),
        "All three bonuses.".to_string(),
        1,
        1,
        Some(200),
        Some(2),
        Some(100_000),
    )
    .unwrap();
    m.identity_connected(7, 0);
    // the upgrade costs 1 display unit = 1000 fixed-point; one click pays it
    assert_eq!(m.buy_upgrade(7, 1), Err(MarketError::InsufficientFunds));
    m.increase_money(7, 1_000_000).unwrap();
    m.buy_upgrade(7, 1).unwrap();
    assert_eq!(m.players[0].money, 0);
    assert_eq!(m.players[0].passive_income, 200);
    assert_eq!(m.players[0].click_power, 1002);
    assert_eq!(m.players[0].click_timer, 1_000_000 - 100_000);
    assert_eq!(m.players[0].upgrades, vec![1]);
    // owning it already is rejected, as is an unknown upgrade or player
    assert_eq!(m.buy_upgrade(7, 1), Err(MarketError::InvalidArgument));
    assert_eq!(m.buy_upgrade(7, 2), Err(MarketError::NotFound));
    assert_eq!(m.buy_upgrade(8, 1), Err(MarketError::NotFound));
}

#[test]
fn upgrade_cost_overflow_reported() {
    let mut m = Market::new();
    m.add_upgrade(
        "golden".to_string(),
        "Golden".to_string(),
        "Unpayable.".to_string(),
        1,
        u128::MAX / 1000 + 1,
        None,
        None,
        None,
    )
    .unwrap();
    m.identity_connected(7, 0);
    assert_eq!(m.buy_upgrade(7, 1), Err(MarketError::Overflow));
}

#[test]
fn initializer_seeds_config_stocks_and_upgrades() {
    let mut m = Market::new();
    initializer(&mut m).unwrap();
    let cfg = m.config.unwrap();
    assert_eq!(cfg.sensitivity, 20);
    assert_eq!(cfg.slippage_factor, 10);
    assert_eq!(cfg.min_price, 1);
    assert_eq!(m.stocks.len(), 6);
    assert_eq!(m.stocks[0].name, "QuantumCompute");
    assert_eq!(m.stocks[0].price_per_share, 100_000);
    assert_eq!(m.stocks[0].total_shares, 1_000_000_000_000_000);
    assert_eq!(m.stocks[5].name, "GenAILabs");
    assert_eq!(m.stocks[5].price_per_share, 250_000);
    assert!(m.stocks.iter().all(|s| s.volatility == 50
        && s.available_shares == s.total_shares
        && s.momentum == 0
        && s.trending_event.is_none()));
    assert_eq!(m.upgrades.len(), 8);
    assert_eq!(m.upgrades[0].identifier, "passive_income_lv1");
    assert_eq!(m.upgrades[0].cost, 10_000);
    assert_eq!(m.upgrades[0].passive_income_bonus, Some(200));
    assert_eq!(m.upgrades[7].identifier, "turbo_clicks");
    assert_eq!(m.upgrades[7].click_timer_bonus, Some(500_000));
    // the seeded market accepts orders
    m.identity_connected(1, 0);
    m.create_transaction(1, 1, 1, TransactionType::Buy, 0).unwrap();
    m.on_tick().unwrap();
}

#[test]
fn error_messages_are_stable() {
    assert_eq!(MarketError::NotFound.message(), "not found");
    assert_eq!(MarketError::InvalidArgument.message(), "invalid argument");
    assert_eq!(MarketError::InsufficientFunds.message(), "not enough money");
    assert_eq!(MarketError::InsufficientShares.message(), "not enough shares");
    assert_eq!(MarketError::Overflow.message(), "arithmetic overflow");
    assert_eq!(
        MarketError::NotInitialized.message(),
        "market configuration not initialized"
    );
}

#[test]
fn accessors_reflect_the_rows() {
    let mut m = Market::new();
    m.init_market_config(20, 10, 1).unwrap();
    m.create_stock("A".to_string(), "a".to_string(), 3, 10, 0).unwrap();
    assert_eq!(m.stocks_list().len(), 1);
    assert_eq!(m.stocks_list()[0].price_per_share, 3000);
    assert!(m.get_player(7).is_none());
    m.identity_connected(7, 0);
    let p = m.get_player(7).unwrap();
    assert_eq!(p.identity, 7);
    assert_eq!(p.money, 0);
}
