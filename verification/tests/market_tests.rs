use idle_market::{Market, MarketError, TransactionStatus, TransactionType};

fn ready_market() -> Market {
    let mut m = Market::new();
    m.init_market_config(20, 10, 1).unwrap();
    m
}

/// Give a player money through clicks: each click credits the starting
/// click power (1000 fixed-point units).
fn click_times(m: &mut Market, identity: u64, times: u64) {
    for i in 0..times {
        let now = ((i + 1) as i64) * 1_000_000;
        m.increase_money(identity, now).unwrap();
    }
}

#[test]
fn create_stock_scales_initial_price() {
    let mut m = ready_market();
    let id = m
        .create_stock("A".to_string(), "a stock".to_string(), 10, 1000, 0)
        .unwrap();
    assert_eq!(id, 1);
    assert_eq!(m.stocks[0].price_per_share, 10000);
    assert_eq!(m.stocks[0].last_price, 10000);
    assert_eq!(m.stocks[0].total_shares, 1000);
    assert_eq!(m.stocks[0].available_shares, 1000);
    assert_eq!(m.stocks[0].momentum, 0);
    assert_eq!(m.stocks[0].recent_buys, 0);
    assert_eq!(m.stocks[0].recent_sells, 0);
}

#[test]
fn create_stock_zero_shares_rejected() {
    let mut m = ready_market();
    let r = m.create_stock("Z".to_string(), "no shares".to_string(), 10, 0, 0);
    assert_eq!(r, Err(MarketError::InvalidArgument));
    assert_eq!(m.stocks.len(), 0);
}

#[test]
fn create_stock_price_overflow_rejected() {
    let mut m = ready_market();
    let r = m.create_stock(
        "H".to_string(),
        "too pricey".to_string(),
        u128::MAX / 1000 + 1,
        10,
        0,
    );
    assert_eq!(r, Err(MarketError::Overflow));
    assert_eq!(m.stocks.len(), 0);
}

#[test]
fn buy_with_no_money_rejected() {
    let mut m = ready_market();
    let sid = m
        .create_stock("A".to_string(), "a".to_string(), 10, 1000, 0)
        .unwrap();
    m.identity_connected(7, 0);
    assert_eq!(m.players[0].money, 0);
    let r = m.buy_stock(7, sid, 1);
    assert_eq!(r, Err(MarketError::InsufficientFunds));
    assert_eq!(m.stocks[0].available_shares, 1000);
    assert_eq!(m.players[0].money, 0);
}

#[test]
fn buy_unknown_player_or_stock_rejected() {
    let mut m = ready_market();
    let sid = m
        .create_stock("A".to_string(), "a".to_string(), 1, 1000, 0)
        .unwrap();
    assert_eq!(m.buy_stock(9, sid, 1), Err(MarketError::NotFound));
    m.identity_connected(9, 0);
    assert_eq!(m.buy_stock(9, sid + 1, 1), Err(MarketError::NotFound));
    assert_eq!(m.buy_stock(9, sid, 0), Err(MarketError::InvalidArgument));
}

#[test]
fn buy_and_sell_move_money_and_holdings_exactly() {
    let mut m = ready_market();
    // price 1.000 scaled to 1000; buy fee 5%, sell fee 5%
    let sid = m
        .create_stock("A".to_string(), "a".to_string(), 1, 1000, 0)
        .unwrap();
    m.identity_connected(7, 0);
    click_times(&mut m, 7, 60);
    assert_eq!(m.players[0].money, 60_000);
    // buy 50: total 50_000, fee 50_000 * 50 / 1000 = 2_500
    m.buy_stock(7, sid, 50).unwrap();
    assert_eq!(m.players[0].money, 60_000 - 52_500);
    assert_eq!(m.stocks[0].available_shares, 950);
    assert_eq!(m.stocks[0].recent_buys, 50);
    assert_eq!(m.players[0].stocks.len(), 1);
    assert_eq!(m.players[0].stocks[0].stock_id, sid);
    assert_eq!(m.players[0].stocks[0].amount, 50);
    // sell 20: total 20_000, fee 1_000, proceeds 19_000
    m.sell_stock(7, sid, 20).unwrap();
    assert_eq!(m.players[0].money, 7_500 + 19_000);
    assert_eq!(m.stocks[0].available_shares, 970);
    assert_eq!(m.stocks[0].recent_sells, 20);
    assert_eq!(m.players[0].stocks[0].amount, 30);
    // sell the rest: the zero entry is removed, never retained
    m.sell_stock(7, sid, 30).unwrap();
    assert_eq!(m.players[0].stocks.len(), 0);
    assert_eq!(m.stocks[0].available_shares, 1000);
    // holdings are gone: another sell is rejected
    assert_eq!(m.sell_stock(7, sid, 1), Err(MarketError::InsufficientShares));
}

#[test]
fn inventory_conserved_across_trades() {
    let mut m = ready_market();
    let sid = m
        .create_stock("A".to_string(), "a".to_string(), 1, 500, 0)
        .unwrap();
    m.identity_connected(1, 0);
    m.identity_connected(2, 0);
    click_times(&mut m, 1, 300);
    click_times(&mut m, 2, 300);
    m.buy_stock(1, sid, 100).unwrap();
    m.buy_stock(2, sid, 40).unwrap();
    m.sell_stock(1, sid, 30).unwrap();
    let held: u64 = m
        .players
        .iter()
        .flat_map(|p| p.stocks.iter())
        .filter(|h| h.stock_id == sid)
        .map(|h| h.amount)
        .sum();
    assert_eq!(m.stocks[0].available_shares + held, m.stocks[0].total_shares);
}

#[test]
fn buy_more_than_available_rejected() {
    let mut m = ready_market();
    let sid = m
        .create_stock("A".to_string(), "a".to_string(), 1, 10, 0)
        .unwrap();
    m.identity_connected(7, 0);
    click_times(&mut m, 7, 100);
    let r = m.buy_stock(7, sid, 11);
    assert_eq!(r, Err(MarketError::InsufficientShares));
    assert_eq!(m.stocks[0].available_shares, 10);
}

#[test]
fn pending_orders_settle_in_one_pass() {
    let mut m = ready_market();
    let sid = m
        .create_stock("A".to_string(), "a".to_string(), 1, 1000, 0)
        .unwrap();
    m.identity_connected(1, 0);
    m.identity_connected(2, 0);
    click_times(&mut m, 1, 100);
    click_times(&mut m, 2, 100);
    // player 2 first acquires 50 shares, and a tick clears the counters;
    // with zero volatility the tick is deterministic: demand 50 moves the
    // price by 50 / 10 = 5 percent
    m.buy_stock(2, sid, 50).unwrap();
    m.on_tick().unwrap();
    assert_eq!(m.stocks[0].recent_buys, 0);
    assert_eq!(m.stocks[0].recent_sells, 0);
    assert_eq!(m.stocks[0].price_per_share, 1050);
    assert_eq!(m.stocks[0].last_price, 1000);
    assert_eq!(m.stocks[0].momentum, 5);
    let avail_before = m.stocks[0].available_shares;
    let money1_before = m.players[0].money;
    let money2_before = m.players[1].money;
    // two pending orders in one pass: a buy of 50 then a sell of 50
    let t1 = m
        .create_transaction(1, sid, 50, TransactionType::Buy, 5)
        .unwrap();
    let t2 = m
        .create_transaction(2, sid, 50, TransactionType::Sell, 6)
        .unwrap();
    assert_eq!(m.transactions.len(), 2);
    assert_eq!(m.transactions[0].status, TransactionStatus::Pending);
    m.update_transactions().unwrap();
    assert_eq!(m.transactions[0].id, t1);
    assert_eq!(m.transactions[1].id, t2);
    assert_eq!(m.transactions[0].status, TransactionStatus::Confirmed);
    assert_eq!(m.transactions[1].status, TransactionStatus::Confirmed);
    // net inventory unchanged; demand counters record both legs
    assert_eq!(m.stocks[0].available_shares, avail_before);
    assert_eq!(m.stocks[0].recent_buys, 50);
    assert_eq!(m.stocks[0].recent_sells, 50);
    // the buyer paid 50 * 1050 plus the 5 percent fee, exactly
    assert_eq!(m.players[0].money, money1_before - 52_500 - 2_625);
    // the seller received 50 * 1050 minus the 5 percent fee, exactly
    assert_eq!(m.players[1].money, money2_before + 52_500 - 2_625);
    assert_eq!(m.players[0].stocks[0].amount, 50);
    assert!(m.players[1].stocks.is_empty());
    // the next price update resets the counters
    m.update_stock_prices().unwrap();
    assert_eq!(m.stocks[0].recent_buys, 0);
    assert_eq!(m.stocks[0].recent_sells, 0);
}

#[test]
fn settled_status_is_terminal() {
    let mut m = ready_market();
    let sid = m
        .create_stock("A".to_string(), "a".to_string(), 1, 1000, 0)
        .unwrap();
    m.identity_connected(1, 0);
    // no money: the buy order is rejected at settlement
    m.create_transaction(1, sid, 5, TransactionType::Buy, 1).unwrap();
    m.update_transactions().unwrap();
    assert_eq!(m.transactions[0].status, TransactionStatus::Rejected);
    // terminal statuses are never revisited, even with money available
    click_times(&mut m, 1, 100);
    m.update_transactions().unwrap();
    assert_eq!(m.transactions[0].status, TransactionStatus::Rejected);
    assert_eq!(m.players[0].stocks.len(), 0);
}

#[test]
fn settlement_overflow_rejects_only_that_order() {
    let mut m = ready_market();
    // a stock whose price times two shares leaves the integer width
    let huge = m
        .create_stock("H".to_string(), "huge".to_string(), u128::MAX / 1000, 10, 0)
        .unwrap();
    let small = m
        .create_stock("A".to_string(), "a".to_string(), 1, 1000, 0)
        .unwrap();
    m.identity_connected(1, 0);
    click_times(&mut m, 1, 100);
    m.create_transaction(1, huge, 2, TransactionType::Buy, 1).unwrap();
    m.create_transaction(1, small, 10, TransactionType::Buy, 2).unwrap();
    m.update_transactions().unwrap();
    assert_eq!(m.transactions[0].status, TransactionStatus::Rejected);
    assert_eq!(m.transactions[1].status, TransactionStatus::Confirmed);
}

#[test]
fn create_transaction_validates_inputs() {
    let mut m = ready_market();
    let sid = m
        .create_stock("A".to_string(), "a".to_string(), 1, 1000, 0)
        .unwrap();
    assert_eq!(
        m.create_transaction(1, sid, 5, TransactionType::Buy, 0),
        Err(MarketError::NotFound)
    );
    m.identity_connected(1, 0);
    assert_eq!(
        m.create_transaction(1, sid + 1, 5, TransactionType::Buy, 0),
        Err(MarketError::NotFound)
    );
    assert_eq!(
        m.create_transaction(1, sid, 0, TransactionType::Buy, 0),
        Err(MarketError::InvalidArgument)
    );
    let id = m
        .create_transaction(1, sid, 5, TransactionType::Buy, 9)
        .unwrap();
    assert_eq!(id, 1);
    assert_eq!(m.transactions[0].sender, 1);
    assert_eq!(m.transactions[0].stock_id, sid);
    assert_eq!(m.transactions[0].amount, 5);
    assert_eq!(m.transactions[0].timestamp, 9);
    assert_eq!(m.transactions[0].status, TransactionStatus::Pending);
}

#[test]
fn transactions_of_filters_by_sender_and_status() {
    let mut m = ready_market();
    let sid = m
        .create_stock("A".to_string(), "a".to_string(), 1, 1000, 0)
        .unwrap();
    m.identity_connected(1, 0);
    m.identity_connected(2, 0);
    click_times(&mut m, 1, 100);
    m.create_transaction(1, sid, 5, TransactionType::Buy, 1).unwrap();
    m.create_transaction(2, sid, 5, TransactionType::Buy, 2).unwrap();
    m.update_transactions().unwrap();
    m.create_transaction(1, sid, 3, TransactionType::Buy, 3).unwrap();
    let confirmed = m.transactions_of(1, TransactionStatus::Confirmed);
    assert_eq!(confirmed.len(), 1);
    assert_eq!(confirmed[0].amount, 5);
    let pending = m.transactions_of(1, TransactionStatus::Pending);
    assert_eq!(pending.len(), 1);
    assert_eq!(pending[0].amount, 3);
    let rejected = m.transactions_of(2, TransactionStatus::Rejected);
    assert_eq!(rejected.len(), 1);
}

#[test]
fn tick_without_config_fails_and_changes_nothing() {
    let mut m = Market::new();
    let r = m.on_tick();
    assert_eq!(r, Err(MarketError::NotInitialized));
    let r2 = m.update_stock_prices();
    assert_eq!(r2, Err(MarketError::NotInitialized));
}

#[test]
fn sell_proceeds_saturate_when_fee_exceeds_value() {
    let mut m = ready_market();
    let sid = m
        .create_stock("A".to_string(), "a".to_string(), 1, 1000, 0)
        .unwrap();
    m.identity_connected(7, 0);
    click_times(&mut m, 7, 60);
    m.buy_stock(7, sid, 10).unwrap();
    let money_before = m.players[0].money;
    // a fee rate above the scale factor eats the whole trade value
    m.players[0].stock_sell_fee = 2000;
    m.sell_stock(7, sid, 10).unwrap();
    assert_eq!(m.players[0].money, money_before);
    assert_eq!(m.stocks[0].available_shares, 1000);
}

#[test]
fn fees_use_truncating_division() {
    let mut m = ready_market();
    let sid = m
        .create_stock("A".to_string(), "a".to_string(), 1, 1000, 0)
        .unwrap();
    m.identity_connected(7, 0);
    click_times(&mut m, 7, 1);
    // a price that does not divide evenly: 0.333 fixed-point
    m.stocks[0].price_per_share = 333;
    // buy 1: total 333, fee 333 * 50 / 1000 truncates to 16 (not 16.65)
    m.buy_stock(7, sid, 1).unwrap();
    assert_eq!(m.players[0].money, 1000 - 333 - 16);
    // sell 1: fee truncates the same way, proceeds 333 - 16 = 317
    m.sell_stock(7, sid, 1).unwrap();
    assert_eq!(m.players[0].money, 1000 - 333 - 16 + 317);
}
