use vstd::prelude::*;

use crate::errors::MarketError;
use crate::market::Market;
use crate::stock_module::MarketConfig;
use crate::upgrades_module::Upgrades;

verus! {

/// One catalog row, field by field.
pub open spec fn upgrade_row_is(
    u: Upgrades,
    id: int,
    identifier: Seq<char>,
    title: Seq<char>,
    description: Seq<char>,
    level: u8,
    cost: u128,
    passive_income_bonus: Option<u128>,
    click_power_bonus: Option<u128>,
    click_timer_bonus: Option<u64>,
) -> bool {
    &&& u.id == id
    &&& u.identifier@ == identifier
    &&& u.title@ == title
    &&& u.description@ == description
    &&& u.level == level
    &&& u.cost == cost
    &&& u.passive_income_bonus == passive_income_bonus
    &&& u.click_power_bonus == click_power_bonus
    &&& u.click_timer_bonus == click_timer_bonus
}

/// The standard upgrade catalog: exactly these eight rows appended, in this
/// order, with sequentially assigned ids; earlier rows untouched.
pub open spec fn standard_upgrades_added(pre: Market, post: Market) -> bool {
    let base = pre.upgrades@.len() as int;
    let id0 = pre.next_upgrade_id as int;
    &&& post.upgrades@.len() == base + 8
    &&& (forall|u: int| 0 <= u < base ==> post.upgrades@[u] == pre.upgrades@[u])
    &&& upgrade_row_is(
        post.upgrades@[base],
        id0,
        "passive_income_lv1"@,
        "Passive Income I"@,
        "Gain +0.2 passive income/sec."@,
        1,
        10_000,
        Some(200),
        None,
        None,
    )
    &&& upgrade_row_is(
        post.upgrades@[base + 1],
        id0 + 1,
        "passive_income_lv2"@,
        "Passive Income II"@,
        "Gain +1.0 passive income/sec."@,
        2,
        50_000,
        Some(1_000),
        None,
        None,
    )
    &&& upgrade_row_is(
        post.upgrades@[base + 2],
        id0 + 2,
        "passive_income_lv3"@,
        "Passive Income III"@,
        "Gain +5.0 passive income/sec."@,
        3,
        300_000,
        Some(5_000),
        None,
        None,
    )
    &&& upgrade_row_is(
        post.upgrades@[base + 3],
        id0 + 3,
        "click_power_lv1"@,
        "Click Power I"@,
        "Increase click power by 2."@,
        1,
        20_000,
        None,
        Some(2),
        None,
    )
    &&& upgrade_row_is(
        post.upgrades@[base + 4],
        id0 + 4,
        "click_power_lv2"@,
        "Click Power II"@,
        "Increase click power by 5."@,
        2,
        100_000,
        None,
        Some(5),
        None,
    )
    &&& upgrade_row_is(
        post.upgrades@[base + 5],
        id0 + 5,
        "click_power_lv3"@,
        "Click Power III"@,
        "Increase click power by 10."@,
        3,
        500_000,
        None,
        Some(10),
        None,
    )
    &&& upgrade_row_is(
        post.upgrades@[base + 6],
        id0 + 6,
        "faster_clicks"@,
        "Faster Clicks"@,
        "Reduce click timer by 100 ms."@,
        1,
        30_000,
        None,
        None,
        Some(100_000),
    )
    &&& upgrade_row_is(
        post.upgrades@[base + 7],
        id0 + 7,
        "turbo_clicks"@,
        "Turbo Clicks"@,
        "Reduce click timer by 500 ms."@,
        1,
        200_000,
        None,
        None,
        Some(500_000),
    )
}

/// The six standard stocks: exactly these rows appended, in this order,
/// fully available at their scaled prices, with zeroed counters, zero
/// momentum and no event; earlier rows untouched.
pub open spec fn standard_stocks_added(pre: Market, post: Market) -> bool {
    let base = pre.stocks@.len() as int;
    &&& post.stocks@.len() == base + 6
    &&& (forall|k: int| 0 <= k < base ==> post.stocks@[k] == pre.stocks@[k])
    &&& post.stocks@[base].name@ == "QuantumCompute"@
    &&& post.stocks@[base].price_per_share == 100_000
    &&& post.stocks@[base].total_shares == 1_000_000_000_000_000
    &&& post.stocks@[base + 1].name@ == "EtherFiber"@
    &&& post.stocks@[base + 1].price_per_share == 50_000
    &&& post.stocks@[base + 1].total_shares == 500_000_000_000_000
    &&& post.stocks@[base + 2].name@ == "MarsVacations"@
    &&& post.stocks@[base + 2].price_per_share == 20_000
    &&& post.stocks@[base + 2].total_shares == 2_000_000_000_000_000
    &&& post.stocks@[base + 3].name@ == "CaffeineInc"@
    &&& post.stocks@[base + 3].price_per_share == 1_000
    &&& post.stocks@[base + 3].total_shares == 5_000_000_000_000_000
    &&& post.stocks@[base + 4].name@ == "RoboFarm"@
    &&& post.stocks@[base + 4].price_per_share == 10_000
    &&& post.stocks@[base + 4].total_shares == 750_000_000_000_000
    &&& post.stocks@[base + 5].name@ == "GenAILabs"@
    &&& post.stocks@[base + 5].price_per_share == 250_000
    &&& post.stocks@[base + 5].total_shares == 100_000_000_000_000
    &&& (forall|k: int|
        base <= k < base + 6 ==> {
            let s = #[trigger] post.stocks@[k];
            s.id == pre.next_stock_id + (k - base) && s.volatility == 50 && s.available_shares
                == s.total_shares && s.momentum == 0 && s.recent_buys == 0 && s.recent_sells == 0
                && s.trending_event is None && s.last_price == s.price_per_share
        })
}

/// Register the standard upgrade catalog: three passive-income tiers, three
/// click-power tiers and two click-timer reductions.
#[verifier::rlimit(50)]
pub fn init_upgrades(m: &mut Market) -> (r: Result<(), MarketError>)
    requires
        old(m).wf(),
    ensures
        final(m).wf(),
        (r is Ok <==> old(m).next_upgrade_id + 8 <= u16::MAX),
        r is Ok ==> {
            &&& standard_upgrades_added(*old(m), *final(m))
            &&& final(m).next_upgrade_id == old(m).next_upgrade_id + 8
        },
        final(m).stocks@ == old(m).stocks@,
        final(m).players@ == old(m).players@,
        final(m).transactions@ == old(m).transactions@,
        final(m).config == old(m).config,
        final(m).next_stock_id == old(m).next_stock_id,
        final(m).next_tx_id == old(m).next_tx_id,
{
    m.add_upgrade(
        "passive_income_lv1".to_string(),
        "Passive Income I".to_string(),
        "Gain +0.2 passive income/sec.".to_string(),
        1,
        10_000,
        Some(200),
        None,
        None,
    )?;
    m.add_upgrade(
        "passive_income_lv2".to_string(),
        "Passive Income II".to_string(),
        "Gain +1.0 passive income/sec.".to_string(),
        2,
        50_000,
        Some(1_000),
        None,
        None,
    )?;
    m.add_upgrade(
        "passive_income_lv3".to_string(),
        "Passive Income III".to_string(),
        "Gain +5.0 passive income/sec.".to_string(),
        3,
        300_000,
        Some(5_000),
        None,
        None,
    )?;
    m.add_upgrade(
        "click_power_lv1".to_string(),
        "Click Power I".to_string(),
        "Increase click power by 2.".to_string(),
        1,
        20_000,
        None,
        Some(2),
        None,
    )?;
    m.add_upgrade(
        "click_power_lv2".to_string(),
        "Click Power II".to_string(),
        "Increase click power by 5.".to_string(),
        2,
        100_000,
        None,
        Some(5),
        None,
    )?;
    m.add_upgrade(
        "click_power_lv3".to_string(),
        "Click Power III".to_string(),
        "Increase click power by 10.".to_string(),
        3,
        500_000,
        None,
        Some(10),
        None,
    )?;
    m.add_upgrade(
        "faster_clicks".to_string(),
        "Faster Clicks".to_string(),
        "Reduce click timer by 100 ms.".to_string(),
        1,
        30_000,
        None,
        None,
        Some(100_000),
    )?;
    m.add_upgrade(
        "turbo_clicks".to_string(),
        "Turbo Clicks".to_string(),
        "Reduce click timer by 500 ms.".to_string(),
        1,
        200_000,
        None,
        None,
        Some(500_000),
    )?;
    Ok(())
}

/// Create the six standard stocks of the market.
#[verifier::rlimit(50)]
pub fn init_stocks(m: &mut Market) -> (r: Result<(), MarketError>)
    requires
        old(m).wf(),
    ensures
        final(m).wf(),
        (r is Ok <==> old(m).next_stock_id + 6 <= u16::MAX),
        r is Ok ==> {
            &&& standard_stocks_added(*old(m), *final(m))
            &&& final(m).next_stock_id == old(m).next_stock_id + 6
        },
        final(m).players@ == old(m).players@,
        final(m).transactions@ == old(m).transactions@,
        final(m).config == old(m).config,
        final(m).upgrades@ == old(m).upgrades@,
        final(m).next_tx_id == old(m).next_tx_id,
        final(m).next_upgrade_id == old(m).next_upgrade_id,
{
    m.create_stock(
        "QuantumCompute".to_string(),
        "Next-gen quantum processors at scale.".to_string(),
        100,
        1_000_000_000_000_000,
        50,
    )?;
    m.create_stock(
        "EtherFiber".to_string(),
        "Distributed broadband over blockchain.".to_string(),
        50,
        500_000_000_000_000,
        50,
    )?;
    m.create_stock(
        "MarsVacations".to_string(),
        "Luxury travel packages to Mars colonies.".to_string(),
        20,
        2_000_000_000_000_000,
        50,
    )?;
    m.create_stock(
        "CaffeineInc".to_string(),
        "Instant power-nap coffee crystals.".to_string(),
        1,
        5_000_000_000_000_000,
        50,
    )?;
    m.create_stock(
        "RoboFarm".to_string(),
        "Autonomous farming robots and AI-driven yields.".to_string(),
        10,
        750_000_000_000_000,
        50,
    )?;
    m.create_stock(
        "GenAILabs".to_string(),
        "Cutting-edge generative AI research co-op.".to_string(),
        250,
        100_000_000_000_000,
        50,
    )?;
    Ok(())
}

/// Initialize a market: the configuration (sensitivity 20, slippage 10,
/// minimum price 1), the upgrade catalog and the standard stocks.
#[verifier::rlimit(50)]
pub fn initializer(m: &mut Market) -> (r: Result<(), MarketError>)
    requires
        old(m).wf(),
    ensures
        final(m).wf(),
        (r is Ok <==> old(m).next_upgrade_id + 8 <= u16::MAX && old(m).next_stock_id + 6
            <= u16::MAX),
        r is Ok ==> {
            &&& final(m).config == Some(
                MarketConfig { sensitivity: 20, slippage_factor: 10, min_price: 1 },
            )
            &&& standard_upgrades_added(*old(m), *final(m))
            &&& standard_stocks_added(*old(m), *final(m))
            &&& final(m).next_upgrade_id == old(m).next_upgrade_id + 8
            &&& final(m).next_stock_id == old(m).next_stock_id + 6
        },
        final(m).players@ == old(m).players@,
        final(m).transactions@ == old(m).transactions@,
        final(m).next_tx_id == old(m).next_tx_id,
{
    m.init_market_config(20, 10, 1)?;
    init_upgrades(m)?;
    init_stocks(m)?;
    Ok(())
}

} // verus!
