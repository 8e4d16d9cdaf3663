use vstd::prelude::*;

use crate::constants::{
    PLAYER_STARTING_CLICK_POWER, PLAYER_STARTING_CLICK_TIMER_MICROS, PLAYER_STARTING_MONEY,
    PLAYER_STARTING_PASSIVE_INCOME, PLAYER_STARTING_STOCK_BUY_FEE, PLAYER_STARTING_STOCK_SELL_FEE,
};
use crate::errors::MarketError;
use crate::market::{find_player, lemma_total_held_push, lemma_total_held_update, Market};

verus! {

/// One entry of a player's holdings: a stock and the share count owned.
#[derive(Clone, Copy, PartialEq, Eq, Structural, Debug)]
pub struct StockType {
    pub stock_id: u16,
    pub amount: u64,
}

/// A player row. Identity and timestamps are plain values here; the host
/// layer converts its own identity and time types at the boundary.
pub struct Player {
    pub identity: u64,
    pub username: Option<String>,
    pub money: u128,
    pub passive_income: u128,
    pub click_power: u128,
    pub click_timer: i64,
    pub online: bool,
    pub upgrades: Vec<u16>,
    pub stocks: Vec<StockType>,
    pub last_click: i64,
    /// Fee rates as fixed-point fractions of the trade value, scaled by
    /// PRICE_SCALE_FACTOR.
    pub stock_buy_fee: u64,
    pub stock_sell_fee: u64,
}

/// Everything of a player except the balance and the holdings: the fields a
/// trade settlement never touches.
pub open spec fn same_player_core(a: Player, b: Player) -> bool {
    &&& a.identity == b.identity
    &&& a.username == b.username
    &&& a.passive_income == b.passive_income
    &&& a.click_power == b.click_power
    &&& a.click_timer == b.click_timer
    &&& a.online == b.online
    &&& a.upgrades@ == b.upgrades@
    &&& a.last_click == b.last_click
    &&& a.stock_buy_fee == b.stock_buy_fee
    &&& a.stock_sell_fee == b.stock_sell_fee
}

/// How many shares of `sid` a single holdings entry contributes.
pub open spec fn holding_contrib(e: StockType, sid: u16) -> int {
    if e.stock_id == sid {
        e.amount as int
    } else {
        0
    }
}

/// How many shares of `sid` a holdings list records, summed over all
/// entries.
pub open spec fn holding_amount(entries: Seq<StockType>, sid: u16) -> int
    decreases entries.len(),
{
    if entries.len() == 0 {
        0
    } else {
        holding_amount(entries.drop_last(), sid) + holding_contrib(entries.last(), sid)
    }
}

/// Holdings are a mapping from stock id to share count: keys are unique.
pub open spec fn holdings_unique(entries: Seq<StockType>) -> bool {
    forall|i: int, j: int|
        0 <= i < j < entries.len() ==> entries[i].stock_id != entries[j].stock_id
}

/// A zero-amount entry is removed, never retained.
pub open spec fn holdings_positive(entries: Seq<StockType>) -> bool {
    forall|i: int| 0 <= i < entries.len() ==> (#[trigger] entries[i]).amount >= 1
}

pub open spec fn holdings_wf(entries: Seq<StockType>) -> bool {
    holdings_unique(entries) && holdings_positive(entries)
}

/// The shares of `sid` owned by a player: the abstract view of the
/// holdings list as a mapping.
pub open spec fn player_holding(p: Player, sid: u16) -> int {
    holding_amount(p.stocks@, sid)
}


/// Saturating addition at the top of the u128 range.
pub open spec fn sat_add_u128(a: int, b: int) -> int {
    if a + b <= u128::MAX {
        a + b
    } else {
        u128::MAX as int
    }
}

/// The name a player row gets when a trimmed username is stored.
pub uninterp spec fn trimmed_of(s: Seq<char>) -> Seq<char>;

/// Relies on str::trim: it returns the string with leading and trailing
/// whitespace removed, a result that depends on the characters alone.
#[verifier::external_body]
fn trim_string(s: &String) -> (r: String)
    ensures
        r@ == trimmed_of(s@),
{
    s.trim().to_string()
}

/// A player row exactly as rows are created on first connect.
pub open spec fn starting_player(p: Player, identity: u64, now: i64) -> bool {
    &&& p.identity == identity
    &&& p.username is None
    &&& p.money == PLAYER_STARTING_MONEY
    &&& p.passive_income == PLAYER_STARTING_PASSIVE_INCOME
    &&& p.click_power == PLAYER_STARTING_CLICK_POWER
    &&& p.click_timer == PLAYER_STARTING_CLICK_TIMER_MICROS
    &&& p.online == true
    &&& p.upgrades@ == Seq::<u16>::empty()
    &&& p.stocks@ == Seq::<StockType>::empty()
    &&& p.last_click == now
    &&& p.stock_buy_fee == PLAYER_STARTING_STOCK_BUY_FEE
    &&& p.stock_sell_fee == PLAYER_STARTING_STOCK_SELL_FEE
}

/// Two players equal in everything but the online flag.
pub open spec fn same_player_but_online(a: Player, b: Player) -> bool {
    &&& a.identity == b.identity
    &&& a.username == b.username
    &&& a.money == b.money
    &&& a.passive_income == b.passive_income
    &&& a.click_power == b.click_power
    &&& a.click_timer == b.click_timer
    &&& a.upgrades@ == b.upgrades@
    &&& a.stocks@ == b.stocks@
    &&& a.last_click == b.last_click
    &&& a.stock_buy_fee == b.stock_buy_fee
    &&& a.stock_sell_fee == b.stock_sell_fee
}

/// The one change the passive-income tick makes to a player row.
pub open spec fn passive_credited(p: Player, p2: Player) -> bool {
    &&& p2.money == sat_add_u128(p.money as int, p.passive_income as int)
    &&& p2.identity == p.identity
    &&& p2.username == p.username
    &&& p2.passive_income == p.passive_income
    &&& p2.click_power == p.click_power
    &&& p2.click_timer == p.click_timer
    &&& p2.online == p.online
    &&& p2.upgrades@ == p.upgrades@
    &&& p2.stocks@ == p.stocks@
    &&& p2.last_click == p.last_click
    &&& p2.stock_buy_fee == p.stock_buy_fee
    &&& p2.stock_sell_fee == p.stock_sell_fee
}

impl Market {
    /// A client connected: create its player row with the starting values
    /// on first sight, otherwise mark the existing row online.
    pub fn identity_connected(&mut self, identity: u64, now: i64)
        requires
            old(self).wf(),
        ensures
            final(self).wf(),
            final(self).stocks@ == old(self).stocks@,
            final(self).transactions@ == old(self).transactions@,
            final(self).config == old(self).config,
            final(self).upgrades@ == old(self).upgrades@,
            final(self).next_stock_id == old(self).next_stock_id,
            final(self).next_tx_id == old(self).next_tx_id,
            final(self).next_upgrade_id == old(self).next_upgrade_id,
            (forall|j: int|
                0 <= j < old(self).players@.len() ==> (#[trigger] old(self).players@[j]).identity
                    != identity) ==> final(self).players@.len() == old(self).players@.len() + 1
                && (forall|j: int|
                0 <= j < old(self).players@.len() ==> final(self).players@[j] == old(
                    self,
                ).players@[j]) && starting_player(final(self).players@.last(), identity, now),
            forall|j: int|
                0 <= j < old(self).players@.len() && (#[trigger] old(self).players@[j]).identity
                    == identity ==> final(self).players@.len() == old(self).players@.len() && (
                forall|j2: int|
                    0 <= j2 < old(self).players@.len() && j2 != j ==> final(self).players@[j2]
                        == old(self).players@[j2]) && same_player_but_online(
                    old(self).players@[j],
                    final(self).players@[j],
                ) && final(self).players@[j].online == true,
    {
        match find_player(&self.players, identity) {
            None => {
                let ghost pre = self.players@;
                let p = Player {
                    identity,
                    username: None,
                    money: PLAYER_STARTING_MONEY,
                    passive_income: PLAYER_STARTING_PASSIVE_INCOME,
                    click_power: PLAYER_STARTING_CLICK_POWER,
                    click_timer: PLAYER_STARTING_CLICK_TIMER_MICROS,
                    online: true,
                    upgrades: Vec::new(),
                    stocks: Vec::new(),
                    last_click: now,
                    stock_buy_fee: PLAYER_STARTING_STOCK_BUY_FEE,
                    stock_sell_fee: PLAYER_STARTING_STOCK_SELL_FEE,
                };
                self.players.push(p);
                proof {
                    assert forall|k: int| 0 <= k < self.stocks@.len() implies (
                    #[trigger] self.stocks@[k]).available_shares + crate::market::total_held(
                        self.players@,
                        self.stocks@[k].id,
                    ) == self.stocks@[k].total_shares by {
                        lemma_total_held_push(pre, self.players@.last(), self.stocks@[k].id);
                    }
                }
            },
            Some(j) => {
                let ghost pre = self.players@;
                self.players[j].online = true;
                proof {
                    let p2 = self.players@[j as int];
                    assert forall|k: int| 0 <= k < self.stocks@.len() implies (
                    #[trigger] self.stocks@[k]).available_shares + crate::market::total_held(
                        self.players@,
                        self.stocks@[k].id,
                    ) == self.stocks@[k].total_shares by {
                        lemma_total_held_update(pre, j as int, p2, self.stocks@[k].id);
                    }
                }
            },
        }
    }

    /// A client disconnected: mark its row offline; an unknown identity is
    /// ignored.
    pub fn identity_disconnected(&mut self, identity: u64)
        requires
            old(self).wf(),
        ensures
            final(self).wf(),
            final(self).stocks@ == old(self).stocks@,
            final(self).transactions@ == old(self).transactions@,
            final(self).config == old(self).config,
            final(self).upgrades@ == old(self).upgrades@,
            final(self).next_stock_id == old(self).next_stock_id,
            final(self).next_tx_id == old(self).next_tx_id,
            final(self).next_upgrade_id == old(self).next_upgrade_id,
            final(self).players@.len() == old(self).players@.len(),
            (forall|j: int|
                0 <= j < old(self).players@.len() ==> (#[trigger] old(self).players@[j]).identity
                    != identity) ==> final(self).players@ == old(self).players@,
            forall|j: int|
                0 <= j < old(self).players@.len() && (#[trigger] old(self).players@[j]).identity
                    == identity ==> (forall|j2: int|
                    0 <= j2 < old(self).players@.len() && j2 != j ==> final(self).players@[j2]
                        == old(self).players@[j2]) && same_player_but_online(
                    old(self).players@[j],
                    final(self).players@[j],
                ) && final(self).players@[j].online == false,
    {
        match find_player(&self.players, identity) {
            None => {},
            Some(j) => {
                let ghost pre = self.players@;
                self.players[j].online = false;
                proof {
                    let p2 = self.players@[j as int];
                    assert forall|k: int| 0 <= k < self.stocks@.len() implies (
                    #[trigger] self.stocks@[k]).available_shares + crate::market::total_held(
                        self.players@,
                        self.stocks@[k].id,
                    ) == self.stocks@[k].total_shares by {
                        lemma_total_held_update(pre, j as int, p2, self.stocks@[k].id);
                    }
                }
            },
        }
    }

    /// The passive-income tick: credit every player's balance with its
    /// passive income, saturating at the top of the integer width.
    pub fn update_players(&mut self) -> (r: Result<(), MarketError>)
        requires
            old(self).wf(),
        ensures
            final(self).wf(),
            r is Ok,
            final(self).stocks@ == old(self).stocks@,
            final(self).transactions@ == old(self).transactions@,
            final(self).config == old(self).config,
            final(self).upgrades@ == old(self).upgrades@,
            final(self).next_stock_id == old(self).next_stock_id,
            final(self).next_tx_id == old(self).next_tx_id,
            final(self).next_upgrade_id == old(self).next_upgrade_id,
            final(self).players@.len() == old(self).players@.len(),
            forall|j: int|
                0 <= j < old(self).players@.len() ==> passive_credited(
                    old(self).players@[j],
                    #[trigger] final(self).players@[j],
                ),
    {
        let n = self.players.len();
        let mut j: usize = 0;
        while j < n
            invariant
                self.wf(),
                n == self.players@.len(),
                j <= n,
                self.stocks@ == old(self).stocks@,
                self.transactions@ == old(self).transactions@,
                self.config == old(self).config,
                self.upgrades@ == old(self).upgrades@,
                self.next_stock_id == old(self).next_stock_id,
                self.next_tx_id == old(self).next_tx_id,
                self.next_upgrade_id == old(self).next_upgrade_id,
                forall|j2: int| j <= j2 < n ==> self.players@[j2] == old(self).players@[j2],
                forall|j2: int|
                    0 <= j2 < j ==> passive_credited(
                        old(self).players@[j2],
                        #[trigger] self.players@[j2],
                    ),
            decreases n - j,
        {
            let pi = self.players[j].passive_income;
            if pi > 0 {
                let ghost pre = self.players@;
                let m = self.players[j].money;
                self.players[j].money = m.saturating_add(pi);
                proof {
                    let p2 = self.players@[j as int];
                    assert forall|k: int| 0 <= k < self.stocks@.len() implies (
                    #[trigger] self.stocks@[k]).available_shares + crate::market::total_held(
                        self.players@,
                        self.stocks@[k].id,
                    ) == self.stocks@[k].total_shares by {
                        lemma_total_held_update(pre, j as int, p2, self.stocks@[k].id);
                    }
                }
            }
            j = j + 1;
        }
        Ok(())
    }

    /// Store a trimmed, non-empty username on the sender's player row.
    pub fn set_name(&mut self, identity: u64, username: String) -> (r: Result<(), MarketError>)
        requires
            old(self).wf(),
        ensures
            final(self).wf(),
            trimmed_of(username@).len() == 0 ==> r == Err::<(), MarketError>(
                MarketError::InvalidArgument,
            ) && *final(self) == *old(self),
            (trimmed_of(username@).len() > 0 && (forall|j: int|
                0 <= j < old(self).players@.len() ==> (#[trigger] old(self).players@[j]).identity
                    != identity)) ==> r == Err::<(), MarketError>(MarketError::NotFound) && *final(self) == *old(self),
            forall|j: int|
                0 <= j < old(self).players@.len() && (#[trigger] old(self).players@[j]).identity
                    == identity && trimmed_of(username@).len() > 0 ==> r is Ok && final(self).players@.len() == old(self).players@.len() && (forall|j2: int|
                    0 <= j2 < old(self).players@.len() && j2 != j ==> final(self).players@[j2]
                        == old(self).players@[j2]) && {
                    let p = old(self).players@[j];
                    let p2 = final(self).players@[j];
                    p2.username is Some && p2.username->0@ == trimmed_of(username@) && p2.identity
                        == p.identity && p2.money == p.money && p2.passive_income
                        == p.passive_income && p2.click_power == p.click_power && p2.click_timer
                        == p.click_timer && p2.online == p.online && p2.upgrades@ == p.upgrades@
                        && p2.stocks@ == p.stocks@ && p2.last_click == p.last_click
                        && p2.stock_buy_fee == p.stock_buy_fee && p2.stock_sell_fee
                        == p.stock_sell_fee
                },
            final(self).stocks@ == old(self).stocks@,
            final(self).transactions@ == old(self).transactions@,
            final(self).config == old(self).config,
            final(self).upgrades@ == old(self).upgrades@,
            final(self).next_stock_id == old(self).next_stock_id,
            final(self).next_tx_id == old(self).next_tx_id,
            final(self).next_upgrade_id == old(self).next_upgrade_id,
    {
        let cleaned = trim_string(&username);
        if cleaned.as_str().is_empty() {
            return Err(MarketError::InvalidArgument);
        }
        match find_player(&self.players, identity) {
            None => Err(MarketError::NotFound),
            Some(j) => {
                let ghost pre = self.players@;
                self.players[j].username = Some(cleaned);
                proof {
                    let p2 = self.players@[j as int];
                    assert forall|k: int| 0 <= k < self.stocks@.len() implies (
                    #[trigger] self.stocks@[k]).available_shares + crate::market::total_held(
                        self.players@,
                        self.stocks@[k].id,
                    ) == self.stocks@[k].total_shares by {
                        lemma_total_held_update(pre, j as int, p2, self.stocks@[k].id);
                    }
                }
                Ok(())
            },
        }
    }

    /// The click action: credit the sender's click power if the click timer
    /// has elapsed since the last click.
    pub fn increase_money(&mut self, identity: u64, now: i64) -> (r: Result<(), MarketError>)
        requires
            old(self).wf(),
        ensures
            final(self).wf(),
            (forall|j: int|
                0 <= j < old(self).players@.len() ==> (#[trigger] old(self).players@[j]).identity
                    != identity) ==> r == Err::<(), MarketError>(MarketError::NotFound) && *final(self) == *old(self),
            forall|j: int|
                0 <= j < old(self).players@.len() && (#[trigger] old(self).players@[j]).identity
                    == identity ==> {
                    let p = old(self).players@[j];
                    if !(i64::MIN <= p.last_click + p.click_timer <= i64::MAX) {
                        r == Err::<(), MarketError>(MarketError::Overflow) && *final(self) == *old(
                            self,
                        )
                    } else if now < p.last_click + p.click_timer {
                        r == Err::<(), MarketError>(MarketError::InvalidArgument) && *final(self)
                            == *old(self)
                    } else {
                        r is Ok && final(self).players@.len() == old(self).players@.len() && (
                        forall|j2: int|
                            0 <= j2 < old(self).players@.len() && j2 != j ==> final(self).players@[j2] == old(self).players@[j2]) && {
                            let p2 = final(self).players@[j];
                            p2.money == sat_add_u128(p.money as int, p.click_power as int)
                                && p2.last_click == now && p2.identity == p.identity && p2.username
                                == p.username && p2.passive_income == p.passive_income
                                && p2.click_power == p.click_power && p2.click_timer
                                == p.click_timer && p2.online == p.online && p2.upgrades@
                                == p.upgrades@ && p2.stocks@ == p.stocks@ && p2.stock_buy_fee
                                == p.stock_buy_fee && p2.stock_sell_fee == p.stock_sell_fee
                        }
                    }
                },
            final(self).stocks@ == old(self).stocks@,
            final(self).transactions@ == old(self).transactions@,
            final(self).config == old(self).config,
            final(self).upgrades@ == old(self).upgrades@,
            final(self).next_stock_id == old(self).next_stock_id,
            final(self).next_tx_id == old(self).next_tx_id,
            final(self).next_upgrade_id == old(self).next_upgrade_id,
    {
        let j = match find_player(&self.players, identity) {
            None => {
                return Err(MarketError::NotFound);
            },
            Some(j) => j,
        };
        let last_click = self.players[j].last_click;
        let click_timer = self.players[j].click_timer;
        let allowed = match last_click.checked_add(click_timer) {
            None => {
                return Err(MarketError::Overflow);
            },
            Some(v) => v,
        };
        if now < allowed {
            return Err(MarketError::InvalidArgument);
        }
        let ghost pre = self.players@;
        let m = self.players[j].money;
        let cp = self.players[j].click_power;
        self.players[j].money = m.saturating_add(cp);
        self.players[j].last_click = now;
        proof {
            let p2 = self.players@[j as int];
            assert(self.players@ =~= pre.update(j as int, p2));
            assert forall|k: int| 0 <= k < self.stocks@.len() implies (
            #[trigger] self.stocks@[k]).available_shares + crate::market::total_held(
                self.players@,
                self.stocks@[k].id,
            ) == self.stocks@[k].total_shares by {
                lemma_total_held_update(pre, j as int, p2, self.stocks@[k].id);
            }
        }
        Ok(())
    }
}

pub proof fn lemma_holding_amount_nonneg(entries: Seq<StockType>, sid: u16)
    ensures
        holding_amount(entries, sid) >= 0,
    decreases entries.len(),
{
    if entries.len() > 0 {
        lemma_holding_amount_nonneg(entries.drop_last(), sid);
    }
}

pub proof fn lemma_holding_amount_push(entries: Seq<StockType>, e: StockType, sid: u16)
    ensures
        holding_amount(entries.push(e), sid) == holding_amount(entries, sid) + holding_contrib(
            e,
            sid,
        ),
{
    assert(entries.push(e).drop_last() =~= entries);
}

pub proof fn lemma_holding_amount_update(entries: Seq<StockType>, k: int, e: StockType, sid: u16)
    requires
        0 <= k < entries.len(),
    ensures
        holding_amount(entries.update(k, e), sid) == holding_amount(entries, sid)
            - holding_contrib(entries[k], sid) + holding_contrib(e, sid),
    decreases entries.len(),
{
    let upd = entries.update(k, e);
    if k == entries.len() - 1 {
        assert(upd.drop_last() =~= entries.drop_last());
        assert(upd.last() == e);
    } else {
        assert(upd.drop_last() =~= entries.drop_last().update(k, e));
        lemma_holding_amount_update(entries.drop_last(), k, e, sid);
        assert(upd.last() == entries.last());
    }
}

pub proof fn lemma_holding_amount_remove(entries: Seq<StockType>, k: int, sid: u16)
    requires
        0 <= k < entries.len(),
    ensures
        holding_amount(entries.remove(k), sid) == holding_amount(entries, sid) - holding_contrib(
            entries[k],
            sid,
        ),
    decreases entries.len(),
{
    let rem = entries.remove(k);
    if k == entries.len() - 1 {
        assert(rem =~= entries.drop_last());
    } else {
        assert(rem.drop_last() =~= entries.drop_last().remove(k));
        lemma_holding_amount_remove(entries.drop_last(), k, sid);
        assert(rem.last() == entries.last());
    }
}

/// With unique keys, the whole holding of `sid` sits in the one entry that
/// names it.
pub proof fn lemma_holding_amount_found(entries: Seq<StockType>, k: int, sid: u16)
    requires
        holdings_unique(entries),
        0 <= k < entries.len(),
        entries[k].stock_id == sid,
    ensures
        holding_amount(entries, sid) == entries[k].amount,
    decreases entries.len(),
{
    if k == entries.len() - 1 {
        lemma_holding_amount_no_entry(entries.drop_last(), sid);
    } else {
        assert(entries.drop_last()[k] == entries[k]);
        lemma_holding_amount_found(entries.drop_last(), k, sid);
        assert(holding_contrib(entries.last(), sid) == 0);
    }
}

/// Any single entry is a lower bound on the holding of its stock.
pub proof fn lemma_holding_entry_lower(entries: Seq<StockType>, i: int, sid: u16)
    requires
        0 <= i < entries.len(),
        entries[i].stock_id == sid,
    ensures
        holding_amount(entries, sid) >= entries[i].amount,
    decreases entries.len(),
{
    if i == entries.len() - 1 {
        lemma_holding_amount_nonneg(entries.drop_last(), sid);
    } else {
        assert(entries.drop_last()[i] == entries[i]);
        lemma_holding_entry_lower(entries.drop_last(), i, sid);
    }
}

/// Where no entry names `sid`, the holding is zero.
pub proof fn lemma_holding_amount_no_entry(entries: Seq<StockType>, sid: u16)
    requires
        forall|i: int| 0 <= i < entries.len() ==> (#[trigger] entries[i]).stock_id != sid,
    ensures
        holding_amount(entries, sid) == 0,
    decreases entries.len(),
{
    if entries.len() > 0 {
        lemma_holding_amount_no_entry(entries.drop_last(), sid);
    }
}

/// Find the entry for `sid` in a holdings list.
pub fn find_holding(entries: &Vec<StockType>, sid: u16) -> (r: Option<usize>)
    ensures
        match r {
            Some(k) => k < entries@.len() && entries@[k as int].stock_id == sid,
            None => forall|i: int|
                0 <= i < entries@.len() ==> (#[trigger] entries@[i]).stock_id != sid,
        },
{
    let mut k: usize = 0;
    while k < entries.len()
        invariant
            k <= entries@.len(),
            forall|i: int| 0 <= i < k ==> (#[trigger] entries@[i]).stock_id != sid,
        decreases entries@.len() - k,
    {
        if entries[k].stock_id == sid {
            return Some(k);
        }
        k = k + 1;
    }
    None
}

/// Add `amt` shares of `sid` to a holdings list: bump the existing entry or
/// create one. The abstract mapping gains exactly `amt` at `sid` and is
/// unchanged elsewhere.
pub fn add_holding(entries: &mut Vec<StockType>, sid: u16, amt: u64)
    requires
        holdings_wf(old(entries)@),
        amt >= 1,
        holding_amount(old(entries)@, sid) + amt <= u64::MAX,
    ensures
        holdings_wf(final(entries)@),
        forall|sid2: u16|
            holding_amount(final(entries)@, sid2) == holding_amount(old(entries)@, sid2) + (
            if sid2 == sid {
                amt as int
            } else {
                0
            }),
{
    proof {
        lemma_holding_amount_nonneg(entries@, sid);
    }
    match find_holding(entries, sid) {
        Some(k) => {
            proof {
                lemma_holding_amount_found(entries@, k as int, sid);
            }
            let new_amount = entries[k].amount + amt;
            let ghost before = entries@;
            entries[k] = StockType { stock_id: sid, amount: new_amount };
            proof {
                let e2 = StockType { stock_id: sid, amount: new_amount };
                assert forall|sid2: u16|
                    holding_amount(entries@, sid2) == holding_amount(before, sid2) + (
                    if sid2 == sid {
                        amt as int
                    } else {
                        0
                    }) by {
                    lemma_holding_amount_update(before, k as int, e2, sid2);
                }
            }
        },
        None => {
            proof {
                lemma_holding_amount_no_entry(entries@, sid);
            }
            let ghost before = entries@;
            entries.push(StockType { stock_id: sid, amount: amt });
            proof {
                let e2 = StockType { stock_id: sid, amount: amt };
                assert forall|sid2: u16|
                    holding_amount(entries@, sid2) == holding_amount(before, sid2) + (
                    if sid2 == sid {
                        amt as int
                    } else {
                        0
                    }) by {
                    lemma_holding_amount_push(before, e2, sid2);
                }
            }
        },
    }
}

/// Remove `amt` shares of `sid` from a holdings list, deleting the entry
/// entirely when it reaches zero. The abstract mapping loses exactly `amt`
/// at `sid` and is unchanged elsewhere.
pub fn sub_holding(entries: &mut Vec<StockType>, sid: u16, amt: u64)
    requires
        holdings_wf(old(entries)@),
        amt >= 1,
        holding_amount(old(entries)@, sid) >= amt,
    ensures
        holdings_wf(final(entries)@),
        forall|sid2: u16|
            holding_amount(final(entries)@, sid2) == holding_amount(old(entries)@, sid2) - (
            if sid2 == sid {
                amt as int
            } else {
                0
            }),
{
    let r = find_holding(entries, sid);
    match r {
        Some(k) => {
            proof {
                lemma_holding_amount_found(entries@, k as int, sid);
            }
            let held = entries[k].amount;
            let ghost before = entries@;
            if held == amt {
                entries.remove(k);
                proof {
                    assert forall|sid2: u16|
                        holding_amount(entries@, sid2) == holding_amount(before, sid2) - (
                        if sid2 == sid {
                            amt as int
                        } else {
                            0
                        }) by {
                        lemma_holding_amount_remove(before, k as int, sid2);
                    }
                    assert forall|i: int, j: int|
                        0 <= i < j < entries@.len() implies entries@[i].stock_id
                        != entries@[j].stock_id by {
                        if j < k as int {
                            assert(before[i] == entries@[i] && before[j] == entries@[j]);
                        } else if i < k as int {
                            assert(before[i] == entries@[i] && before[j + 1] == entries@[j]);
                        } else {
                            assert(before[i + 1] == entries@[i] && before[j + 1] == entries@[j]);
                        }
                    }
                }
            } else {
                let new_amount = held - amt;
                entries[k] = StockType { stock_id: sid, amount: new_amount };
                proof {
                    let e2 = StockType { stock_id: sid, amount: new_amount };
                    assert forall|sid2: u16|
                        holding_amount(entries@, sid2) == holding_amount(before, sid2) - (
                        if sid2 == sid {
                            amt as int
                        } else {
                            0
                        }) by {
                        lemma_holding_amount_update(before, k as int, e2, sid2);
                    }
                }
            }
        },
        None => {
            proof {
                lemma_holding_amount_no_entry(entries@, sid);
            }
        },
    }
}

} // verus!
