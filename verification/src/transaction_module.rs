use vstd::prelude::*;

use crate::constants::PRICE_SCALE_FACTOR;
use crate::errors::MarketError;
use crate::market::{
    lemma_total_held_lower, lemma_total_held_update, total_held, Market,
};
use crate::player_module::{
    add_holding, find_holding, holding_amount, holdings_wf, lemma_holding_amount_found,
    lemma_holding_amount_no_entry, lemma_holding_amount_nonneg, player_holding, same_player_core,
    sub_holding, Player,
};
use crate::stock_module::{same_stock_core, Stock};

verus! {

/// The state machine of an order: Pending -> {Confirmed, Rejected}, and the
/// terminal states are never revisited.
#[derive(Clone, Copy, PartialEq, Eq, Structural, Debug)]
pub enum TransactionStatus {
    Pending,
    Confirmed,
    Rejected,
}

#[derive(Clone, Copy, PartialEq, Eq, Structural, Debug)]
pub enum TransactionType {
    Buy,
    Sell,
}

/// An intent to trade, queued for batch settlement on the next tick.
#[derive(Clone, Copy, PartialEq, Eq, Structural, Debug)]
pub struct Transaction {
    pub id: u64,
    pub sender: u64,
    pub stock_id: u16,
    pub amount: u64,
    pub tx_type: TransactionType,
    pub status: TransactionStatus,
    pub timestamp: i64,
}

/// Everything of a transaction but its status: the immutable part, fixed at
/// creation.
pub open spec fn same_tx_core(a: Transaction, b: Transaction) -> bool {
    &&& a.id == b.id
    &&& a.sender == b.sender
    &&& a.stock_id == b.stock_id
    &&& a.amount == b.amount
    &&& a.tx_type == b.tx_type
    &&& a.timestamp == b.timestamp
}

/// The trade value: price times quantity, in fixed-point units.
pub open spec fn spec_total_price(s: Stock, amount: u64) -> int {
    s.price_per_share * amount
}

/// The buy fee: a fixed-point fraction of the trade value, rounded down
/// (the house rounds in its favor).
pub open spec fn spec_buy_fee(p: Player, s: Stock, amount: u64) -> int {
    spec_total_price(s, amount) * p.stock_buy_fee / (PRICE_SCALE_FACTOR as int)
}

pub open spec fn spec_buy_cost(p: Player, s: Stock, amount: u64) -> int {
    spec_total_price(s, amount) + spec_buy_fee(p, s, amount)
}

/// Why a buy of `amount` shares would be rejected against this player and
/// stock state, or None where it settles. The checks run in this order.
pub open spec fn spec_buy_error(p: Player, s: Stock, amount: u64) -> Option<MarketError> {
    if spec_total_price(s, amount) > u128::MAX {
        Some(MarketError::Overflow)
    } else if spec_total_price(s, amount) * p.stock_buy_fee > u128::MAX {
        Some(MarketError::Overflow)
    } else if spec_buy_cost(p, s, amount) > u128::MAX {
        Some(MarketError::Overflow)
    } else if p.money < spec_buy_cost(p, s, amount) {
        Some(MarketError::InsufficientFunds)
    } else if s.available_shares < amount {
        Some(MarketError::InsufficientShares)
    } else if s.recent_buys + amount > u64::MAX {
        Some(MarketError::Overflow)
    } else {
        None
    }
}

pub open spec fn spec_sell_fee(p: Player, s: Stock, amount: u64) -> int {
    spec_total_price(s, amount) * p.stock_sell_fee / (PRICE_SCALE_FACTOR as int)
}

/// Sale proceeds: the trade value minus the fee, saturating at zero.
pub open spec fn spec_sell_proceeds(p: Player, s: Stock, amount: u64) -> int {
    if spec_sell_fee(p, s, amount) >= spec_total_price(s, amount) {
        0
    } else {
        spec_total_price(s, amount) - spec_sell_fee(p, s, amount)
    }
}

/// Why a sell of `amount` shares would be rejected, or None where it
/// settles. The checks run in this order.
pub open spec fn spec_sell_error(p: Player, s: Stock, amount: u64) -> Option<MarketError> {
    if spec_total_price(s, amount) > u128::MAX {
        Some(MarketError::Overflow)
    } else if player_holding(p, s.id) < amount {
        Some(MarketError::InsufficientShares)
    } else if spec_total_price(s, amount) * p.stock_sell_fee > u128::MAX {
        Some(MarketError::Overflow)
    } else if p.money + spec_sell_proceeds(p, s, amount) > u128::MAX {
        Some(MarketError::Overflow)
    } else if s.recent_sells + amount > u64::MAX {
        Some(MarketError::Overflow)
    } else {
        None
    }
}

pub open spec fn spec_trade_error(
    p: Player,
    s: Stock,
    ty: TransactionType,
    amount: u64,
) -> Option<MarketError> {
    match ty {
        TransactionType::Buy => spec_buy_error(p, s, amount),
        TransactionType::Sell => spec_sell_error(p, s, amount),
    }
}

/// The player after a confirmed buy: money debited by cost plus fee, the
/// holding of this stock grown by exactly the bought amount, all else kept.
pub open spec fn buy_applied_player(p: Player, p2: Player, s: Stock, amount: u64) -> bool {
    &&& same_player_core(p, p2)
    &&& p2.money == p.money - spec_buy_cost(p, s, amount)
    &&& holdings_wf(p2.stocks@)
    &&& forall|sid: u16|
        player_holding(p2, sid) == player_holding(p, sid) + (if sid == s.id {
            amount as int
        } else {
            0
        })
}

/// The stock after a confirmed buy: inventory down and the buy counter up
/// by the bought amount, all else kept.
pub open spec fn buy_applied_stock(s: Stock, s2: Stock, amount: u64) -> bool {
    &&& same_stock_core(s, s2)
    &&& s2.available_shares == s.available_shares - amount
    &&& s2.recent_buys == s.recent_buys + amount
    &&& s2.recent_sells == s.recent_sells
}

/// The player after a confirmed sell: money credited with the proceeds, the
/// holding of this stock shrunk by exactly the sold amount, all else kept.
pub open spec fn sell_applied_player(p: Player, p2: Player, s: Stock, amount: u64) -> bool {
    &&& same_player_core(p, p2)
    &&& p2.money == p.money + spec_sell_proceeds(p, s, amount)
    &&& holdings_wf(p2.stocks@)
    &&& forall|sid: u16|
        player_holding(p2, sid) == player_holding(p, sid) - (if sid == s.id {
            amount as int
        } else {
            0
        })
}

/// The stock after a confirmed sell: inventory up and the sell counter up
/// by the sold amount, all else kept.
pub open spec fn sell_applied_stock(s: Stock, s2: Stock, amount: u64) -> bool {
    &&& same_stock_core(s, s2)
    &&& s2.available_shares == s.available_shares + amount
    &&& s2.recent_sells == s.recent_sells + amount
    &&& s2.recent_buys == s.recent_buys
}

pub open spec fn trade_applied_player(
    p: Player,
    p2: Player,
    s: Stock,
    ty: TransactionType,
    amount: u64,
) -> bool {
    match ty {
        TransactionType::Buy => buy_applied_player(p, p2, s, amount),
        TransactionType::Sell => sell_applied_player(p, p2, s, amount),
    }
}

pub open spec fn trade_applied_stock(s: Stock, s2: Stock, ty: TransactionType, amount: u64) -> bool {
    match ty {
        TransactionType::Buy => buy_applied_stock(s, s2, amount),
        TransactionType::Sell => sell_applied_stock(s, s2, amount),
    }
}

/// Rows other than the traded player and stock, and the id counters and
/// configuration, are untouched by one settlement.
pub open spec fn settle_frame(pre: Market, post: Market, j: int, k: int) -> bool {
    &&& post.players@.len() == pre.players@.len()
    &&& forall|j2: int|
        0 <= j2 < pre.players@.len() && j2 != j ==> post.players@[j2] == pre.players@[j2]
    &&& post.stocks@.len() == pre.stocks@.len()
    &&& forall|k2: int|
        0 <= k2 < pre.stocks@.len() && k2 != k ==> post.stocks@[k2] == pre.stocks@[k2]
    &&& post.config == pre.config
    &&& post.upgrades@ == pre.upgrades@
    &&& post.next_stock_id == pre.next_stock_id
    &&& post.next_tx_id == pre.next_tx_id
    &&& post.next_upgrade_id == pre.next_upgrade_id
}

/// No row set but the transactions changed.
pub open spec fn rows_unchanged(pre: Market, post: Market) -> bool {
    &&& post.players@ == pre.players@
    &&& post.stocks@ == pre.stocks@
    &&& post.config == pre.config
    &&& post.upgrades@ == pre.upgrades@
    &&& post.next_stock_id == pre.next_stock_id
    &&& post.next_tx_id == pre.next_tx_id
    &&& post.next_upgrade_id == pre.next_upgrade_id
}

/// Everything one settlement of the order at index `i` does to a market:
/// the order's status becomes terminal, Confirmed exactly when the trade
/// conditions held against the market as the step found it, with the
/// trade's effects applied atomically; on rejection nothing else moves.
pub open spec fn settle_rel(pre: Market, post: Market, i: int) -> bool {
    &&& post.wf()
    &&& post.transactions@.len() == pre.transactions@.len()
    &&& (forall|i2: int|
        0 <= i2 < pre.transactions@.len() && i2 != i ==> post.transactions@[i2]
            == pre.transactions@[i2])
    &&& same_tx_core(pre.transactions@[i], post.transactions@[i])
    &&& (post.transactions@[i].status is Confirmed || post.transactions@[i].status is Rejected)
    &&& post.players@.len() == pre.players@.len()
    &&& (forall|j2: int|
        0 <= j2 < pre.players@.len() ==> same_player_core(pre.players@[j2], post.players@[j2]))
    &&& post.stocks@.len() == pre.stocks@.len()
    &&& (forall|k2: int|
        0 <= k2 < pre.stocks@.len() ==> same_stock_core(pre.stocks@[k2], post.stocks@[k2]))
    &&& post.config == pre.config
    &&& post.upgrades@ == pre.upgrades@
    &&& post.next_stock_id == pre.next_stock_id
    &&& post.next_tx_id == pre.next_tx_id
    &&& post.next_upgrade_id == pre.next_upgrade_id
    &&& ((forall|j: int|
        0 <= j < pre.players@.len() ==> (#[trigger] pre.players@[j]).identity
            != pre.transactions@[i].sender) ==> post.transactions@[i].status is Rejected
        && rows_unchanged(pre, post))
    &&& ((forall|k: int|
        0 <= k < pre.stocks@.len() ==> (#[trigger] pre.stocks@[k]).id
            != pre.transactions@[i].stock_id) ==> post.transactions@[i].status is Rejected
        && rows_unchanged(pre, post))
    &&& (forall|j: int, k: int|
        0 <= j < pre.players@.len() && 0 <= k < pre.stocks@.len() && (
        #[trigger] pre.players@[j]).identity == pre.transactions@[i].sender && (
        #[trigger] pre.stocks@[k]).id == pre.transactions@[i].stock_id ==> {
            let t = pre.transactions@[i];
            let p = pre.players@[j];
            let st = pre.stocks@[k];
            match spec_trade_error(p, st, t.tx_type, t.amount) {
                Some(_) => post.transactions@[i].status is Rejected && rows_unchanged(pre, post),
                None => post.transactions@[i].status is Confirmed && settle_frame(pre, post, j, k)
                    && trade_applied_player(p, post.players@[j], st, t.tx_type, t.amount)
                    && trade_applied_stock(st, post.stocks@[k], t.tx_type, t.amount),
            }
        })
}

/// One step of the settlement pass: a pending order is settled, any other
/// is left alone together with the whole market.
pub open spec fn settle_step_rel(m1: Market, m2: Market, i: int) -> bool {
    if m1.transactions@[i].status is Pending {
        settle_rel(m1, m2, i)
    } else {
        m2 == m1
    }
}

/// The whole settlement pass: the final market is reached from the initial
/// one by one step per order, in queue order, each step evaluated against
/// the market as the previous steps left it.
pub open spec fn settle_pass_rel(pre: Market, post: Market) -> bool {
    exists|trace: Seq<Market>|
        #![trigger trace.len()]
        {
            &&& trace.len() == pre.transactions@.len() + 1
            &&& trace[0] == pre
            &&& trace[pre.transactions@.len() as int] == post
            &&& (forall|i: int|
                0 <= i < pre.transactions@.len() ==> #[trigger] settle_step_rel(
                    trace[i],
                    trace[i + 1],
                    i,
                ))
        }
}

impl Market {
    /// Apply a buy of `amount` shares of stock `k` by player `j`
    /// immediately, or report why it cannot settle and change nothing.
    pub(crate) fn buy_core(&mut self, j: usize, k: usize, amount: u64) -> (r: Result<
        (),
        MarketError,
    >)
        requires
            old(self).wf(),
            j < old(self).players@.len(),
            k < old(self).stocks@.len(),
            amount >= 1,
        ensures
            final(self).wf(),
            final(self).transactions@ == old(self).transactions@,
            match r {
                Err(e) => *final(self) == *old(self) && spec_buy_error(
                    old(self).players@[j as int],
                    old(self).stocks@[k as int],
                    amount,
                ) == Some(e),
                Ok(()) => {
                    &&& spec_buy_error(
                        old(self).players@[j as int],
                        old(self).stocks@[k as int],
                        amount,
                    ) is None
                    &&& settle_frame(*old(self), *final(self), j as int, k as int)
                    &&& buy_applied_player(
                        old(self).players@[j as int],
                        final(self).players@[j as int],
                        old(self).stocks@[k as int],
                        amount,
                    )
                    &&& buy_applied_stock(
                        old(self).stocks@[k as int],
                        final(self).stocks@[k as int],
                        amount,
                    )
                },
            },
    {
        let price = self.stocks[k].price_per_share;
        let sid = self.stocks[k].id;
        let rate = self.players[j].stock_buy_fee;
        let total_price = match price.checked_mul(amount as u128) {
            None => {
                return Err(MarketError::Overflow);
            },
            Some(v) => v,
        };
        let fee_num = match total_price.checked_mul(rate as u128) {
            None => {
                return Err(MarketError::Overflow);
            },
            Some(v) => v,
        };
        let fee = fee_num / PRICE_SCALE_FACTOR;
        let total_cost = match total_price.checked_add(fee) {
            None => {
                return Err(MarketError::Overflow);
            },
            Some(v) => v,
        };
        if self.players[j].money < total_cost {
            return Err(MarketError::InsufficientFunds);
        }
        if self.stocks[k].available_shares < amount {
            return Err(MarketError::InsufficientShares);
        }
        if self.stocks[k].recent_buys > u64::MAX - amount {
            return Err(MarketError::Overflow);
        }
        let ghost pre = *self;
        proof {
            lemma_total_held_lower(pre.players@, j as int, sid);
            lemma_holding_amount_nonneg(pre.players@[j as int].stocks@, sid);
        }
        let money = self.players[j].money;
        self.players[j].money = money - total_cost;
        add_holding(&mut self.players[j].stocks, sid, amount);
        let ghost pfinal = self.players@[j as int];
        let avail = self.stocks[k].available_shares;
        self.stocks[k].available_shares = avail - amount;
        let rb = self.stocks[k].recent_buys;
        self.stocks[k].recent_buys = rb + amount;
        let ghost sfinal = self.stocks@[k as int];
        proof {
            assert(self.players@ =~= pre.players@.update(j as int, pfinal));
            assert(self.stocks@ =~= pre.stocks@.update(k as int, sfinal));
            assert forall|k2: int| 0 <= k2 < self.stocks@.len() implies (
            #[trigger] self.stocks@[k2]).available_shares + total_held(
                self.players@,
                self.stocks@[k2].id,
            ) == self.stocks@[k2].total_shares by {
                lemma_total_held_update(pre.players@, j as int, pfinal, self.stocks@[k2].id);
            }
            assert forall|j2: int, i2: int|
                0 <= j2 < self.players@.len() && 0 <= i2 < self.players@[j2].stocks@.len()
                    implies (#[trigger] self.players@[j2].stocks@[i2]).stock_id
                < self.next_stock_id by {
                if j2 == j as int {
                    let e = self.players@[j2].stocks@[i2];
                    if e.stock_id >= self.next_stock_id {
                        assert(forall|i3: int|
                            0 <= i3 < pre.players@[j2].stocks@.len()
                                ==> (#[trigger] pre.players@[j2].stocks@[i3]).stock_id
                                != e.stock_id);
                        lemma_holding_amount_no_entry(pre.players@[j2].stocks@, e.stock_id);
                        crate::player_module::lemma_holding_entry_lower(
                            self.players@[j2].stocks@,
                            i2,
                            e.stock_id,
                        );
                    }
                }
            }
        }
        Ok(())
    }

    /// Apply a sell of `amount` shares of stock `k` by player `j`
    /// immediately, or report why it cannot settle and change nothing.
    pub(crate) fn sell_core(&mut self, j: usize, k: usize, amount: u64) -> (r: Result<
        (),
        MarketError,
    >)
        requires
            old(self).wf(),
            j < old(self).players@.len(),
            k < old(self).stocks@.len(),
            amount >= 1,
        ensures
            final(self).wf(),
            final(self).transactions@ == old(self).transactions@,
            match r {
                Err(e) => *final(self) == *old(self) && spec_sell_error(
                    old(self).players@[j as int],
                    old(self).stocks@[k as int],
                    amount,
                ) == Some(e),
                Ok(()) => {
                    &&& spec_sell_error(
                        old(self).players@[j as int],
                        old(self).stocks@[k as int],
                        amount,
                    ) is None
                    &&& settle_frame(*old(self), *final(self), j as int, k as int)
                    &&& sell_applied_player(
                        old(self).players@[j as int],
                        final(self).players@[j as int],
                        old(self).stocks@[k as int],
                        amount,
                    )
                    &&& sell_applied_stock(
                        old(self).stocks@[k as int],
                        final(self).stocks@[k as int],
                        amount,
                    )
                },
            },
    {
        let price = self.stocks[k].price_per_share;
        let sid = self.stocks[k].id;
        let rate = self.players[j].stock_sell_fee;
        let total_price = match price.checked_mul(amount as u128) {
            None => {
                return Err(MarketError::Overflow);
            },
            Some(v) => v,
        };
        let held_idx = match find_holding(&self.players[j].stocks, sid) {
            None => {
                proof {
                    lemma_holding_amount_no_entry(self.players@[j as int].stocks@, sid);
                }
                return Err(MarketError::InsufficientShares);
            },
            Some(e_idx) => e_idx,
        };
        proof {
            lemma_holding_amount_found(self.players@[j as int].stocks@, held_idx as int, sid);
        }
        if self.players[j].stocks[held_idx].amount < amount {
            return Err(MarketError::InsufficientShares);
        }
        let fee_num = match total_price.checked_mul(rate as u128) {
            None => {
                return Err(MarketError::Overflow);
            },
            Some(v) => v,
        };
        let fee = fee_num / PRICE_SCALE_FACTOR;
        let proceeds = total_price.saturating_sub(fee);
        let money = self.players[j].money;
        let new_money = match money.checked_add(proceeds) {
            None => {
                return Err(MarketError::Overflow);
            },
            Some(v) => v,
        };
        if self.stocks[k].recent_sells > u64::MAX - amount {
            return Err(MarketError::Overflow);
        }
        let ghost pre = *self;
        proof {
            lemma_total_held_lower(pre.players@, j as int, sid);
        }
        self.players[j].money = new_money;
        sub_holding(&mut self.players[j].stocks, sid, amount);
        let ghost pfinal = self.players@[j as int];
        let avail = self.stocks[k].available_shares;
        self.stocks[k].available_shares = avail + amount;
        let rs = self.stocks[k].recent_sells;
        self.stocks[k].recent_sells = rs + amount;
        let ghost sfinal = self.stocks@[k as int];
        proof {
            assert(self.players@ =~= pre.players@.update(j as int, pfinal));
            assert(self.stocks@ =~= pre.stocks@.update(k as int, sfinal));
            assert forall|k2: int| 0 <= k2 < self.stocks@.len() implies (
            #[trigger] self.stocks@[k2]).available_shares + total_held(
                self.players@,
                self.stocks@[k2].id,
            ) == self.stocks@[k2].total_shares by {
                lemma_total_held_update(pre.players@, j as int, pfinal, self.stocks@[k2].id);
            }
            assert forall|j2: int, i2: int|
                0 <= j2 < self.players@.len() && 0 <= i2 < self.players@[j2].stocks@.len()
                    implies (#[trigger] self.players@[j2].stocks@[i2]).stock_id
                < self.next_stock_id by {
                if j2 == j as int {
                    let e = self.players@[j2].stocks@[i2];
                    if e.stock_id >= self.next_stock_id {
                        assert(forall|i3: int|
                            0 <= i3 < pre.players@[j2].stocks@.len()
                                ==> (#[trigger] pre.players@[j2].stocks@[i3]).stock_id
                                != e.stock_id);
                        lemma_holding_amount_no_entry(pre.players@[j2].stocks@, e.stock_id);
                        crate::player_module::lemma_holding_entry_lower(
                            self.players@[j2].stocks@,
                            i2,
                            e.stock_id,
                        );
                    }
                }
            }
        }
        Ok(())
    }

    /// Settle the pending transaction at index `i`: resolve its sender and
    /// stock, apply the trade if it can settle, and move the status to
    /// Confirmed exactly when the trade was applied, to Rejected otherwise.
    /// The balance and inventory mutations commit atomically with the
    /// status: a rejected order has no effect at all.
    pub fn settle_tx(&mut self, i: usize)
        requires
            old(self).wf(),
            i < old(self).transactions@.len(),
            old(self).transactions@[i as int].status is Pending,
        ensures
            settle_rel(*old(self), *final(self), i as int),
    {
        let t_sender = self.transactions[i].sender;
        let t_stock_id = self.transactions[i].stock_id;
        let t_amount = self.transactions[i].amount;
        let t_type = self.transactions[i].tx_type;
        let j = match crate::market::find_player(&self.players, t_sender) {
            None => {
                self.transactions[i].status = TransactionStatus::Rejected;
                return ;
            },
            Some(j) => j,
        };
        let k = match crate::stock_module::find_stock(&self.stocks, t_stock_id) {
            None => {
                self.transactions[i].status = TransactionStatus::Rejected;
                return ;
            },
            Some(k) => k,
        };
        let res = match t_type {
            TransactionType::Buy => self.buy_core(j, k, t_amount),
            TransactionType::Sell => self.sell_core(j, k, t_amount),
        };
        match res {
            Ok(()) => {
                self.transactions[i].status = TransactionStatus::Confirmed;
            },
            Err(_) => {
                self.transactions[i].status = TransactionStatus::Rejected;
            },
        }
    }
}

/// Why creating a transaction would fail, or None where it succeeds.
pub open spec fn spec_create_tx_error(
    m: Market,
    sender: u64,
    stock_id: u16,
    amount: u64,
) -> Option<MarketError> {
    if amount == 0 {
        Some(MarketError::InvalidArgument)
    } else if forall|j: int|
        0 <= j < m.players@.len() ==> (#[trigger] m.players@[j]).identity != sender {
        Some(MarketError::NotFound)
    } else if forall|k: int| 0 <= k < m.stocks@.len() ==> (#[trigger] m.stocks@[k]).id != stock_id {
        Some(MarketError::NotFound)
    } else if m.next_tx_id == u64::MAX {
        Some(MarketError::Overflow)
    } else {
        None
    }
}

impl Market {
    /// Queue an intent to trade. The order is created Pending and settles
    /// on the next tick, not inline; the call returns at once with the new
    /// order's id. Fails when the sender or the stock is unknown, or the
    /// requested quantity is zero.
    pub fn create_transaction(
        &mut self,
        sender: u64,
        stock_id: u16,
        amount: u64,
        tx_type: TransactionType,
        now: i64,
    ) -> (r: Result<u64, MarketError>)
        requires
            old(self).wf(),
        ensures
            final(self).wf(),
            match r {
                Err(e) => *final(self) == *old(self) && spec_create_tx_error(
                    *old(self),
                    sender,
                    stock_id,
                    amount,
                ) == Some(e),
                Ok(id) => {
                    &&& spec_create_tx_error(*old(self), sender, stock_id, amount) is None
                    &&& id == old(self).next_tx_id
                    &&& final(self).transactions@ == old(self).transactions@.push(
                        (Transaction {
                            id,
                            sender,
                            stock_id,
                            amount,
                            tx_type,
                            status: TransactionStatus::Pending,
                            timestamp: now,
                        }),
                    )
                    &&& final(self).next_tx_id == old(self).next_tx_id + 1
                    &&& final(self).players@ == old(self).players@
                    &&& final(self).stocks@ == old(self).stocks@
                    &&& final(self).config == old(self).config
                    &&& final(self).upgrades@ == old(self).upgrades@
                    &&& final(self).next_stock_id == old(self).next_stock_id
                    &&& final(self).next_upgrade_id == old(self).next_upgrade_id
                },
            },
    {
        if amount == 0 {
            return Err(MarketError::InvalidArgument);
        }
        if crate::market::find_player(&self.players, sender).is_none() {
            return Err(MarketError::NotFound);
        }
        if crate::stock_module::find_stock(&self.stocks, stock_id).is_none() {
            return Err(MarketError::NotFound);
        }
        if self.next_tx_id == u64::MAX {
            return Err(MarketError::Overflow);
        }
        let id = self.next_tx_id;
        self.transactions.push(
            Transaction {
                id,
                sender,
                stock_id,
                amount,
                tx_type,
                status: TransactionStatus::Pending,
                timestamp: now,
            },
        );
        self.next_tx_id = id + 1;
        Ok(id)
    }

    /// The settlement pass: process every currently Pending transaction
    /// independently and exactly once, in queue order, each evaluated
    /// against the ledger state as mutated by the orders before it in the
    /// same pass. Terminal statuses are never revisited; a failure on one
    /// order rejects that order alone and never aborts the pass.
    pub fn update_transactions(&mut self) -> (r: Result<(), MarketError>)
        requires
            old(self).wf(),
        ensures
            final(self).wf(),
            r is Ok,
            final(self).transactions@.len() == old(self).transactions@.len(),
            forall|i: int|
                0 <= i < old(self).transactions@.len() ==> same_tx_core(
                    old(self).transactions@[i],
                    final(self).transactions@[i],
                ),
            // a terminal status never changes
            forall|i: int|
                0 <= i < old(self).transactions@.len() && !(old(
                    self,
                ).transactions@[i].status is Pending) ==> final(self).transactions@[i] == old(
                    self,
                ).transactions@[i],
            // every pending order is decided exactly once
            forall|i: int|
                0 <= i < old(self).transactions@.len() && old(
                    self,
                ).transactions@[i].status is Pending ==> (final(self).transactions@[i].status is Confirmed || final(self).transactions@[i].status is Rejected),
            final(self).players@.len() == old(self).players@.len(),
            forall|j: int|
                0 <= j < old(self).players@.len() ==> same_player_core(
                    old(self).players@[j],
                    final(self).players@[j],
                ),
            final(self).stocks@.len() == old(self).stocks@.len(),
            forall|k: int|
                0 <= k < old(self).stocks@.len() ==> same_stock_core(
                    old(self).stocks@[k],
                    final(self).stocks@[k],
                ),
            final(self).config == old(self).config,
            final(self).upgrades@ == old(self).upgrades@,
            final(self).next_stock_id == old(self).next_stock_id,
            final(self).next_tx_id == old(self).next_tx_id,
            final(self).next_upgrade_id == old(self).next_upgrade_id,
            settle_pass_rel(*old(self), *final(self)),
    {
        let n = self.transactions.len();
        let mut i: usize = 0;
        let ghost mut trace: Seq<Market> = seq![*old(self)];
        while i < n
            invariant
                self.wf(),
                n == old(self).transactions@.len(),
                i <= n,
                self.transactions@.len() == n,
                forall|i2: int|
                    i <= i2 < n ==> self.transactions@[i2] == old(self).transactions@[i2],
                forall|i2: int|
                    0 <= i2 < n ==> same_tx_core(
                        old(self).transactions@[i2],
                        self.transactions@[i2],
                    ),
                forall|i2: int|
                    0 <= i2 < n && !(old(self).transactions@[i2].status is Pending)
                        ==> self.transactions@[i2] == old(self).transactions@[i2],
                forall|i2: int|
                    0 <= i2 < i && old(self).transactions@[i2].status is Pending ==> (
                    self.transactions@[i2].status is Confirmed
                        || self.transactions@[i2].status is Rejected),
                self.players@.len() == old(self).players@.len(),
                forall|j: int|
                    0 <= j < old(self).players@.len() ==> same_player_core(
                        old(self).players@[j],
                        self.players@[j],
                    ),
                self.stocks@.len() == old(self).stocks@.len(),
                forall|k: int|
                    0 <= k < old(self).stocks@.len() ==> same_stock_core(
                        old(self).stocks@[k],
                        self.stocks@[k],
                    ),
                self.config == old(self).config,
                self.upgrades@ == old(self).upgrades@,
                self.next_stock_id == old(self).next_stock_id,
                self.next_tx_id == old(self).next_tx_id,
                self.next_upgrade_id == old(self).next_upgrade_id,
                trace.len() == i + 1,
                trace[0] == *old(self),
                trace[i as int] == *self,
                forall|i2: int|
                    0 <= i2 < i ==> #[trigger] settle_step_rel(trace[i2], trace[i2 + 1], i2),
            decreases n - i,
        {
            let ghost pre_step = *self;
            let pending = match self.transactions[i].status {
                TransactionStatus::Pending => true,
                _ => false,
            };
            if pending {
                let ghost mid = *self;
                self.settle_tx(i);
                proof {
                    assert forall|j: int|
                        0 <= j < old(self).players@.len() implies same_player_core(
                        old(self).players@[j],
                        self.players@[j],
                    ) by {
                        assert(same_player_core(mid.players@[j], self.players@[j]));
                    }
                    assert forall|k: int|
                        0 <= k < old(self).stocks@.len() implies same_stock_core(
                        old(self).stocks@[k],
                        self.stocks@[k],
                    ) by {
                        assert(same_stock_core(mid.stocks@[k], self.stocks@[k]));
                    }
                }
            }
            proof {
                trace = trace.push(*self);
                assert(settle_step_rel(pre_step, *self, i as int));
                assert(trace[i as int] == pre_step);
                assert(trace[i + 1] == *self);
            }
            i = i + 1;
        }
        proof {
            assert(trace.len() == old(self).transactions@.len() + 1 && trace[0] == *old(self)
                && trace[old(self).transactions@.len() as int] == *self && (forall|i2: int|
                0 <= i2 < old(self).transactions@.len() ==> #[trigger] settle_step_rel(
                    trace[i2],
                    trace[i2 + 1],
                    i2,
                )));
            assert(settle_pass_rel(*old(self), *self));
        }
        Ok(())
    }

    /// Buy shares immediately, applying settlement-equivalent logic inline
    /// rather than queuing an order.
    pub fn buy_stock(&mut self, sender: u64, stock_id: u16, amount: u64) -> (r: Result<
        (),
        MarketError,
    >)
        requires
            old(self).wf(),
        ensures
            final(self).wf(),
            final(self).transactions@ == old(self).transactions@,
            (amount == 0 ==> r == Err::<(), MarketError>(MarketError::InvalidArgument) && *final(self) == *old(self)),
            (amount >= 1 && (forall|j: int|
                0 <= j < old(self).players@.len() ==> (#[trigger] old(self).players@[j]).identity
                    != sender) ==> r == Err::<(), MarketError>(MarketError::NotFound) && *final(self) == *old(self)),
            (amount >= 1 && (forall|k: int|
                0 <= k < old(self).stocks@.len() ==> (#[trigger] old(self).stocks@[k]).id
                    != stock_id) ==> r == Err::<(), MarketError>(MarketError::NotFound) && *final(self) == *old(self)),
            forall|j: int, k: int|
                0 <= j < old(self).players@.len() && 0 <= k < old(self).stocks@.len() && (
                #[trigger] old(self).players@[j]).identity == sender && (#[trigger] old(
                    self,
                ).stocks@[k]).id == stock_id && amount >= 1 ==> {
                    let p = old(self).players@[j];
                    let s = old(self).stocks@[k];
                    match spec_buy_error(p, s, amount) {
                        Some(e) => r == Err::<(), MarketError>(e) && *final(self) == *old(self),
                        None => r is Ok && settle_frame(*old(self), *final(self), j, k)
                            && buy_applied_player(p, final(self).players@[j], s, amount)
                            && buy_applied_stock(s, final(self).stocks@[k], amount),
                    }
                },
    {
        if amount == 0 {
            return Err(MarketError::InvalidArgument);
        }
        let j = match crate::market::find_player(&self.players, sender) {
            None => {
                return Err(MarketError::NotFound);
            },
            Some(j) => j,
        };
        let k = match crate::stock_module::find_stock(&self.stocks, stock_id) {
            None => {
                return Err(MarketError::NotFound);
            },
            Some(k) => k,
        };
        self.buy_core(j, k, amount)
    }

    /// Sell shares immediately, applying settlement-equivalent logic inline
    /// rather than queuing an order.
    pub fn sell_stock(&mut self, sender: u64, stock_id: u16, amount: u64) -> (r: Result<
        (),
        MarketError,
    >)
        requires
            old(self).wf(),
        ensures
            final(self).wf(),
            final(self).transactions@ == old(self).transactions@,
            (amount == 0 ==> r == Err::<(), MarketError>(MarketError::InvalidArgument) && *final(self) == *old(self)),
            (amount >= 1 && (forall|j: int|
                0 <= j < old(self).players@.len() ==> (#[trigger] old(self).players@[j]).identity
                    != sender) ==> r == Err::<(), MarketError>(MarketError::NotFound) && *final(self) == *old(self)),
            (amount >= 1 && (forall|k: int|
                0 <= k < old(self).stocks@.len() ==> (#[trigger] old(self).stocks@[k]).id
                    != stock_id) ==> r == Err::<(), MarketError>(MarketError::NotFound) && *final(self) == *old(self)),
            forall|j: int, k: int|
                0 <= j < old(self).players@.len() && 0 <= k < old(self).stocks@.len() && (
                #[trigger] old(self).players@[j]).identity == sender && (#[trigger] old(
                    self,
                ).stocks@[k]).id == stock_id && amount >= 1 ==> {
                    let p = old(self).players@[j];
                    let s = old(self).stocks@[k];
                    match spec_sell_error(p, s, amount) {
                        Some(e) => r == Err::<(), MarketError>(e) && *final(self) == *old(self),
                        None => r is Ok && settle_frame(*old(self), *final(self), j, k)
                            && sell_applied_player(p, final(self).players@[j], s, amount)
                            && sell_applied_stock(s, final(self).stocks@[k], amount),
                    }
                },
    {
        if amount == 0 {
            return Err(MarketError::InvalidArgument);
        }
        let j = match crate::market::find_player(&self.players, sender) {
            None => {
                return Err(MarketError::NotFound);
            },
            Some(j) => j,
        };
        let k = match crate::stock_module::find_stock(&self.stocks, stock_id) {
            None => {
                return Err(MarketError::NotFound);
            },
            Some(k) => k,
        };
        self.sell_core(j, k, amount)
    }
}

} // verus!