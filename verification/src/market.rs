use vstd::prelude::*;

use crate::player_module::{holding_amount, holdings_wf, player_holding, Player};
use crate::stock_module::{MarketConfig, Stock};
use crate::transaction_module::{Transaction, TransactionStatus};
use crate::upgrades_module::Upgrades;

verus! {

/// Shares of `sid` held across all players.
pub open spec fn total_held(ps: Seq<Player>, sid: u16) -> int
    decreases ps.len(),
{
    if ps.len() == 0 {
        0
    } else {
        total_held(ps.drop_last(), sid) + player_holding(ps.last(), sid)
    }
}

pub proof fn lemma_total_held_nonneg(ps: Seq<Player>, sid: u16)
    ensures
        total_held(ps, sid) >= 0,
    decreases ps.len(),
{
    if ps.len() > 0 {
        lemma_total_held_nonneg(ps.drop_last(), sid);
        crate::player_module::lemma_holding_amount_nonneg(ps.last().stocks@, sid);
    }
}

pub proof fn lemma_total_held_push(ps: Seq<Player>, p: Player, sid: u16)
    ensures
        total_held(ps.push(p), sid) == total_held(ps, sid) + player_holding(p, sid),
{
    assert(ps.push(p).drop_last() =~= ps);
}

pub proof fn lemma_total_held_update(ps: Seq<Player>, j: int, p: Player, sid: u16)
    requires
        0 <= j < ps.len(),
    ensures
        total_held(ps.update(j, p), sid) == total_held(ps, sid) - player_holding(ps[j], sid)
            + player_holding(p, sid),
    decreases ps.len(),
{
    let upd = ps.update(j, p);
    if j == ps.len() - 1 {
        assert(upd.drop_last() =~= ps.drop_last());
        assert(upd.last() == p);
    } else {
        assert(upd.drop_last() =~= ps.drop_last().update(j, p));
        lemma_total_held_update(ps.drop_last(), j, p, sid);
        assert(upd.last() == ps.last());
    }
}

/// One player's holding never exceeds the sum over all players.
pub proof fn lemma_total_held_lower(ps: Seq<Player>, j: int, sid: u16)
    requires
        0 <= j < ps.len(),
    ensures
        total_held(ps, sid) >= player_holding(ps[j], sid),
    decreases ps.len(),
{
    if j == ps.len() - 1 {
        lemma_total_held_nonneg(ps.drop_last(), sid);
    } else {
        lemma_total_held_lower(ps.drop_last(), j, sid);
        crate::player_module::lemma_holding_amount_nonneg(ps.last().stocks@, sid);
    }
}

/// A stock id that no holdings entry names is held by nobody.
pub proof fn lemma_total_held_fresh(ps: Seq<Player>, sid: u16)
    requires
        forall|j: int, i: int|
            0 <= j < ps.len() && 0 <= i < ps[j].stocks@.len() ==> (#[trigger] ps[j].stocks@[i]).stock_id
                != sid,
    ensures
        total_held(ps, sid) == 0,
    decreases ps.len(),
{
    if ps.len() > 0 {
        assert forall|j: int, i: int|
            0 <= j < ps.drop_last().len() && 0 <= i < ps.drop_last()[j].stocks@.len()
                implies (#[trigger] ps.drop_last()[j].stocks@[i]).stock_id != sid by {
            assert(ps.drop_last()[j] == ps[j]);
        }
        lemma_total_held_fresh(ps.drop_last(), sid);
        assert(ps.last() == ps[ps.len() - 1]);
        crate::player_module::lemma_holding_amount_no_entry(ps.last().stocks@, sid);
    }
}

/// The whole market state: the row sets of the shared store, plus the id
/// counters that assign unique, never-reused identifiers.
pub struct Market {
    pub config: Option<MarketConfig>,
    pub stocks: Vec<Stock>,
    pub players: Vec<Player>,
    pub transactions: Vec<Transaction>,
    pub upgrades: Vec<Upgrades>,
    pub next_stock_id: u16,
    pub next_tx_id: u64,
    pub next_upgrade_id: u16,
}

impl Market {
    pub open spec fn stocks_wf(self) -> bool {
        &&& forall|k: int|
            0 <= k < self.stocks@.len() ==> (#[trigger] self.stocks@[k]).wf() && self.stocks@[k].id
                < self.next_stock_id
        &&& forall|k1: int, k2: int|
            0 <= k1 < k2 < self.stocks@.len() ==> self.stocks@[k1].id != self.stocks@[k2].id
    }

    pub open spec fn players_wf(self) -> bool {
        &&& forall|j: int|
            0 <= j < self.players@.len() ==> holdings_wf((#[trigger] self.players@[j]).stocks@)
        &&& forall|j1: int, j2: int|
            0 <= j1 < j2 < self.players@.len() ==> self.players@[j1].identity
                != self.players@[j2].identity
        &&& forall|j: int, i: int|
            0 <= j < self.players@.len() && 0 <= i < self.players@[j].stocks@.len()
                ==> (#[trigger] self.players@[j].stocks@[i]).stock_id < self.next_stock_id
    }

    pub open spec fn transactions_wf(self) -> bool {
        &&& forall|i: int|
            0 <= i < self.transactions@.len() ==> (#[trigger] self.transactions@[i]).id
                < self.next_tx_id && self.transactions@[i].amount >= 1
        &&& forall|i1: int, i2: int|
            0 <= i1 < i2 < self.transactions@.len() ==> self.transactions@[i1].id
                != self.transactions@[i2].id
    }

    pub open spec fn upgrades_wf(self) -> bool {
        &&& forall|u: int|
            0 <= u < self.upgrades@.len() ==> (#[trigger] self.upgrades@[u]).id
                < self.next_upgrade_id
        &&& forall|u1: int, u2: int|
            0 <= u1 < u2 < self.upgrades@.len() ==> self.upgrades@[u1].id != self.upgrades@[u2].id
    }

    /// The ledger invariant: for every stock, the shares not held by
    /// players plus the shares held across all players equal the supply
    /// ceiling fixed at creation.
    pub open spec fn shares_conserved(self) -> bool {
        forall|k: int|
            0 <= k < self.stocks@.len() ==> (#[trigger] self.stocks@[k]).available_shares
                + total_held(self.players@, self.stocks@[k].id) == self.stocks@[k].total_shares
    }

    pub open spec fn wf(self) -> bool {
        &&& self.stocks_wf()
        &&& self.players_wf()
        &&& self.transactions_wf()
        &&& self.upgrades_wf()
        &&& self.shares_conserved()
    }

    /// An empty market: no rows, no configuration, fresh id counters.
    pub fn new() -> (m: Market)
        ensures
            m.wf(),
            m.config is None,
            m.stocks@.len() == 0,
            m.players@.len() == 0,
            m.transactions@.len() == 0,
            m.upgrades@.len() == 0,
            m.next_stock_id == 1,
            m.next_tx_id == 1,
            m.next_upgrade_id == 1,
    {
        Market {
            config: None,
            stocks: Vec::new(),
            players: Vec::new(),
            transactions: Vec::new(),
            upgrades: Vec::new(),
            next_stock_id: 1,
            next_tx_id: 1,
            next_upgrade_id: 1,
        }
    }
}


impl Market {
    /// The stock rows, for listing.
    pub fn stocks_list(&self) -> (r: &Vec<Stock>)
        ensures
            r@ == self.stocks@,
    {
        &self.stocks
    }

    /// The player row with the given identity, if any.
    pub fn get_player(&self, identity: u64) -> (r: Option<&Player>)
        ensures
            match r {
                Some(p) => exists|j: int|
                    0 <= j < self.players@.len() && #[trigger] self.players@[j] == *p
                        && p.identity == identity,
                None => forall|j: int|
                    0 <= j < self.players@.len() ==> (#[trigger] self.players@[j]).identity
                        != identity,
            },
    {
        match find_player(&self.players, identity) {
            None => None,
            Some(j) => {
                let p = &self.players[j];
                proof {
                    assert(self.players@[j as int] == *p);
                }
                Some(p)
            },
        }
    }

    /// A player's transactions with the given status, in queue order.
    pub fn transactions_of(&self, sender: u64, status: TransactionStatus) -> (r: Vec<Transaction>)
        ensures
            r@ == self.transactions@.filter(
                |t: Transaction| t.sender == sender && t.status == status,
            ),
    {
        let ghost pred = |t: Transaction| t.sender == sender && t.status == status;
        let mut r: Vec<Transaction> = Vec::new();
        let n = self.transactions.len();
        let mut i: usize = 0;
        proof {
            assert(self.transactions@.take(0).filter(pred) =~= Seq::<Transaction>::empty());
        }
        while i < n
            invariant
                n == self.transactions@.len(),
                i <= n,
                pred == (|t: Transaction| t.sender == sender && t.status == status),
                r@ == self.transactions@.take(i as int).filter(pred),
            decreases n - i,
        {
            let t = self.transactions[i];
            proof {
                reveal(Seq::filter);
                assert(self.transactions@.take(i + 1).drop_last() =~= self.transactions@.take(
                    i as int,
                ));
                assert(self.transactions@.take(i + 1).last() == self.transactions@[i as int]);
            }
            if t.sender == sender && t.status == status {
                r.push(t);
            }
            i = i + 1;
        }
        proof {
            assert(self.transactions@.take(n as int) =~= self.transactions@);
        }
        r
    }
}

/// Find the index of the player with the given identity.
pub fn find_player(players: &Vec<Player>, identity: u64) -> (r: Option<usize>)
    ensures
        match r {
            Some(j) => j < players@.len() && players@[j as int].identity == identity,
            None => forall|i: int|
                0 <= i < players@.len() ==> (#[trigger] players@[i]).identity != identity,
        },
{
    let mut j: usize = 0;
    while j < players.len()
        invariant
            j <= players@.len(),
            forall|i: int| 0 <= i < j ==> (#[trigger] players@[i]).identity != identity,
        decreases players@.len() - j,
    {
        if players[j].identity == identity {
            return Some(j);
        }
        j = j + 1;
    }
    None
}

} // verus!
