use vstd::prelude::*;

use crate::constants::PRICE_SCALE_FACTOR;
use crate::errors::MarketError;
use crate::market::{find_player, lemma_total_held_update, Market};
use crate::player_module::{sat_add_u128, Player};

verus! {

/// A purchasable upgrade. The optional bonus fields mean "no bonus" when
/// absent; absence and a zero bonus are behaviorally identical but the
/// distinction is kept.
pub struct Upgrades {
    pub id: u16,
    pub level: u8,
    /// Display-unit cost; scaled by PRICE_SCALE_FACTOR when charged.
    pub cost: u128,
    pub title: String,
    pub identifier: String,
    pub description: String,
    pub passive_income_bonus: Option<u128>,
    pub click_power_bonus: Option<u128>,
    pub click_timer_bonus: Option<u64>,
}


/// The fixed-point amount actually charged for an upgrade.
pub open spec fn spec_upgrade_cost(u: Upgrades) -> int {
    u.cost * PRICE_SCALE_FACTOR
}

pub open spec fn player_owns_upgrade(p: Player, id: u16) -> bool {
    exists|i: int| 0 <= i < p.upgrades@.len() && p.upgrades@[i] == id
}

/// Saturating i64 subtraction of a non-negative delta.
pub open spec fn sat_sub_i64(a: int, b: int) -> int {
    if a - b >= i64::MIN {
        a - b
    } else {
        i64::MIN as int
    }
}

/// A click-timer bonus is capped at the signed width before it is applied.
pub open spec fn spec_timer_delta(b: u64) -> int {
    if b > i64::MAX {
        i64::MAX as int
    } else {
        b as int
    }
}

/// The whole effect of a purchased upgrade on the buyer's row.
pub open spec fn upgrade_applied(p: Player, p2: Player, u: Upgrades) -> bool {
    &&& p2.money == p.money - spec_upgrade_cost(u)
    &&& p2.passive_income == (match u.passive_income_bonus {
        Some(b) => sat_add_u128(p.passive_income as int, b as int),
        None => p.passive_income as int,
    })
    &&& p2.click_power == (match u.click_power_bonus {
        Some(b) => sat_add_u128(p.click_power as int, b as int),
        None => p.click_power as int,
    })
    &&& p2.click_timer == (match u.click_timer_bonus {
        Some(b) => sat_sub_i64(p.click_timer as int, spec_timer_delta(b)),
        None => p.click_timer as int,
    })
    &&& p2.upgrades@ == p.upgrades@.push(u.id)
    &&& p2.identity == p.identity
    &&& p2.username == p.username
    &&& p2.online == p.online
    &&& p2.stocks@ == p.stocks@
    &&& p2.last_click == p.last_click
    &&& p2.stock_buy_fee == p.stock_buy_fee
    &&& p2.stock_sell_fee == p.stock_sell_fee
}

impl Market {
    /// Charge the sender for an upgrade it does not own yet and apply the
    /// upgrade's bonuses to its row.
    pub fn buy_upgrade(&mut self, identity: u64, upgrade_id: u16) -> (r: Result<(), MarketError>)
        requires
            old(self).wf(),
        ensures
            final(self).wf(),
            final(self).stocks@ == old(self).stocks@,
            final(self).transactions@ == old(self).transactions@,
            final(self).config == old(self).config,
            final(self).upgrades@ == old(self).upgrades@,
            final(self).next_stock_id == old(self).next_stock_id,
            final(self).next_tx_id == old(self).next_tx_id,
            final(self).next_upgrade_id == old(self).next_upgrade_id,
            (forall|j: int|
                0 <= j < old(self).players@.len() ==> (#[trigger] old(self).players@[j]).identity
                    != identity) ==> r == Err::<(), MarketError>(MarketError::NotFound) && *final(self)
                == *old(self),
            forall|j: int|
                0 <= j < old(self).players@.len() && (#[trigger] old(self).players@[j]).identity
                    == identity ==> {
                    let p = old(self).players@[j];
                    if player_owns_upgrade(p, upgrade_id) {
                        r == Err::<(), MarketError>(MarketError::InvalidArgument) && *final(self)
                            == *old(self)
                    } else if forall|u: int|
                        0 <= u < old(self).upgrades@.len() ==> (
                        #[trigger] old(self).upgrades@[u]).id != upgrade_id {
                        r == Err::<(), MarketError>(MarketError::NotFound) && *final(self) == *old(
                            self,
                        )
                    } else {
                        forall|u: int|
                            0 <= u < old(self).upgrades@.len() && (
                            #[trigger] old(self).upgrades@[u]).id == upgrade_id ==> {
                                let up = old(self).upgrades@[u];
                                if spec_upgrade_cost(up) > u128::MAX {
                                    r == Err::<(), MarketError>(MarketError::Overflow) && *final(self)
                                        == *old(self)
                                } else if p.money < spec_upgrade_cost(up) {
                                    r == Err::<(), MarketError>(MarketError::InsufficientFunds)
                                        && *final(self) == *old(self)
                                } else {
                                    r is Ok && final(self).players@.len() == old(
                                        self,
                                    ).players@.len() && (forall|j2: int|
                                        0 <= j2 < old(self).players@.len() && j2 != j ==> final(self)
                                            .players@[j2] == old(self).players@[j2])
                                        && upgrade_applied(p, final(self).players@[j], up)
                                }
                            }
                    }
                },
    {
        let j = match find_player(&self.players, identity) {
            None => {
                return Err(MarketError::NotFound);
            },
            Some(j) => j,
        };
        let mut owned = false;
        let n_up = self.players[j].upgrades.len();
        let mut i: usize = 0;
        while i < n_up
            invariant
                j < self.players@.len(),
                n_up == self.players@[j as int].upgrades@.len(),
                i <= n_up,
                owned <==> exists|i2: int|
                    0 <= i2 < i && self.players@[j as int].upgrades@[i2] == upgrade_id,
            decreases n_up - i,
        {
            if self.players[j].upgrades[i] == upgrade_id {
                owned = true;
            }
            i = i + 1;
        }
        if owned {
            return Err(MarketError::InvalidArgument);
        }
        let u = match find_upgrade(&self.upgrades, upgrade_id) {
            None => {
                return Err(MarketError::NotFound);
            },
            Some(u) => u,
        };
        let scaled_cost = match self.upgrades[u].cost.checked_mul(PRICE_SCALE_FACTOR) {
            None => {
                return Err(MarketError::Overflow);
            },
            Some(v) => v,
        };
        if self.players[j].money < scaled_cost {
            return Err(MarketError::InsufficientFunds);
        }
        let ghost pre = self.players@;
        let m = self.players[j].money;
        self.players[j].money = m - scaled_cost;
        if let Some(b) = self.upgrades[u].passive_income_bonus {
            let v = self.players[j].passive_income;
            self.players[j].passive_income = v.saturating_add(b);
        }
        if let Some(b) = self.upgrades[u].click_power_bonus {
            let v = self.players[j].click_power;
            self.players[j].click_power = v.saturating_add(b);
        }
        if let Some(b) = self.upgrades[u].click_timer_bonus {
            let capped: i64 = if b > (i64::MAX as u64) {
                i64::MAX
            } else {
                b as i64
            };
            let ct = self.players[j].click_timer;
            let new_ct = match ct.checked_sub(capped) {
                None => i64::MIN,
                Some(v) => v,
            };
            self.players[j].click_timer = new_ct;
        }
        self.players[j].upgrades.push(upgrade_id);
        proof {
            let p2 = self.players@[j as int];
            assert(self.players@ =~= pre.update(j as int, p2));
            assert forall|k: int| 0 <= k < self.stocks@.len() implies (
            #[trigger] self.stocks@[k]).available_shares + crate::market::total_held(
                self.players@,
                self.stocks@[k].id,
            ) == self.stocks@[k].total_shares by {
                lemma_total_held_update(pre, j as int, p2, self.stocks@[k].id);
            }
        }
        Ok(())
    }

    /// Register a purchasable upgrade row.
    pub fn add_upgrade(
        &mut self,
        identifier: String,
        title: String,
        description: String,
        level: u8,
        cost: u128,
        passive_income_bonus: Option<u128>,
        click_power_bonus: Option<u128>,
        click_timer_bonus: Option<u64>,
    ) -> (r: Result<(), MarketError>)
        requires
            old(self).wf(),
        ensures
            final(self).wf(),
            final(self).stocks@ == old(self).stocks@,
            final(self).players@ == old(self).players@,
            final(self).transactions@ == old(self).transactions@,
            final(self).config == old(self).config,
            final(self).next_stock_id == old(self).next_stock_id,
            final(self).next_tx_id == old(self).next_tx_id,
            match r {
                Err(e) => {
                    &&& *final(self) == *old(self)
                    &&& e == MarketError::Overflow
                    &&& old(self).next_upgrade_id == u16::MAX
                },
                Ok(()) => {
                    &&& old(self).next_upgrade_id < u16::MAX
                    &&& final(self).upgrades@.len() == old(self).upgrades@.len() + 1
                    &&& (forall|u: int|
                        0 <= u < old(self).upgrades@.len() ==> final(self).upgrades@[u] == old(
                            self,
                        ).upgrades@[u])
                    &&& final(self).upgrades@.last().id == old(self).next_upgrade_id
                    &&& final(self).upgrades@.last().identifier == identifier
                    &&& final(self).upgrades@.last().title == title
                    &&& final(self).upgrades@.last().description == description
                    &&& final(self).upgrades@.last().level == level
                    &&& final(self).upgrades@.last().cost == cost
                    &&& final(self).upgrades@.last().passive_income_bonus == passive_income_bonus
                    &&& final(self).upgrades@.last().click_power_bonus == click_power_bonus
                    &&& final(self).upgrades@.last().click_timer_bonus == click_timer_bonus
                    &&& final(self).next_upgrade_id == old(self).next_upgrade_id + 1
                },
            },
    {
        if self.next_upgrade_id == u16::MAX {
            return Err(MarketError::Overflow);
        }
        let id = self.next_upgrade_id;
        self.upgrades.push(
            Upgrades {
                id,
                level,
                cost,
                title,
                identifier,
                description,
                passive_income_bonus,
                click_power_bonus,
                click_timer_bonus,
            },
        );
        self.next_upgrade_id = id + 1;
        Ok(())
    }
}

/// Find the index of the upgrade with the given id.
pub fn find_upgrade(upgrades: &Vec<Upgrades>, id: u16) -> (r: Option<usize>)
    ensures
        match r {
            Some(k) => k < upgrades@.len() && upgrades@[k as int].id == id,
            None => forall|i: int| 0 <= i < upgrades@.len() ==> (#[trigger] upgrades@[i]).id != id,
        },
{
    let mut k: usize = 0;
    while k < upgrades.len()
        invariant
            k <= upgrades@.len(),
            forall|i: int| 0 <= i < k ==> (#[trigger] upgrades@[i]).id != id,
        decreases upgrades@.len() - k,
    {
        if upgrades[k].id == id {
            return Some(k);
        }
        k = k + 1;
    }
    None
}

} // verus!
