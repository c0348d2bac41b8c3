//! A fungible ledger: free balances, allowances, a total supply, and a pool
//! of balance reserved as collateral.
//!
//! The same ledger serves the reserve asset and each stablecoin.
use vstd::prelude::*;

use crate::arith::{sat_add, sat_sub};
use crate::origin::Origin;
use crate::table::{
    find_account, find_pair, keys_unique, lemma_table_map_dom, lemma_table_map_index,
    lemma_table_push, lemma_table_sum_bounds, lemma_table_sum_nonneg, lemma_table_update,
    table_map, table_sum, value_or,
};

verus! {

#[derive(Debug, Clone, Copy, PartialEq, Eq)]
pub enum Error {
    InsufficientBalance,
    InsufficientAllowance,
    SelfTransfer,
    NotAuthorized,
}

#[derive(Debug, Clone, Copy, PartialEq, Eq)]
pub enum Event {
    Transfer { from: u64, to: u64, amount: u128 },
    Mint { to: u64, amount: u128 },
    Burn { from: u64, amount: u128 },
    Approval { owner: u64, spender: u64, amount: u128 },
}

/// The value of a balance entry, for sums.
pub open spec fn amount_value() -> spec_fn(u128) -> int {
    |v: u128| v as int
}

/// The account that signed `origin`, if any.
pub open spec fn signer(origin: Origin) -> Option<u64> {
    match origin {
        Origin::Signed(who) => Some(who),
        Origin::Root => None,
    }
}

pub struct Pallet {
    /// Free balance of each account that has held one.
    pub balances: Vec<(u64, u128)>,
    /// Allowance granted by an owner (first) to a spender (second).
    pub allowances: Vec<((u64, u64), u128)>,
    pub supply: u128,
    /// Balance taken out of free balances and held as collateral.
    pub reserved: u128,
    pub events: Vec<Event>,
}

impl Pallet {
    /// Each account and each (owner, spender) pair has at most one entry.
    pub open spec fn wf(&self) -> bool {
        keys_unique(self.balances@) && keys_unique(self.allowances@)
    }

    /// Sum of all free balances.
    pub open spec fn free_total(&self) -> int {
        table_sum(self.balances@, amount_value())
    }

    /// Free balances and the reserved pool together make up the total supply.
    pub open spec fn conserved(&self) -> bool {
        self.free_total() + self.reserved == self.supply
    }

    pub open spec fn balance_map(&self) -> Map<u64, u128> {
        table_map(self.balances@)
    }

    pub open spec fn balance(&self, who: u64) -> u128 {
        value_or(self.balances@, who, 0)
    }

    pub open spec fn allowance_map(&self) -> Map<(u64, u64), u128> {
        table_map(self.allowances@)
    }

    pub open spec fn allowance_of(&self, owner: u64, spender: u64) -> u128 {
        value_or(self.allowances@, (owner, spender), 0)
    }

    /// The state after `who`'s free balance is set to `v`, all else kept.
    pub open spec fn balance_set(&self, post: &Pallet, who: u64, v: u128) -> bool {
        &&& post.wf()
        &&& post.balance_map() == self.balance_map().insert(who, v)
        &&& post.free_total() == self.free_total() - self.balance(who) + v
        &&& post.allowances == self.allowances
        &&& post.supply == self.supply
        &&& post.reserved == self.reserved
        &&& post.events == self.events
    }

    /// `post` is this ledger after `amount` was minted to `who`.
    pub open spec fn minted_to(&self, post: &Pallet, who: u64, amount: u128) -> bool {
        &&& post.wf()
        &&& post.balance_map() == self.balance_map().insert(who, sat_add(self.balance(who), amount))
        &&& post.supply == sat_add(self.supply, amount)
        &&& post.allowances == self.allowances
        &&& post.reserved == self.reserved
        &&& post.events == self.events
    }

    /// `post` is this ledger after `amount` of `who`'s balance was burned.
    pub open spec fn burned_from(&self, post: &Pallet, who: u64, amount: u128) -> bool {
        &&& post.wf()
        &&& post.balance_map() == self.balance_map().insert(
            who,
            (self.balance(who) - amount) as u128,
        )
        &&& post.supply == sat_sub(self.supply, amount)
        &&& post.allowances == self.allowances
        &&& post.reserved == self.reserved
        &&& post.events == self.events
    }

    /// `post` is this ledger after `amount` of `who`'s balance was reserved.
    pub open spec fn reserved_from(&self, post: &Pallet, who: u64, amount: u128) -> bool {
        &&& post.wf()
        &&& post.balance_map() == self.balance_map().insert(
            who,
            (self.balance(who) - amount) as u128,
        )
        &&& post.reserved == sat_add(self.reserved, amount)
        &&& post.supply == self.supply
        &&& post.allowances == self.allowances
        &&& post.events == self.events
    }

    /// `post` is this ledger after `amount` left the reserved pool for `to`'s free balance.
    pub open spec fn unreserved_to(&self, post: &Pallet, to: u64, amount: u128) -> bool {
        &&& post.wf()
        &&& post.balance_map() == self.balance_map().insert(to, sat_add(self.balance(to), amount))
        &&& post.reserved == sat_sub(self.reserved, amount)
        &&& post.supply == self.supply
        &&& post.allowances == self.allowances
        &&& post.events == self.events
    }

    /// A free balance is at most the sum of all free balances.
    pub proof fn lemma_balance_bounded(&self, who: u64)
        requires
            self.wf(),
        ensures
            0 <= self.balance(who) <= self.free_total(),
    {
        let f = amount_value();
        lemma_table_sum_nonneg(self.balances@, f);
        lemma_table_map_dom(self.balances@, who);
        if self.balance_map().contains_key(who) {
            let i = choose|i: int| 0 <= i < self.balances@.len() && self.balances@[i].0 == who;
            lemma_table_map_index(self.balances@, i);
            lemma_table_sum_bounds(self.balances@, i, f);
        }
    }

    pub fn new() -> (r: Pallet)
        ensures
            r.wf(),
            r.conserved(),
            r.balance_map() == Map::<u64, u128>::empty(),
            r.allowance_map() == Map::<(u64, u64), u128>::empty(),
            r.supply == 0,
            r.reserved == 0,
            r.events@ == Seq::<Event>::empty(),
    {
        let r = Pallet {
            balances: Vec::new(),
            allowances: Vec::new(),
            supply: 0,
            reserved: 0,
            events: Vec::new(),
        };
        assert(r.balance_map() =~= Map::<u64, u128>::empty());
        assert(r.allowance_map() =~= Map::<(u64, u64), u128>::empty());
        r
    }

    pub fn balance_of(&self, who: u64) -> (r: u128)
        requires
            self.wf(),
        ensures
            r == self.balance(who),
    {
        match find_account(&self.balances, who) {
            Some(i) => {
                proof {
                    lemma_table_map_index(self.balances@, i as int);
                }
                self.balances[i].1
            },
            None => {
                proof {
                    lemma_table_map_dom(self.balances@, who);
                }
                0
            },
        }
    }

    pub fn allowance(&self, owner: u64, spender: u64) -> (r: u128)
        requires
            self.wf(),
        ensures
            r == self.allowance_of(owner, spender),
    {
        match find_pair(&self.allowances, owner, spender) {
            Some(i) => {
                proof {
                    lemma_table_map_index(self.allowances@, i as int);
                }
                self.allowances[i].1
            },
            None => {
                proof {
                    lemma_table_map_dom(self.allowances@, (owner, spender));
                }
                0
            },
        }
    }

    pub fn total_supply(&self) -> (r: u128)
        ensures
            r == self.supply,
    {
        self.supply
    }

    pub fn reserved_total(&self) -> (r: u128)
        ensures
            r == self.reserved,
    {
        self.reserved
    }

    /// The most recent event, if any.
    pub fn last_event(&self) -> (r: Option<Event>)
        ensures
            r == (if self.events@.len() == 0 {
                None
            } else {
                Some(self.events@.last())
            }),
    {
        if self.events.len() == 0 {
            None
        } else {
            Some(self.events[self.events.len() - 1])
        }
    }

    fn set_balance(&mut self, who: u64, v: u128)
        requires
            old(self).wf(),
        ensures
            old(self).balance_set(final(self), who, v),
            0 <= old(self).balance(who) <= old(self).free_total(),
    {
        let ghost f = amount_value();
        proof {
            lemma_table_sum_nonneg(self.balances@, f);
        }
        match find_account(&self.balances, who) {
            Some(i) => {
                proof {
                    lemma_table_map_index(self.balances@, i as int);
                    lemma_table_update(self.balances@, i as int, v, f);
                    lemma_table_sum_bounds(self.balances@, i as int, f);
                }
                self.balances.set(i, (who, v));
            },
            None => {
                proof {
                    lemma_table_map_dom(self.balances@, who);
                    lemma_table_push(self.balances@, who, v, f);
                }
                self.balances.push((who, v));
            },
        }
    }

    fn set_allowance(&mut self, owner: u64, spender: u64, v: u128)
        requires
            old(self).wf(),
        ensures
            final(self).wf(),
            final(self).allowance_map() == old(self).allowance_map().insert((owner, spender), v),
            final(self).balances == old(self).balances,
            final(self).supply == old(self).supply,
            final(self).reserved == old(self).reserved,
            final(self).events == old(self).events,
    {
        let ghost f = |x: u128| x as int;
        match find_pair(&self.allowances, owner, spender) {
            Some(i) => {
                proof {
                    lemma_table_update(self.allowances@, i as int, v, f);
                }
                self.allowances.set(i, ((owner, spender), v));
            },
            None => {
                proof {
                    lemma_table_map_dom(self.allowances@, (owner, spender));
                    lemma_table_push(self.allowances@, (owner, spender), v, f);
                }
                self.allowances.push(((owner, spender), v));
            },
        }
    }

    /// Adds `amount` to `who`'s free balance and to the supply, saturating.
    pub fn mint_to(&mut self, who: u64, amount: u128)
        requires
            old(self).wf(),
        ensures
            old(self).minted_to(final(self), who, amount),
            old(self).conserved() && old(self).supply + amount <= u128::MAX
                ==> final(self).conserved(),
    {
        let b = self.balance_of(who);
        self.set_balance(who, b.saturating_add(amount));
        self.supply = self.supply.saturating_add(amount);
    }

    /// Removes `amount` from `who`'s free balance and from the supply.
    pub fn burn_from(&mut self, who: u64, amount: u128) -> (r: Result<(), Error>)
        requires
            old(self).wf(),
        ensures
            final(self).wf(),
            old(self).balance(who) < amount ==> r == Err::<(), Error>(Error::InsufficientBalance)
                && *final(self) == *old(self),
            old(self).balance(who) >= amount ==> r == Ok::<(), Error>(()) && old(self).burned_from(
                final(self),
                who,
                amount,
            ),
            old(self).conserved() ==> final(self).conserved(),
    {
        let b = self.balance_of(who);
        if b < amount {
            return Err(Error::InsufficientBalance);
        }
        self.set_balance(who, b - amount);
        self.supply = self.supply.saturating_sub(amount);
        Ok(())
    }

    /// Moves `amount` of `who`'s free balance into the reserved pool.
    pub fn reserve(&mut self, who: u64, amount: u128) -> (r: Result<(), Error>)
        requires
            old(self).wf(),
        ensures
            final(self).wf(),
            old(self).balance(who) < amount ==> r == Err::<(), Error>(Error::InsufficientBalance)
                && *final(self) == *old(self),
            old(self).balance(who) >= amount ==> r == Ok::<(), Error>(()) && old(self).reserved_from(
                final(self),
                who,
                amount,
            ),
            old(self).conserved() ==> final(self).conserved(),
    {
        let b = self.balance_of(who);
        if b < amount {
            return Err(Error::InsufficientBalance);
        }
        self.set_balance(who, b - amount);
        self.reserved = self.reserved.saturating_add(amount);
        Ok(())
    }

    /// Moves `amount` out of the reserved pool into `to`'s free balance.
    pub fn unreserve(&mut self, to: u64, amount: u128)
        requires
            old(self).wf(),
        ensures
            old(self).unreserved_to(final(self), to, amount),
            old(self).conserved() && amount <= old(self).reserved ==> final(self).conserved(),
    {
        let b = self.balance_of(to);
        self.set_balance(to, b.saturating_add(amount));
        self.reserved = self.reserved.saturating_sub(amount);
    }

    /// Moves `amount` from `from` to `to`, who differ; `from` holds at least `amount`.
    fn move_balance(&mut self, from: u64, to: u64, amount: u128)
        requires
            old(self).wf(),
            from != to,
            old(self).balance(from) >= amount,
        ensures
            final(self).wf(),
            final(self).balance_map() == old(self).balance_map().insert(
                from,
                (old(self).balance(from) - amount) as u128,
            ).insert(to, sat_add(old(self).balance(to), amount)),
            final(self).allowances == old(self).allowances,
            final(self).supply == old(self).supply,
            final(self).reserved == old(self).reserved,
            final(self).events == old(self).events,
            old(self).conserved() ==> final(self).conserved(),
    {
        let bf = self.balance_of(from);
        self.set_balance(from, bf - amount);
        let bt = self.balance_of(to);
        self.set_balance(to, bt.saturating_add(amount));
    }

    pub open spec fn transfer_check(&self, origin: Origin, to: u64, amount: u128) -> Result<
        u64,
        Error,
    > {
        match origin {
            Origin::Root => Err(Error::NotAuthorized),
            Origin::Signed(from) => if from == to {
                Err(Error::SelfTransfer)
            } else if self.balance(from) < amount {
                Err(Error::InsufficientBalance)
            } else {
                Ok(from)
            },
        }
    }

    /// Signed transfer of `amount` from the signer to `to`.
    pub fn transfer(&mut self, origin: Origin, to: u64, amount: u128) -> (r: Result<(), Error>)
        requires
            old(self).wf(),
        ensures
            final(self).wf(),
            match old(self).transfer_check(origin, to, amount) {
                Err(e) => r == Err::<(), Error>(e) && *final(self) == *old(self),
                Ok(from) => {
                    &&& r == Ok::<(), Error>(())
                    &&& final(self).balance_map() == old(self).balance_map().insert(
                        from,
                        (old(self).balance(from) - amount) as u128,
                    ).insert(to, sat_add(old(self).balance(to), amount))
                    &&& final(self).allowances == old(self).allowances
                    &&& final(self).supply == old(self).supply
                    &&& final(self).reserved == old(self).reserved
                    &&& final(self).events@ == old(self).events@.push(
                        Event::Transfer { from, to, amount },
                    )
                },
            },
            old(self).conserved() ==> final(self).conserved(),
    {
        let from = match origin {
            Origin::Signed(who) => who,
            Origin::Root => {
                return Err(Error::NotAuthorized);
            },
        };
        if from == to {
            return Err(Error::SelfTransfer);
        }
        if self.balance_of(from) < amount {
            return Err(Error::InsufficientBalance);
        }
        self.move_balance(from, to, amount);
        self.events.push(Event::Transfer { from, to, amount });
        Ok(())
    }

    /// Root-only issue of `amount` new units to `to`.
    pub fn mint(&mut self, origin: Origin, to: u64, amount: u128) -> (r: Result<(), Error>)
        requires
            old(self).wf(),
        ensures
            final(self).wf(),
            origin != Origin::Root ==> r == Err::<(), Error>(Error::NotAuthorized)
                && *final(self) == *old(self),
            origin == Origin::Root ==> {
                &&& r == Ok::<(), Error>(())
                &&& final(self).balance_map() == old(self).balance_map().insert(
                    to,
                    sat_add(old(self).balance(to), amount),
                )
                &&& final(self).supply == sat_add(old(self).supply, amount)
                &&& final(self).allowances == old(self).allowances
                &&& final(self).reserved == old(self).reserved
                &&& final(self).events@ == old(self).events@.push(Event::Mint { to, amount })
            },
            old(self).conserved() && old(self).supply + amount <= u128::MAX
                ==> final(self).conserved(),
    {
        match origin {
            Origin::Root => {},
            Origin::Signed(_) => {
                return Err(Error::NotAuthorized);
            },
        }
        self.mint_to(to, amount);
        self.events.push(Event::Mint { to, amount });
        Ok(())
    }

    pub open spec fn burn_check(&self, origin: Origin, amount: u128) -> Result<u64, Error> {
        match origin {
            Origin::Root => Err(Error::NotAuthorized),
            Origin::Signed(from) => if self.balance(from) < amount {
                Err(Error::InsufficientBalance)
            } else {
                Ok(from)
            },
        }
    }

    /// Signed destruction of `amount` of the signer's own balance.
    pub fn burn(&mut self, origin: Origin, amount: u128) -> (r: Result<(), Error>)
        requires
            old(self).wf(),
        ensures
            final(self).wf(),
            match old(self).burn_check(origin, amount) {
                Err(e) => r == Err::<(), Error>(e) && *final(self) == *old(self),
                Ok(from) => {
                    &&& r == Ok::<(), Error>(())
                    &&& final(self).balance_map() == old(self).balance_map().insert(
                        from,
                        (old(self).balance(from) - amount) as u128,
                    )
                    &&& final(self).supply == sat_sub(old(self).supply, amount)
                    &&& final(self).allowances == old(self).allowances
                    &&& final(self).reserved == old(self).reserved
                    &&& final(self).events@ == old(self).events@.push(Event::Burn { from, amount })
                },
            },
            old(self).conserved() ==> final(self).conserved(),
    {
        let from = match origin {
            Origin::Signed(who) => who,
            Origin::Root => {
                return Err(Error::NotAuthorized);
            },
        };
        let r = self.burn_from(from, amount);
        match r {
            Ok(()) => {
                self.events.push(Event::Burn { from, amount });
                Ok(())
            },
            Err(e) => Err(e),
        }
    }

    /// Signed grant: sets (does not add to) what `spender` may move from the signer.
    pub fn approve(&mut self, origin: Origin, spender: u64, amount: u128) -> (r: Result<
        (),
        Error,
    >)
        requires
            old(self).wf(),
        ensures
            final(self).wf(),
            match origin {
                Origin::Root => r == Err::<(), Error>(Error::NotAuthorized)
                    && *final(self) == *old(self),
                Origin::Signed(owner) => {
                    &&& r == Ok::<(), Error>(())
                    &&& final(self).allowance_map() == old(self).allowance_map().insert(
                        (owner, spender),
                        amount,
                    )
                    &&& final(self).balances == old(self).balances
                    &&& final(self).supply == old(self).supply
                    &&& final(self).reserved == old(self).reserved
                    &&& final(self).events@ == old(self).events@.push(
                        Event::Approval { owner, spender, amount },
                    )
                },
            },
            old(self).conserved() ==> final(self).conserved(),
    {
        let owner = match origin {
            Origin::Signed(who) => who,
            Origin::Root => {
                return Err(Error::NotAuthorized);
            },
        };
        self.set_allowance(owner, spender, amount);
        self.events.push(Event::Approval { owner, spender, amount });
        Ok(())
    }

    pub open spec fn transfer_from_check(
        &self,
        origin: Origin,
        from: u64,
        to: u64,
        amount: u128,
    ) -> Result<u64, Error> {
        match origin {
            Origin::Root => Err(Error::NotAuthorized),
            Origin::Signed(spender) => if from == to {
                Err(Error::SelfTransfer)
            } else if self.allowance_of(from, spender) < amount {
                Err(Error::InsufficientAllowance)
            } else if self.balance(from) < amount {
                Err(Error::InsufficientBalance)
            } else {
                Ok(spender)
            },
        }
    }

    /// The signer moves `amount` from `from` to `to` out of the allowance `from` granted it.
    pub fn transfer_from(&mut self, origin: Origin, from: u64, to: u64, amount: u128) -> (r:
        Result<(), Error>)
        requires
            old(self).wf(),
        ensures
            final(self).wf(),
            match old(self).transfer_from_check(origin, from, to, amount) {
                Err(e) => r == Err::<(), Error>(e) && *final(self) == *old(self),
                Ok(spender) => {
                    &&& r == Ok::<(), Error>(())
                    &&& final(self).balance_map() == old(self).balance_map().insert(
                        from,
                        (old(self).balance(from) - amount) as u128,
                    ).insert(to, sat_add(old(self).balance(to), amount))
                    &&& final(self).allowance_map() == old(self).allowance_map().insert(
                        (from, spender),
                        (old(self).allowance_of(from, spender) - amount) as u128,
                    )
                    &&& final(self).supply == old(self).supply
                    &&& final(self).reserved == old(self).reserved
                    &&& final(self).events@ == old(self).events@.push(
                        Event::Transfer { from, to, amount },
                    )
                },
            },
            old(self).conserved() ==> final(self).conserved(),
    {
        let spender = match origin {
            Origin::Signed(who) => who,
            Origin::Root => {
                return Err(Error::NotAuthorized);
            },
        };
        if from == to {
            return Err(Error::SelfTransfer);
        }
        let allowed = self.allowance(from, spender);
        if allowed < amount {
            return Err(Error::InsufficientAllowance);
        }
        if self.balance_of(from) < amount {
            return Err(Error::InsufficientBalance);
        }
        self.move_balance(from, to, amount);
        self.set_allowance(from, spender, allowed - amount);
        self.events.push(Event::Transfer { from, to, amount });
        Ok(())
    }
}

} // verus!
