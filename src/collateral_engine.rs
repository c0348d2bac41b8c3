//! Collateralized debt positions over a reserve asset, with debt in two
//! stablecoins priced by an oracle.
//!
//! One position per account. Every operation checks all its conditions
//! before it changes anything, so a failed call leaves the state as it was.
use vstd::prelude::*;

use crate::arith::{guarded_div, safe_div, sat_add, sat_mul, sat_sub, saturating_mul};
use crate::origin::Origin;
use crate::orium_token::Pallet as Ledger;
use crate::table::{
    find_account, keys_unique, lemma_table_map_dom, lemma_table_map_index, lemma_table_push,
    lemma_table_remove, lemma_table_sum_bounds, lemma_table_update,
    table_map, table_sum,
};

verus! {

/// Basis points in one whole (100%).
pub const BASIS_POINTS: u128 = 10_000;

/// One account's position.
#[derive(Debug, Clone, Copy, PartialEq, Eq)]
pub struct Cdp {
    pub collateral: u128,
    pub dusd_debt: u128,
    pub deur_debt: u128,
    /// Block height (clamped to `u32`) of the last change.
    pub last_update: u32,
}

/// Thresholds of the engine.
#[derive(Debug, Clone, Copy, PartialEq, Eq)]
pub struct Config {
    /// Least ratio, in basis points, that minting and withdrawing must leave.
    pub min_collateral_ratio: u32,
    /// Ratio, in basis points, below which a position may be liquidated.
    pub liquidation_ratio: u32,
    /// Fixed-point scale of the reserve asset's price: `price_scale` stands for 1.
    pub price_scale: u128,
}

/// The two stablecoins a position can owe.
#[derive(Debug, Clone, Copy, PartialEq, Eq)]
pub enum Stablecoin {
    Dusd,
    Deur,
}

/// The two prices the oracle holds: the reserve asset in each stablecoin's currency.
#[derive(Debug, Clone, Copy, PartialEq, Eq)]
pub enum PriceAsset {
    OrmUsd,
    OrmEur,
}

#[derive(Debug, Clone, Copy, PartialEq, Eq)]
pub enum Error {
    CdpNotFound,
    CdpAlreadyExists,
    InsufficientCollateral,
    CollateralRatioTooLow,
    InsufficientDebt,
    PriceNotAvailable,
    NotAuthorized,
    CdpNotLiquidatable,
    InsufficientBalance,
}

#[derive(Debug, PartialEq, Eq)]
pub enum Event {
    CdpCreated { owner: u64, collateral: u128 },
    CollateralDeposited { owner: u64, amount: u128 },
    CollateralWithdrawn { owner: u64, amount: u128 },
    DusdMinted { owner: u64, amount: u128 },
    DeurMinted { owner: u64, amount: u128 },
    DusdRepaid { owner: u64, amount: u128 },
    DeurRepaid { owner: u64, amount: u128 },
    CdpLiquidated { owner: u64, liquidator: u64, collateral_seized: u128 },
    PriceUpdated { asset: Vec<u8>, price: u128 },
}

/// The symbol under which each price is published.
pub open spec fn symbol_of(asset: PriceAsset) -> Seq<u8> {
    match asset {
        PriceAsset::OrmUsd => seq![79u8, 82u8, 77u8, 47u8, 85u8, 83u8, 68u8],
        PriceAsset::OrmEur => seq![79u8, 82u8, 77u8, 47u8, 69u8, 85u8, 82u8],
    }
}

/// The price a symbol names, if it names one.
pub open spec fn asset_of_symbol(symbol: Seq<u8>) -> Option<PriceAsset> {
    if symbol == symbol_of(PriceAsset::OrmUsd) {
        Some(PriceAsset::OrmUsd)
    } else if symbol == symbol_of(PriceAsset::OrmEur) {
        Some(PriceAsset::OrmEur)
    } else {
        None
    }
}

/// Value of `collateral` in the first stablecoin's currency.
pub open spec fn collateral_value_usd(collateral: u128, usd_price: u128, scale: u128) -> u128 {
    safe_div(sat_mul(collateral, usd_price), scale)
}

/// Value of both debts in the first stablecoin's currency: the second is
/// converted at the ratio of the two prices.
pub open spec fn debt_value_usd(dusd: u128, deur: u128, usd_price: u128, eur_price: u128) -> u128 {
    sat_add(dusd, safe_div(sat_mul(deur, eur_price), usd_price))
}

/// Collateral value over debt value, in basis points.
pub open spec fn ratio_bp(collateral_value: u128, debt_value: u128) -> u128 {
    safe_div(sat_mul(collateral_value, BASIS_POINTS), debt_value)
}

pub open spec fn debt_in(cdp: Cdp, asset: Stablecoin) -> u128 {
    match asset {
        Stablecoin::Dusd => cdp.dusd_debt,
        Stablecoin::Deur => cdp.deur_debt,
    }
}

pub open spec fn with_debt(cdp: Cdp, asset: Stablecoin, debt: u128) -> Cdp {
    match asset {
        Stablecoin::Dusd => Cdp { dusd_debt: debt, ..cdp },
        Stablecoin::Deur => Cdp { deur_debt: debt, ..cdp },
    }
}

pub open spec fn collateral_of() -> spec_fn(Cdp) -> int {
    |c: Cdp| c.collateral as int
}

pub open spec fn dusd_debt_of() -> spec_fn(Cdp) -> int {
    |c: Cdp| c.dusd_debt as int
}

pub open spec fn deur_debt_of() -> spec_fn(Cdp) -> int {
    |c: Cdp| c.deur_debt as int
}

pub open spec fn minted_event(asset: Stablecoin, owner: u64, amount: u128) -> Event {
    match asset {
        Stablecoin::Dusd => Event::DusdMinted { owner, amount },
        Stablecoin::Deur => Event::DeurMinted { owner, amount },
    }
}

pub open spec fn repaid_event(asset: Stablecoin, owner: u64, amount: u128) -> Event {
    match asset {
        Stablecoin::Dusd => Event::DusdRepaid { owner, amount },
        Stablecoin::Deur => Event::DeurRepaid { owner, amount },
    }
}

/// The whole state of the engine: positions, their aggregates, the prices,
/// and the three ledgers it moves balances on.
pub struct Pallet {
    pub config: Config,
    /// The reserve asset; collateral is its reserved pool.
    pub orm: Ledger,
    pub dusd: Ledger,
    pub deur: Ledger,
    pub positions: Vec<(u64, Cdp)>,
    pub collateral_total: u128,
    pub dusd_debt_total: u128,
    pub deur_debt_total: u128,
    pub usd_price: u128,
    pub eur_price: u128,
    pub block_number: u64,
    pub events: Vec<Event>,
}

impl Pallet {
    pub open spec fn wf(&self) -> bool {
        &&& self.config.price_scale > 0
        &&& self.orm.wf()
        &&& self.dusd.wf()
        &&& self.deur.wf()
        &&& keys_unique(self.positions@)
    }

    /// The aggregates equal the sums over open positions, the reserve
    /// asset's reserved pool is exactly the collateral they hold, and each
    /// ledger's supply is what its accounts and reserved pool hold.
    pub open spec fn accounts_balanced(&self) -> bool {
        &&& self.collateral_total == table_sum(self.positions@, collateral_of())
        &&& self.dusd_debt_total == table_sum(self.positions@, dusd_debt_of())
        &&& self.deur_debt_total == table_sum(self.positions@, deur_debt_of())
        &&& self.orm.reserved == self.collateral_total
        &&& self.orm.conserved()
        &&& self.dusd.conserved()
        &&& self.deur.conserved()
    }

    pub open spec fn position_map(&self) -> Map<u64, Cdp> {
        table_map(self.positions@)
    }

    pub open spec fn has_cdp(&self, who: u64) -> bool {
        self.position_map().contains_key(who)
    }

    pub open spec fn cdp_of(&self, who: u64) -> Cdp {
        self.position_map()[who]
    }

    pub open spec fn stable(&self, asset: Stablecoin) -> Ledger {
        match asset {
            Stablecoin::Dusd => self.dusd,
            Stablecoin::Deur => self.deur,
        }
    }

    pub open spec fn total_debt(&self, asset: Stablecoin) -> u128 {
        match asset {
            Stablecoin::Dusd => self.dusd_debt_total,
            Stablecoin::Deur => self.deur_debt_total,
        }
    }

    pub open spec fn price(&self, asset: PriceAsset) -> u128 {
        match asset {
            PriceAsset::OrmUsd => self.usd_price,
            PriceAsset::OrmEur => self.eur_price,
        }
    }

    pub open spec fn prices_available(&self) -> bool {
        self.usd_price != 0 && self.eur_price != 0
    }

    pub open spec fn debt_value(&self, dusd: u128, deur: u128) -> u128 {
        debt_value_usd(dusd, deur, self.usd_price, self.eur_price)
    }

    /// Ratio, in basis points, of a position with these amounts at current prices.
    pub open spec fn ratio_of(&self, collateral: u128, dusd: u128, deur: u128) -> u128 {
        ratio_bp(
            collateral_value_usd(collateral, self.usd_price, self.config.price_scale),
            self.debt_value(dusd, deur),
        )
    }

    /// Solvent: no debt worth anything, or a ratio at least the minimum.
    pub open spec fn solvent(&self, collateral: u128, dusd: u128, deur: u128) -> bool {
        self.debt_value(dusd, deur) == 0 || self.ratio_of(collateral, dusd, deur)
            >= self.config.min_collateral_ratio as u128
    }

    /// Liquidatable: some debt of value, and a ratio below the liquidation ratio.
    pub open spec fn liquidatable(&self, collateral: u128, dusd: u128, deur: u128) -> bool {
        self.debt_value(dusd, deur) != 0 && self.ratio_of(collateral, dusd, deur)
            < self.config.liquidation_ratio as u128
    }

    /// The current height, clamped to `u32`, as stamped on positions.
    pub open spec fn stamp(&self) -> u32 {
        if self.block_number > u32::MAX as u64 {
            u32::MAX
        } else {
            self.block_number as u32
        }
    }

    /// `post` keeps this state's configuration, prices and height.
    pub open spec fn keeps_market(&self, post: &Pallet) -> bool {
        &&& post.config == self.config
        &&& post.usd_price == self.usd_price
        &&& post.eur_price == self.eur_price
        &&& post.block_number == self.block_number
    }

    pub fn new(config: Config) -> (r: Pallet)
        requires
            config.price_scale > 0,
        ensures
            r.wf(),
            r.accounts_balanced(),
            r.config == config,
            r.position_map() == Map::<u64, Cdp>::empty(),
            r.orm.balance_map() == Map::<u64, u128>::empty(),
            r.dusd.balance_map() == Map::<u64, u128>::empty(),
            r.deur.balance_map() == Map::<u64, u128>::empty(),
            r.orm.supply == 0 && r.dusd.supply == 0 && r.deur.supply == 0,
            r.collateral_total == 0 && r.dusd_debt_total == 0 && r.deur_debt_total == 0,
            r.usd_price == 0 && r.eur_price == 0,
            r.block_number == 0,
            r.events@ == Seq::<Event>::empty(),
    {
        let r = Pallet {
            config,
            orm: Ledger::new(),
            dusd: Ledger::new(),
            deur: Ledger::new(),
            positions: Vec::new(),
            collateral_total: 0,
            dusd_debt_total: 0,
            deur_debt_total: 0,
            usd_price: 0,
            eur_price: 0,
            block_number: 0,
            events: Vec::new(),
        };
        assert(r.position_map() =~= Map::<u64, Cdp>::empty());
        r
    }

    /// The position of `who`, if one is open.
    pub fn cdps(&self, who: u64) -> (r: Option<Cdp>)
        requires
            self.wf(),
        ensures
            r == (if self.has_cdp(who) {
                Some(self.cdp_of(who))
            } else {
                None
            }),
    {
        match self.find_position(who) {
            Some(i) => Some(self.positions[i].1),
            None => None,
        }
    }

    pub fn total_collateral(&self) -> (r: u128)
        ensures
            r == self.collateral_total,
    {
        self.collateral_total
    }

    pub fn total_dusd_debt(&self) -> (r: u128)
        ensures
            r == self.dusd_debt_total,
    {
        self.dusd_debt_total
    }

    pub fn total_deur_debt(&self) -> (r: u128)
        ensures
            r == self.deur_debt_total,
    {
        self.deur_debt_total
    }

    pub fn orm_usd_price(&self) -> (r: u128)
        ensures
            r == self.usd_price,
    {
        self.usd_price
    }

    pub fn orm_eur_price(&self) -> (r: u128)
        ensures
            r == self.eur_price,
    {
        self.eur_price
    }

    /// The latest price written for `asset`; zero means none is available.
    pub fn get_price(&self, asset: PriceAsset) -> (r: u128)
        ensures
            r == self.price(asset),
    {
        match asset {
            PriceAsset::OrmUsd => self.usd_price,
            PriceAsset::OrmEur => self.eur_price,
        }
    }

    /// Advances (or sets) the block height that new stamps record.
    pub fn set_block_number(&mut self, height: u64)
        ensures
            *final(self) == (Pallet { block_number: height, ..*old(self) }),
    {
        self.block_number = height;
    }

    fn current_stamp(&self) -> (r: u32)
        ensures
            r == self.stamp(),
    {
        if self.block_number > u32::MAX as u64 {
            u32::MAX
        } else {
            self.block_number as u32
        }
    }

    /// Index of `who`'s position.
    fn find_position(&self, who: u64) -> (r: Option<usize>)
        requires
            self.wf(),
        ensures
            match r {
                Some(i) => {
                    &&& i < self.positions@.len()
                    &&& self.positions@[i as int].0 == who
                    &&& self.has_cdp(who)
                    &&& self.cdp_of(who) == self.positions@[i as int].1
                },
                None => !self.has_cdp(who),
            },
    {
        let r = find_account(&self.positions, who);
        proof {
            lemma_table_map_dom(self.positions@, who);
            if let Some(i) = r {
                lemma_table_map_index(self.positions@, i as int);
            }
        }
        r
    }

    /// Each position's amounts are at most the sums over all positions.
    proof fn lemma_position_bounded(&self, i: int)
        requires
            self.wf(),
            0 <= i < self.positions@.len(),
        ensures
            self.positions@[i].1.collateral <= table_sum(self.positions@, collateral_of()),
            self.positions@[i].1.dusd_debt <= table_sum(self.positions@, dusd_debt_of()),
            self.positions@[i].1.deur_debt <= table_sum(self.positions@, deur_debt_of()),
    {
        lemma_table_sum_bounds(self.positions@, i, collateral_of());
        lemma_table_sum_bounds(self.positions@, i, dusd_debt_of());
        lemma_table_sum_bounds(self.positions@, i, deur_debt_of());
    }

    /// Replaces the position at index `i` (same owner) with `cdp`.
    fn replace_position(&mut self, i: usize, cdp: Cdp)
        requires
            old(self).wf(),
            i < old(self).positions@.len(),
        ensures
            final(self).wf(),
            final(self).positions@ == old(self).positions@.update(
                i as int,
                (old(self).positions@[i as int].0, cdp),
            ),
            final(self).position_map() == old(self).position_map().insert(
                old(self).positions@[i as int].0,
                cdp,
            ),
            table_sum(final(self).positions@, collateral_of()) == table_sum(
                old(self).positions@,
                collateral_of(),
            ) - old(self).positions@[i as int].1.collateral + cdp.collateral,
            table_sum(final(self).positions@, dusd_debt_of()) == table_sum(
                old(self).positions@,
                dusd_debt_of(),
            ) - old(self).positions@[i as int].1.dusd_debt + cdp.dusd_debt,
            table_sum(final(self).positions@, deur_debt_of()) == table_sum(
                old(self).positions@,
                deur_debt_of(),
            ) - old(self).positions@[i as int].1.deur_debt + cdp.deur_debt,
            final(self).orm == old(self).orm,
            final(self).dusd == old(self).dusd,
            final(self).deur == old(self).deur,
            final(self).collateral_total == old(self).collateral_total,
            final(self).dusd_debt_total == old(self).dusd_debt_total,
            final(self).deur_debt_total == old(self).deur_debt_total,
            final(self).events == old(self).events,
            old(self).keeps_market(final(self)),
    {
        let who = self.positions[i].0;
        proof {
            lemma_table_update(self.positions@, i as int, cdp, collateral_of());
            lemma_table_update(self.positions@, i as int, cdp, dusd_debt_of());
            lemma_table_update(self.positions@, i as int, cdp, deur_debt_of());
        }
        self.positions.set(i, (who, cdp));
    }

    /// Solvency of a position with these amounts at current prices.
    pub fn check_collateral_ratio(&self, collateral: u128, dusd_debt: u128, deur_debt: u128) -> (r:
        Result<bool, Error>)
        requires
            self.wf(),
        ensures
            r == (if !self.prices_available() {
                Err(Error::PriceNotAvailable)
            } else {
                Ok(self.solvent(collateral, dusd_debt, deur_debt))
            }),
    {
        if self.usd_price == 0 || self.eur_price == 0 {
            return Err(Error::PriceNotAvailable);
        }
        let debt_value = self.position_debt_value(dusd_debt, deur_debt);
        if debt_value == 0 {
            return Ok(true);
        }
        let ratio = self.position_ratio(collateral, debt_value);
        Ok(ratio >= self.config.min_collateral_ratio as u128)
    }

    /// Ratio, in basis points, of a position with these amounts at current
    /// prices; `None` when the debt is worth nothing.
    pub fn collateral_ratio(&self, collateral: u128, dusd_debt: u128, deur_debt: u128) -> (r:
        Result<Option<u128>, Error>)
        requires
            self.wf(),
        ensures
            r == (if !self.prices_available() {
                Err(Error::PriceNotAvailable)
            } else if self.debt_value(dusd_debt, deur_debt) == 0 {
                Ok(None)
            } else {
                Ok(Some(self.ratio_of(collateral, dusd_debt, deur_debt)))
            }),
    {
        if self.usd_price == 0 || self.eur_price == 0 {
            return Err(Error::PriceNotAvailable);
        }
        let debt_value = self.position_debt_value(dusd_debt, deur_debt);
        if debt_value == 0 {
            return Ok(None);
        }
        Ok(Some(self.position_ratio(collateral, debt_value)))
    }

    fn position_debt_value(&self, dusd_debt: u128, deur_debt: u128) -> (r: u128)
        ensures
            r == self.debt_value(dusd_debt, deur_debt),
    {
        let deur_value = guarded_div(saturating_mul(deur_debt, self.eur_price), self.usd_price);
        dusd_debt.saturating_add(deur_value)
    }

    fn position_ratio(&self, collateral: u128, debt_value: u128) -> (r: u128)
        ensures
            r == ratio_bp(
                collateral_value_usd(collateral, self.usd_price, self.config.price_scale),
                debt_value,
            ),
    {
        let collateral_value = guarded_div(
            saturating_mul(collateral, self.usd_price),
            self.config.price_scale,
        );
        guarded_div(saturating_mul(collateral_value, BASIS_POINTS), debt_value)
    }

    /// Adds a position for `who`, who has none.
    fn insert_position(&mut self, who: u64, cdp: Cdp)
        requires
            old(self).wf(),
            !old(self).has_cdp(who),
        ensures
            final(self).wf(),
            final(self).position_map() == old(self).position_map().insert(who, cdp),
            table_sum(final(self).positions@, collateral_of()) == table_sum(
                old(self).positions@,
                collateral_of(),
            ) + cdp.collateral,
            table_sum(final(self).positions@, dusd_debt_of()) == table_sum(
                old(self).positions@,
                dusd_debt_of(),
            ) + cdp.dusd_debt,
            table_sum(final(self).positions@, deur_debt_of()) == table_sum(
                old(self).positions@,
                deur_debt_of(),
            ) + cdp.deur_debt,
            final(self).orm == old(self).orm,
            final(self).dusd == old(self).dusd,
            final(self).deur == old(self).deur,
            final(self).collateral_total == old(self).collateral_total,
            final(self).dusd_debt_total == old(self).dusd_debt_total,
            final(self).deur_debt_total == old(self).deur_debt_total,
            final(self).events == old(self).events,
            old(self).keeps_market(final(self)),
    {
        proof {
            lemma_table_push(self.positions@, who, cdp, collateral_of());
            lemma_table_push(self.positions@, who, cdp, dusd_debt_of());
            lemma_table_push(self.positions@, who, cdp, deur_debt_of());
        }
        self.positions.push((who, cdp));
    }

    /// Removes the position at index `i`.
    fn remove_position(&mut self, i: usize)
        requires
            old(self).wf(),
            i < old(self).positions@.len(),
        ensures
            final(self).wf(),
            final(self).position_map() == old(self).position_map().remove(
                old(self).positions@[i as int].0,
            ),
            table_sum(final(self).positions@, collateral_of()) == table_sum(
                old(self).positions@,
                collateral_of(),
            ) - old(self).positions@[i as int].1.collateral,
            table_sum(final(self).positions@, dusd_debt_of()) == table_sum(
                old(self).positions@,
                dusd_debt_of(),
            ) - old(self).positions@[i as int].1.dusd_debt,
            table_sum(final(self).positions@, deur_debt_of()) == table_sum(
                old(self).positions@,
                deur_debt_of(),
            ) - old(self).positions@[i as int].1.deur_debt,
            final(self).orm == old(self).orm,
            final(self).dusd == old(self).dusd,
            final(self).deur == old(self).deur,
            final(self).collateral_total == old(self).collateral_total,
            final(self).dusd_debt_total == old(self).dusd_debt_total,
            final(self).deur_debt_total == old(self).deur_debt_total,
            final(self).events == old(self).events,
            old(self).keeps_market(final(self)),
    {
        proof {
            lemma_table_remove(self.positions@, i as int, collateral_of());
            lemma_table_remove(self.positions@, i as int, dusd_debt_of());
            lemma_table_remove(self.positions@, i as int, deur_debt_of());
        }
        self.positions.remove(i);
    }

    pub open spec fn create_check(&self, origin: Origin, amount: u128) -> Result<u64, Error> {
        match origin {
            Origin::Root => Err(Error::NotAuthorized),
            Origin::Signed(who) => if self.has_cdp(who) {
                Err(Error::CdpAlreadyExists)
            } else if self.orm.balance(who) < amount {
                Err(Error::InsufficientBalance)
            } else {
                Ok(who)
            },
        }
    }

    /// Opens the signer's position, locking `collateral_amount` of its free reserve balance.
    pub fn create_cdp(&mut self, origin: Origin, collateral_amount: u128) -> (r: Result<
        (),
        Error,
    >)
        requires
            old(self).wf(),
        ensures
            final(self).wf(),
            match old(self).create_check(origin, collateral_amount) {
                Err(e) => r == Err::<(), Error>(e) && *final(self) == *old(self),
                Ok(who) => {
                    &&& r == Ok::<(), Error>(())
                    &&& final(self).position_map() == old(self).position_map().insert(
                        who,
                        Cdp {
                            collateral: collateral_amount,
                            dusd_debt: 0,
                            deur_debt: 0,
                            last_update: old(self).stamp(),
                        },
                    )
                    &&& old(self).orm.reserved_from(&final(self).orm, who, collateral_amount)
                    &&& final(self).collateral_total == sat_add(
                        old(self).collateral_total,
                        collateral_amount,
                    )
                    &&& final(self).dusd == old(self).dusd
                    &&& final(self).deur == old(self).deur
                    &&& final(self).dusd_debt_total == old(self).dusd_debt_total
                    &&& final(self).deur_debt_total == old(self).deur_debt_total
                    &&& old(self).keeps_market(final(self))
                    &&& final(self).events@ == old(self).events@.push(
                        Event::CdpCreated { owner: who, collateral: collateral_amount },
                    )
                },
            },
            old(self).accounts_balanced() ==> final(self).accounts_balanced(),
    {
        let who = match origin {
            Origin::Signed(w) => w,
            Origin::Root => {
                return Err(Error::NotAuthorized);
            },
        };
        if self.find_position(who).is_some() {
            return Err(Error::CdpAlreadyExists);
        }
        proof {
            self.orm.lemma_balance_bounded(who);
        }
        match self.orm.reserve(who, collateral_amount) {
            Ok(()) => {},
            Err(_) => {
                return Err(Error::InsufficientBalance);
            },
        }
        let stamp = self.current_stamp();
        self.insert_position(
            who,
            Cdp { collateral: collateral_amount, dusd_debt: 0, deur_debt: 0, last_update: stamp },
        );
        self.collateral_total = self.collateral_total.saturating_add(collateral_amount);
        self.events.push(Event::CdpCreated { owner: who, collateral: collateral_amount });
        Ok(())
    }

    pub open spec fn deposit_check(&self, origin: Origin, amount: u128) -> Result<u64, Error> {
        match origin {
            Origin::Root => Err(Error::NotAuthorized),
            Origin::Signed(who) => if !self.has_cdp(who) {
                Err(Error::CdpNotFound)
            } else if self.orm.balance(who) < amount {
                Err(Error::InsufficientBalance)
            } else {
                Ok(who)
            },
        }
    }

    /// Locks `amount` more of the signer's free reserve balance into its position.
    pub fn deposit_collateral(&mut self, origin: Origin, amount: u128) -> (r: Result<(), Error>)
        requires
            old(self).wf(),
        ensures
            final(self).wf(),
            match old(self).deposit_check(origin, amount) {
                Err(e) => r == Err::<(), Error>(e) && *final(self) == *old(self),
                Ok(who) => {
                    let cdp = old(self).cdp_of(who);
                    &&& r == Ok::<(), Error>(())
                    &&& final(self).position_map() == old(self).position_map().insert(
                        who,
                        Cdp {
                            collateral: sat_add(cdp.collateral, amount),
                            last_update: old(self).stamp(),
                            ..cdp
                        },
                    )
                    &&& old(self).orm.reserved_from(&final(self).orm, who, amount)
                    &&& final(self).collateral_total == sat_add(old(self).collateral_total, amount)
                    &&& final(self).dusd == old(self).dusd
                    &&& final(self).deur == old(self).deur
                    &&& final(self).dusd_debt_total == old(self).dusd_debt_total
                    &&& final(self).deur_debt_total == old(self).deur_debt_total
                    &&& old(self).keeps_market(final(self))
                    &&& final(self).events@ == old(self).events@.push(
                        Event::CollateralDeposited { owner: who, amount },
                    )
                },
            },
            old(self).accounts_balanced() ==> final(self).accounts_balanced(),
    {
        let who = match origin {
            Origin::Signed(w) => w,
            Origin::Root => {
                return Err(Error::NotAuthorized);
            },
        };
        let i = match self.find_position(who) {
            Some(i) => i,
            None => {
                return Err(Error::CdpNotFound);
            },
        };
        proof {
            self.orm.lemma_balance_bounded(who);
            self.lemma_position_bounded(i as int);
        }
        match self.orm.reserve(who, amount) {
            Ok(()) => {},
            Err(_) => {
                return Err(Error::InsufficientBalance);
            },
        }
        let cdp = self.positions[i].1;
        let stamp = self.current_stamp();
        self.replace_position(
            i,
            Cdp {
                collateral: cdp.collateral.saturating_add(amount),
                dusd_debt: cdp.dusd_debt,
                deur_debt: cdp.deur_debt,
                last_update: stamp,
            },
        );
        self.collateral_total = self.collateral_total.saturating_add(amount);
        self.events.push(Event::CollateralDeposited { owner: who, amount });
        Ok(())
    }

    pub open spec fn withdraw_check(&self, origin: Origin, amount: u128) -> Result<u64, Error> {
        match origin {
            Origin::Root => Err(Error::NotAuthorized),
            Origin::Signed(who) => {
                let cdp = self.cdp_of(who);
                let indebted = cdp.dusd_debt != 0 || cdp.deur_debt != 0;
                if !self.has_cdp(who) {
                    Err(Error::CdpNotFound)
                } else if cdp.collateral < amount {
                    Err(Error::InsufficientCollateral)
                } else if indebted && !self.prices_available() {
                    Err(Error::PriceNotAvailable)
                } else if indebted && !self.solvent(
                    (cdp.collateral - amount) as u128,
                    cdp.dusd_debt,
                    cdp.deur_debt,
                ) {
                    Err(Error::CollateralRatioTooLow)
                } else {
                    Ok(who)
                }
            },
        }
    }

    /// Unlocks `amount` of the signer's collateral back to its free balance,
    /// provided what remains keeps any debt solvent.
    pub fn withdraw_collateral(&mut self, origin: Origin, amount: u128) -> (r: Result<(), Error>)
        requires
            old(self).wf(),
        ensures
            final(self).wf(),
            match old(self).withdraw_check(origin, amount) {
                Err(e) => r == Err::<(), Error>(e) && *final(self) == *old(self),
                Ok(who) => {
                    let cdp = old(self).cdp_of(who);
                    &&& r == Ok::<(), Error>(())
                    &&& final(self).position_map() == old(self).position_map().insert(
                        who,
                        Cdp {
                            collateral: (cdp.collateral - amount) as u128,
                            last_update: old(self).stamp(),
                            ..cdp
                        },
                    )
                    &&& old(self).orm.unreserved_to(&final(self).orm, who, amount)
                    &&& final(self).collateral_total == sat_sub(old(self).collateral_total, amount)
                    &&& final(self).dusd == old(self).dusd
                    &&& final(self).deur == old(self).deur
                    &&& final(self).dusd_debt_total == old(self).dusd_debt_total
                    &&& final(self).deur_debt_total == old(self).deur_debt_total
                    &&& old(self).keeps_market(final(self))
                    &&& final(self).events@ == old(self).events@.push(
                        Event::CollateralWithdrawn { owner: who, amount },
                    )
                },
            },
            match origin {
                Origin::Signed(who) => r is Ok ==> final(self).has_cdp(who) && final(self).solvent(
                    final(self).cdp_of(who).collateral,
                    final(self).cdp_of(who).dusd_debt,
                    final(self).cdp_of(who).deur_debt,
                ),
                Origin::Root => true,
            },
            old(self).accounts_balanced() ==> final(self).accounts_balanced(),
    {
        let who = match origin {
            Origin::Signed(w) => w,
            Origin::Root => {
                return Err(Error::NotAuthorized);
            },
        };
        let i = match self.find_position(who) {
            Some(i) => i,
            None => {
                return Err(Error::CdpNotFound);
            },
        };
        let cdp = self.positions[i].1;
        if cdp.collateral < amount {
            return Err(Error::InsufficientCollateral);
        }
        let new_collateral = cdp.collateral - amount;
        if cdp.dusd_debt != 0 || cdp.deur_debt != 0 {
            match self.check_collateral_ratio(new_collateral, cdp.dusd_debt, cdp.deur_debt) {
                Ok(true) => {},
                Ok(false) => {
                    return Err(Error::CollateralRatioTooLow);
                },
                Err(e) => {
                    return Err(e);
                },
            }
        }
        proof {
            self.lemma_position_bounded(i as int);
        }
        let stamp = self.current_stamp();
        self.replace_position(
            i,
            Cdp {
                collateral: new_collateral,
                dusd_debt: cdp.dusd_debt,
                deur_debt: cdp.deur_debt,
                last_update: stamp,
            },
        );
        self.orm.unreserve(who, amount);
        self.collateral_total = self.collateral_total.saturating_sub(amount);
        self.events.push(Event::CollateralWithdrawn { owner: who, amount });
        Ok(())
    }

    pub open spec fn mint_check(&self, origin: Origin, asset: Stablecoin, amount: u128) -> Result<
        u64,
        Error,
    > {
        match origin {
            Origin::Root => Err(Error::NotAuthorized),
            Origin::Signed(who) => {
                let cdp = with_debt(
                    self.cdp_of(who),
                    asset,
                    sat_add(debt_in(self.cdp_of(who), asset), amount),
                );
                if !self.has_cdp(who) {
                    Err(Error::CdpNotFound)
                } else if !self.prices_available() {
                    Err(Error::PriceNotAvailable)
                } else if !self.solvent(cdp.collateral, cdp.dusd_debt, cdp.deur_debt) {
                    Err(Error::CollateralRatioTooLow)
                } else {
                    Ok(who)
                }
            },
        }
    }

    /// `post` and `r` are what minting `amount` of `asset` as debt leaves from this state.
    pub open spec fn debt_minted(
        &self,
        post: &Pallet,
        origin: Origin,
        asset: Stablecoin,
        amount: u128,
        r: Result<(), Error>,
    ) -> bool {
        &&& post.wf()
        &&& match self.mint_check(origin, asset, amount) {
            Err(e) => r == Err::<(), Error>(e) && *post == *self,
            Ok(who) => {
                let cdp = self.cdp_of(who);
                let debt = sat_add(debt_in(cdp, asset), amount);
                &&& r == Ok::<(), Error>(())
                &&& post.position_map() == self.position_map().insert(
                    who,
                    with_debt(Cdp { last_update: self.stamp(), ..cdp }, asset, debt),
                )
                &&& self.stable(asset).minted_to(&post.stable(asset), who, amount)
                &&& post.stable(other_coin(asset)) == self.stable(other_coin(asset))
                &&& post.total_debt(asset) == sat_add(self.total_debt(asset), amount)
                &&& post.total_debt(other_coin(asset)) == self.total_debt(other_coin(asset))
                &&& post.orm == self.orm
                &&& post.collateral_total == self.collateral_total
                &&& self.keeps_market(post)
                &&& post.events@ == self.events@.push(minted_event(asset, who, amount))
            },
        }
        &&& match origin {
            Origin::Signed(who) => r is Ok ==> post.has_cdp(who) && post.solvent(
                post.cdp_of(who).collateral,
                post.cdp_of(who).dusd_debt,
                post.cdp_of(who).deur_debt,
            ),
            Origin::Root => true,
        }
        &&& self.accounts_balanced() && self.total_debt(asset) + amount <= u128::MAX
            && self.stable(asset).supply + amount <= u128::MAX ==> post.accounts_balanced()
    }

    /// Mints `amount` of `asset` to the signer as debt of its position, if the
    /// position stays solvent.
    pub fn mint_debt(&mut self, origin: Origin, asset: Stablecoin, amount: u128) -> (r: Result<
        (),
        Error,
    >)
        requires
            old(self).wf(),
        ensures
            old(self).debt_minted(final(self), origin, asset, amount, r),
    {
        let who = match origin {
            Origin::Signed(w) => w,
            Origin::Root => {
                return Err(Error::NotAuthorized);
            },
        };
        let i = match self.find_position(who) {
            Some(i) => i,
            None => {
                return Err(Error::CdpNotFound);
            },
        };
        let cdp = self.positions[i].1;
        let (new_dusd, new_deur) = match asset {
            Stablecoin::Dusd => (cdp.dusd_debt.saturating_add(amount), cdp.deur_debt),
            Stablecoin::Deur => (cdp.dusd_debt, cdp.deur_debt.saturating_add(amount)),
        };
        match self.check_collateral_ratio(cdp.collateral, new_dusd, new_deur) {
            Ok(true) => {},
            Ok(false) => {
                return Err(Error::CollateralRatioTooLow);
            },
            Err(e) => {
                return Err(e);
            },
        }
        proof {
            self.lemma_position_bounded(i as int);
        }
        let stamp = self.current_stamp();
        self.replace_position(
            i,
            Cdp {
                collateral: cdp.collateral,
                dusd_debt: new_dusd,
                deur_debt: new_deur,
                last_update: stamp,
            },
        );
        match asset {
            Stablecoin::Dusd => {
                self.dusd.mint_to(who, amount);
                self.dusd_debt_total = self.dusd_debt_total.saturating_add(amount);
                self.events.push(Event::DusdMinted { owner: who, amount });
            },
            Stablecoin::Deur => {
                self.deur.mint_to(who, amount);
                self.deur_debt_total = self.deur_debt_total.saturating_add(amount);
                self.events.push(Event::DeurMinted { owner: who, amount });
            },
        }
        Ok(())
    }

    pub fn mint_dusd(&mut self, origin: Origin, amount: u128) -> (r: Result<(), Error>)
        requires
            old(self).wf(),
        ensures
            old(self).debt_minted(final(self), origin, Stablecoin::Dusd, amount, r),
    {
        self.mint_debt(origin, Stablecoin::Dusd, amount)
    }

    pub fn mint_deur(&mut self, origin: Origin, amount: u128) -> (r: Result<(), Error>)
        requires
            old(self).wf(),
        ensures
            old(self).debt_minted(final(self), origin, Stablecoin::Deur, amount, r),
    {
        self.mint_debt(origin, Stablecoin::Deur, amount)
    }

    pub open spec fn repay_check(&self, origin: Origin, asset: Stablecoin, amount: u128) -> Result<
        u64,
        Error,
    > {
        match origin {
            Origin::Root => Err(Error::NotAuthorized),
            Origin::Signed(who) => if !self.has_cdp(who) {
                Err(Error::CdpNotFound)
            } else if debt_in(self.cdp_of(who), asset) < amount {
                Err(Error::InsufficientDebt)
            } else if self.stable(asset).balance(who) < amount {
                Err(Error::InsufficientBalance)
            } else {
                Ok(who)
            },
        }
    }

    /// `post` and `r` are what repaying `amount` of `asset` debt leaves from this state.
    pub open spec fn debt_repaid(
        &self,
        post: &Pallet,
        origin: Origin,
        asset: Stablecoin,
        amount: u128,
        r: Result<(), Error>,
    ) -> bool {
        &&& post.wf()
        &&& match self.repay_check(origin, asset, amount) {
            Err(e) => r == Err::<(), Error>(e) && *post == *self,
            Ok(who) => {
                let cdp = self.cdp_of(who);
                let debt = (debt_in(cdp, asset) - amount) as u128;
                &&& r == Ok::<(), Error>(())
                &&& post.position_map() == self.position_map().insert(
                    who,
                    with_debt(Cdp { last_update: self.stamp(), ..cdp }, asset, debt),
                )
                &&& self.stable(asset).burned_from(&post.stable(asset), who, amount)
                &&& post.stable(other_coin(asset)) == self.stable(other_coin(asset))
                &&& post.total_debt(asset) == sat_sub(self.total_debt(asset), amount)
                &&& post.total_debt(other_coin(asset)) == self.total_debt(other_coin(asset))
                &&& post.orm == self.orm
                &&& post.collateral_total == self.collateral_total
                &&& self.keeps_market(post)
                &&& post.events@ == self.events@.push(repaid_event(asset, who, amount))
            },
        }
        &&& self.accounts_balanced() ==> post.accounts_balanced()
    }

    /// Burns `amount` of the signer's `asset` balance against its position's debt.
    pub fn repay_debt(&mut self, origin: Origin, asset: Stablecoin, amount: u128) -> (r: Result<
        (),
        Error,
    >)
        requires
            old(self).wf(),
        ensures
            old(self).debt_repaid(final(self), origin, asset, amount, r),
    {
        let who = match origin {
            Origin::Signed(w) => w,
            Origin::Root => {
                return Err(Error::NotAuthorized);
            },
        };
        let i = match self.find_position(who) {
            Some(i) => i,
            None => {
                return Err(Error::CdpNotFound);
            },
        };
        let cdp = self.positions[i].1;
        let debt = match asset {
            Stablecoin::Dusd => cdp.dusd_debt,
            Stablecoin::Deur => cdp.deur_debt,
        };
        if debt < amount {
            return Err(Error::InsufficientDebt);
        }
        let held = match asset {
            Stablecoin::Dusd => self.dusd.balance_of(who),
            Stablecoin::Deur => self.deur.balance_of(who),
        };
        if held < amount {
            return Err(Error::InsufficientBalance);
        }
        proof {
            self.lemma_position_bounded(i as int);
        }
        let stamp = self.current_stamp();
        let (new_dusd, new_deur) = match asset {
            Stablecoin::Dusd => (debt - amount, cdp.deur_debt),
            Stablecoin::Deur => (cdp.dusd_debt, debt - amount),
        };
        self.replace_position(
            i,
            Cdp {
                collateral: cdp.collateral,
                dusd_debt: new_dusd,
                deur_debt: new_deur,
                last_update: stamp,
            },
        );
        match asset {
            Stablecoin::Dusd => {
                let _ = self.dusd.burn_from(who, amount);
                self.dusd_debt_total = self.dusd_debt_total.saturating_sub(amount);
                self.events.push(Event::DusdRepaid { owner: who, amount });
            },
            Stablecoin::Deur => {
                let _ = self.deur.burn_from(who, amount);
                self.deur_debt_total = self.deur_debt_total.saturating_sub(amount);
                self.events.push(Event::DeurRepaid { owner: who, amount });
            },
        }
        Ok(())
    }

    pub fn repay_dusd(&mut self, origin: Origin, amount: u128) -> (r: Result<(), Error>)
        requires
            old(self).wf(),
        ensures
            old(self).debt_repaid(final(self), origin, Stablecoin::Dusd, amount, r),
    {
        self.repay_debt(origin, Stablecoin::Dusd, amount)
    }

    pub fn repay_deur(&mut self, origin: Origin, amount: u128) -> (r: Result<(), Error>)
        requires
            old(self).wf(),
        ensures
            old(self).debt_repaid(final(self), origin, Stablecoin::Deur, amount, r),
    {
        self.repay_debt(origin, Stablecoin::Deur, amount)
    }

    pub open spec fn liquidate_check(&self, origin: Origin, target: u64) -> Result<u64, Error> {
        match origin {
            Origin::Root => Err(Error::NotAuthorized),
            Origin::Signed(liquidator) => {
                let cdp = self.cdp_of(target);
                if !self.has_cdp(target) {
                    Err(Error::CdpNotFound)
                } else if !self.prices_available() {
                    Err(Error::PriceNotAvailable)
                } else if !self.liquidatable(cdp.collateral, cdp.dusd_debt, cdp.deur_debt) {
                    Err(Error::CdpNotLiquidatable)
                } else {
                    Ok(liquidator)
                }
            },
        }
    }

    /// Seizes `target`'s whole position for the signer: its collateral goes to
    /// the signer's free balance, and the position and its debt are removed.
    pub fn liquidate(&mut self, origin: Origin, target: u64) -> (r: Result<(), Error>)
        requires
            old(self).wf(),
        ensures
            final(self).wf(),
            match old(self).liquidate_check(origin, target) {
                Err(e) => r == Err::<(), Error>(e) && *final(self) == *old(self),
                Ok(liquidator) => {
                    let cdp = old(self).cdp_of(target);
                    &&& r == Ok::<(), Error>(())
                    &&& final(self).position_map() == old(self).position_map().remove(target)
                    &&& old(self).orm.unreserved_to(&final(self).orm, liquidator, cdp.collateral)
                    &&& final(self).collateral_total == sat_sub(
                        old(self).collateral_total,
                        cdp.collateral,
                    )
                    &&& final(self).dusd_debt_total == sat_sub(
                        old(self).dusd_debt_total,
                        cdp.dusd_debt,
                    )
                    &&& final(self).deur_debt_total == sat_sub(
                        old(self).deur_debt_total,
                        cdp.deur_debt,
                    )
                    &&& final(self).dusd == old(self).dusd
                    &&& final(self).deur == old(self).deur
                    &&& old(self).keeps_market(final(self))
                    &&& final(self).events@ == old(self).events@.push(
                        Event::CdpLiquidated {
                            owner: target,
                            liquidator,
                            collateral_seized: cdp.collateral,
                        },
                    )
                },
            },
            match origin {
                Origin::Signed(_) => r is Ok <==> {
                    let cdp = old(self).cdp_of(target);
                    &&& old(self).has_cdp(target)
                    &&& old(self).prices_available()
                    &&& old(self).liquidatable(cdp.collateral, cdp.dusd_debt, cdp.deur_debt)
                },
                Origin::Root => r is Err,
            },
            r is Ok ==> !final(self).has_cdp(target),
            old(self).accounts_balanced() ==> final(self).accounts_balanced(),
    {
        let liquidator = match origin {
            Origin::Signed(w) => w,
            Origin::Root => {
                return Err(Error::NotAuthorized);
            },
        };
        let i = match self.find_position(target) {
            Some(i) => i,
            None => {
                return Err(Error::CdpNotFound);
            },
        };
        let cdp = self.positions[i].1;
        if self.usd_price == 0 || self.eur_price == 0 {
            return Err(Error::PriceNotAvailable);
        }
        let debt_value = self.position_debt_value(cdp.dusd_debt, cdp.deur_debt);
        if debt_value == 0 {
            return Err(Error::CdpNotLiquidatable);
        }
        let ratio = self.position_ratio(cdp.collateral, debt_value);
        if ratio >= self.config.liquidation_ratio as u128 {
            return Err(Error::CdpNotLiquidatable);
        }
        proof {
            self.lemma_position_bounded(i as int);
        }
        self.remove_position(i);
        self.orm.unreserve(liquidator, cdp.collateral);
        self.collateral_total = self.collateral_total.saturating_sub(cdp.collateral);
        self.dusd_debt_total = self.dusd_debt_total.saturating_sub(cdp.dusd_debt);
        self.deur_debt_total = self.deur_debt_total.saturating_sub(cdp.deur_debt);
        self.events.push(
            Event::CdpLiquidated { owner: target, liquidator, collateral_seized: cdp.collateral },
        );
        Ok(())
    }

    /// `post` and `r` are what writing `price` for `asset` leaves from this state.
    pub open spec fn price_written(
        &self,
        post: &Pallet,
        origin: Origin,
        asset: PriceAsset,
        price: u128,
        r: Result<(), Error>,
    ) -> bool {
        &&& post.wf()
        &&& origin != Origin::Root ==> r == Err::<(), Error>(Error::NotAuthorized) && *post
            == *self
        &&& origin == Origin::Root ==> {
            &&& r == Ok::<(), Error>(())
            &&& post.price(asset) == price
            &&& post.price(other_price(asset)) == self.price(other_price(asset))
            &&& post.config == self.config
            &&& post.block_number == self.block_number
            &&& post.orm == self.orm
            &&& post.dusd == self.dusd
            &&& post.deur == self.deur
            &&& post.positions == self.positions
            &&& post.collateral_total == self.collateral_total
            &&& post.dusd_debt_total == self.dusd_debt_total
            &&& post.deur_debt_total == self.deur_debt_total
            &&& post.events@.len() == self.events@.len() + 1
            &&& post.events@.drop_last() == self.events@
            &&& post.events@.last() matches Event::PriceUpdated { asset: symbol, price: p }
                && symbol@ == symbol_of(asset) && p == price
        }
    }

    /// Root-only oracle write: overwrites the price of `asset`, with no bounds
    /// or staleness check.
    pub fn set_price(&mut self, origin: Origin, asset: PriceAsset, price: u128) -> (r: Result<
        (),
        Error,
    >)
        requires
            old(self).wf(),
        ensures
            old(self).price_written(final(self), origin, asset, price, r),
    {
        match origin {
            Origin::Root => {},
            Origin::Signed(_) => {
                return Err(Error::NotAuthorized);
            },
        }
        match asset {
            PriceAsset::OrmUsd => {
                self.usd_price = price;
            },
            PriceAsset::OrmEur => {
                self.eur_price = price;
            },
        }
        let symbol = symbol_bytes(asset);
        let ghost before = self.events@;
        self.events.push(Event::PriceUpdated { asset: symbol, price });
        assert(self.events@.drop_last() =~= before);
        Ok(())
    }

    /// Root-only price update by symbol. A symbol that names no price changes
    /// no price, and is still reported.
    pub fn update_price(&mut self, origin: Origin, asset: Vec<u8>, price: u128) -> (r: Result<
        (),
        Error,
    >)
        requires
            old(self).wf(),
        ensures
            final(self).wf(),
            origin != Origin::Root ==> r == Err::<(), Error>(Error::NotAuthorized) && *final(self)
                == *old(self),
            origin == Origin::Root ==> {
                &&& r == Ok::<(), Error>(())
                &&& match asset_of_symbol(asset@) {
                    Some(a) => final(self).price(a) == price && final(self).price(other_price(a))
                        == old(self).price(other_price(a)),
                    None => final(self).usd_price == old(self).usd_price && final(self).eur_price
                        == old(self).eur_price,
                }
                &&& final(self).config == old(self).config
                &&& final(self).block_number == old(self).block_number
                &&& final(self).orm == old(self).orm
                &&& final(self).dusd == old(self).dusd
                &&& final(self).deur == old(self).deur
                &&& final(self).positions == old(self).positions
                &&& final(self).collateral_total == old(self).collateral_total
                &&& final(self).dusd_debt_total == old(self).dusd_debt_total
                &&& final(self).deur_debt_total == old(self).deur_debt_total
                &&& final(self).events@ == old(self).events@.push(
                    Event::PriceUpdated { asset, price },
                )
            },
    {
        match origin {
            Origin::Root => {},
            Origin::Signed(_) => {
                return Err(Error::NotAuthorized);
            },
        }
        match parse_symbol(&asset) {
            Some(PriceAsset::OrmUsd) => {
                self.usd_price = price;
            },
            Some(PriceAsset::OrmEur) => {
                self.eur_price = price;
            },
            None => {},
        }
        self.events.push(Event::PriceUpdated { asset, price });
        Ok(())
    }
}

pub open spec fn other_price(asset: PriceAsset) -> PriceAsset {
    match asset {
        PriceAsset::OrmUsd => PriceAsset::OrmEur,
        PriceAsset::OrmEur => PriceAsset::OrmUsd,
    }
}

/// The bytes of the symbol under which `asset` is published.
pub fn symbol_bytes(asset: PriceAsset) -> (r: Vec<u8>)
    ensures
        r@ == symbol_of(asset),
{
    let r = match asset {
        PriceAsset::OrmUsd => vec![79u8, 82u8, 77u8, 47u8, 85u8, 83u8, 68u8],
        PriceAsset::OrmEur => vec![79u8, 82u8, 77u8, 47u8, 69u8, 85u8, 82u8],
    };
    assert(r@ =~= symbol_of(asset));
    r
}

fn bytes_equal(a: &Vec<u8>, b: &Vec<u8>) -> (r: bool)
    ensures
        r == (a@ == b@),
{
    if a.len() != b.len() {
        return false;
    }
    let mut i: usize = 0;
    while i < a.len()
        invariant
            a@.len() == b@.len(),
            i <= a@.len(),
            forall|j: int| 0 <= j < i ==> a@[j] == b@[j],
        decreases a@.len() - i,
    {
        if a[i] != b[i] {
            return false;
        }
        i = i + 1;
    }
    assert(a@ =~= b@);
    true
}

/// The price a symbol names, if it names one.
pub fn parse_symbol(symbol: &Vec<u8>) -> (r: Option<PriceAsset>)
    ensures
        r == asset_of_symbol(symbol@),
{
    if bytes_equal(symbol, &symbol_bytes(PriceAsset::OrmUsd)) {
        Some(PriceAsset::OrmUsd)
    } else if bytes_equal(symbol, &symbol_bytes(PriceAsset::OrmEur)) {
        Some(PriceAsset::OrmEur)
    } else {
        None
    }
}

pub open spec fn other_coin(asset: Stablecoin) -> Stablecoin {
    match asset {
        Stablecoin::Dusd => Stablecoin::Deur,
        Stablecoin::Deur => Stablecoin::Dusd,
    }
}

} // verus!
