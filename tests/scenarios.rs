use orium::collateral_engine::{
    parse_symbol, symbol_bytes, Config, Error, Event, Pallet, PriceAsset, Stablecoin,
};
use orium::origin::Origin;

fn engine_with_prices(usd: u128, eur: u128) -> Pallet {
    let mut engine = Pallet::new(Config {
        min_collateral_ratio: 15_000,
        liquidation_ratio: 13_000,
        price_scale: 100_000,
    });
    assert_eq!(engine.set_price(Origin::root(), PriceAsset::OrmUsd, usd), Ok(()));
    assert_eq!(engine.set_price(Origin::root(), PriceAsset::OrmEur, eur), Ok(()));
    engine
}

#[test]
fn scenario_mint_up_to_minimum_ratio() {
    let mut engine = engine_with_prices(100_000, 80_000);
    engine.orm.mint_to(1, 5_000);
    assert_eq!(engine.create_cdp(Origin::signed(1), 5_000), Ok(()));
    assert_eq!(engine.mint_dusd(Origin::signed(1), 3_000), Ok(()));
    assert_eq!(engine.collateral_ratio(5_000, 3_000, 0), Ok(Some(16_666)));
    assert_eq!(engine.collateral_ratio(5_000, 3_500, 0), Ok(Some(14_285)));
    assert_eq!(engine.mint_dusd(Origin::signed(1), 500), Err(Error::CollateralRatioTooLow));
}

#[test]
fn scenario_price_drop_makes_position_liquidatable() {
    let mut engine = engine_with_prices(129_000, 80_000);
    engine.orm.mint_to(1, 10_000);
    assert_eq!(engine.create_cdp(Origin::signed(1), 10_000), Ok(()));
    assert_eq!(engine.mint_dusd(Origin::signed(1), 7_700), Ok(()));
    assert_eq!(engine.collateral_ratio(10_000, 7_700, 0), Ok(Some(16_753)));
    assert_eq!(engine.liquidate(Origin::signed(2), 1), Err(Error::CdpNotLiquidatable));
    assert!(engine.cdps(1).is_some());
    assert_eq!(engine.set_price(Origin::root(), PriceAsset::OrmUsd, 100_000), Ok(()));
    assert_eq!(engine.collateral_ratio(10_000, 7_700, 0), Ok(Some(12_987)));
    assert_eq!(engine.liquidate(Origin::signed(2), 1), Ok(()));
    assert!(engine.cdps(1).is_none());
    assert_eq!(engine.orm.balance_of(2), 10_000);
    assert_eq!(engine.total_collateral(), 0);
    assert_eq!(engine.total_dusd_debt(), 0);
    assert_eq!(engine.orm.reserved_total(), 0);
    assert_eq!(engine.dusd.balance_of(1), 7_700);
    assert_eq!(
        engine.events.last(),
        Some(&Event::CdpLiquidated { owner: 1, liquidator: 2, collateral_seized: 10_000 })
    );
}

#[test]
fn scenario_maximum_collateral_never_aborts() {
    let mut engine = engine_with_prices(100_000, 80_000);
    engine.orm.mint_to(1, u128::MAX);
    assert_eq!(engine.create_cdp(Origin::signed(1), u128::MAX), Ok(()));
    assert_eq!(engine.total_collateral(), u128::MAX);
    assert!(engine.mint_dusd(Origin::signed(1), u128::MAX).is_err());
    assert!(engine.mint_dusd(Origin::signed(1), 1).is_ok());
    assert_eq!(engine.update_price(Origin::root(), b"ORM/USD".to_vec(), u128::MAX), Ok(()));
    assert!(engine.mint_deur(Origin::signed(1), u128::MAX / 2).is_ok());
    assert!(engine.collateral_ratio(u128::MAX, u128::MAX, u128::MAX).is_ok());
    assert_eq!(engine.deposit_collateral(Origin::signed(1), 1), Err(Error::InsufficientBalance));
}

#[test]
fn mint_then_repay_restores_debt_and_balances() {
    let mut engine = engine_with_prices(100_000, 80_000);
    engine.orm.mint_to(1, 10_000);
    assert_eq!(engine.create_cdp(Origin::signed(1), 10_000), Ok(()));
    assert_eq!(engine.mint_dusd(Origin::signed(1), 1_000), Ok(()));
    assert_eq!(engine.mint_deur(Origin::signed(1), 2_000), Ok(()));
    assert_eq!(engine.mint_debt(Origin::signed(1), Stablecoin::Deur, 700), Ok(()));
    assert_eq!(engine.deur.balance_of(1), 2_700);
    assert_eq!(engine.total_deur_debt(), 2_700);
    assert_eq!(engine.repay_debt(Origin::signed(1), Stablecoin::Deur, 700), Ok(()));
    let cdp = engine.cdps(1).unwrap();
    assert_eq!(cdp.deur_debt, 2_000);
    assert_eq!(cdp.dusd_debt, 1_000);
    assert_eq!(engine.deur.balance_of(1), 2_000);
    assert_eq!(engine.deur.total_supply(), 2_000);
    assert_eq!(engine.total_deur_debt(), 2_000);
    assert_eq!(engine.repay_dusd(Origin::signed(1), 1_000), Ok(()));
    assert_eq!(engine.cdps(1).unwrap().dusd_debt, 0);
    assert_eq!(engine.dusd.total_supply(), 0);
    assert_eq!(engine.events.last(), Some(&Event::DusdRepaid { owner: 1, amount: 1_000 }));
}

#[test]
fn repeated_price_write_is_stable() {
    let mut engine = engine_with_prices(100_000, 80_000);
    assert_eq!(engine.set_price(Origin::root(), PriceAsset::OrmEur, 91_000), Ok(()));
    assert_eq!(engine.get_price(PriceAsset::OrmEur), 91_000);
    assert_eq!(engine.set_price(Origin::root(), PriceAsset::OrmEur, 91_000), Ok(()));
    assert_eq!(engine.get_price(PriceAsset::OrmEur), 91_000);
    assert_eq!(engine.get_price(PriceAsset::OrmUsd), 100_000);
    assert_eq!(
        engine.events.last(),
        Some(&Event::PriceUpdated { asset: b"ORM/EUR".to_vec(), price: 91_000 })
    );
    assert_eq!(
        engine.set_price(Origin::signed(3), PriceAsset::OrmEur, 5),
        Err(Error::NotAuthorized)
    );
    assert_eq!(engine.get_price(PriceAsset::OrmEur), 91_000);
}

#[test]
fn debt_value_converts_second_stablecoin() {
    let engine = engine_with_prices(100_000, 80_000);
    // 1500 of the second coin is worth 1500 * 80000 / 100000 = 1200 of the first.
    assert_eq!(engine.collateral_ratio(15_000, 2_000, 1_500), Ok(Some(46_875)));
    assert_eq!(engine.collateral_ratio(15_000, 0, 0), Ok(None));
    assert_eq!(engine.collateral_ratio(15_000, 0, 1), Ok(None));
    assert_eq!(engine.check_collateral_ratio(1_000, 1_000, 0), Ok(false));
    assert_eq!(engine.check_collateral_ratio(1_500, 1_000, 0), Ok(true));
    assert_eq!(engine.check_collateral_ratio(0, 0, 0), Ok(true));
}

#[test]
fn missing_price_is_reported() {
    let mut engine = Pallet::new(Config {
        min_collateral_ratio: 15_000,
        liquidation_ratio: 13_000,
        price_scale: 100_000,
    });
    assert_eq!(engine.collateral_ratio(1, 1, 1), Err(Error::PriceNotAvailable));
    engine.orm.mint_to(1, 1_000);
    assert_eq!(engine.create_cdp(Origin::signed(1), 1_000), Ok(()));
    assert_eq!(engine.mint_dusd(Origin::signed(1), 1), Err(Error::PriceNotAvailable));
    assert_eq!(engine.withdraw_collateral(Origin::signed(1), 400), Ok(()));
    assert_eq!(engine.liquidate(Origin::signed(2), 1), Err(Error::PriceNotAvailable));
    assert_eq!(engine.set_price(Origin::root(), PriceAsset::OrmUsd, 100_000), Ok(()));
    assert_eq!(engine.check_collateral_ratio(1, 1, 1), Err(Error::PriceNotAvailable));
}

#[test]
fn each_engine_error_has_its_input() {
    let mut engine = engine_with_prices(100_000, 80_000);
    engine.orm.mint_to(1, 1_000);
    assert_eq!(engine.create_cdp(Origin::root(), 10), Err(Error::NotAuthorized));
    assert_eq!(engine.create_cdp(Origin::signed(1), 2_000), Err(Error::InsufficientBalance));
    assert_eq!(engine.create_cdp(Origin::signed(1), 600), Ok(()));
    assert_eq!(engine.create_cdp(Origin::signed(1), 1), Err(Error::CdpAlreadyExists));
    assert_eq!(engine.deposit_collateral(Origin::signed(1), 401), Err(Error::InsufficientBalance));
    assert_eq!(engine.withdraw_collateral(Origin::signed(2), 1), Err(Error::CdpNotFound));
    assert_eq!(
        engine.withdraw_collateral(Origin::signed(1), 601),
        Err(Error::InsufficientCollateral)
    );
    assert_eq!(engine.mint_dusd(Origin::signed(2), 1), Err(Error::CdpNotFound));
    assert_eq!(engine.repay_dusd(Origin::signed(1), 1), Err(Error::InsufficientDebt));
    assert_eq!(engine.mint_dusd(Origin::signed(1), 100), Ok(()));
    assert!(engine.dusd.transfer(Origin::signed(1), 5, 50).is_ok());
    assert_eq!(engine.repay_dusd(Origin::signed(1), 100), Err(Error::InsufficientBalance));
    assert_eq!(engine.repay_dusd(Origin::signed(1), 101), Err(Error::InsufficientDebt));
    assert_eq!(engine.repay_deur(Origin::signed(3), 1), Err(Error::CdpNotFound));
    assert_eq!(engine.liquidate(Origin::signed(2), 7), Err(Error::CdpNotFound));
    assert_eq!(engine.liquidate(Origin::root(), 1), Err(Error::NotAuthorized));
    assert_eq!(engine.liquidate(Origin::signed(2), 1), Err(Error::CdpNotLiquidatable));
    assert_eq!(engine.cdps(1).unwrap().dusd_debt, 100);
    assert_eq!(engine.total_dusd_debt(), 100);
}

#[test]
fn withdraw_without_debt_needs_no_price() {
    let mut engine = Pallet::new(Config {
        min_collateral_ratio: 15_000,
        liquidation_ratio: 13_000,
        price_scale: 100_000,
    });
    engine.orm.mint_to(4, 500);
    assert_eq!(engine.create_cdp(Origin::signed(4), 500), Ok(()));
    assert_eq!(engine.withdraw_collateral(Origin::signed(4), 500), Ok(()));
    let cdp = engine.cdps(4).unwrap();
    assert_eq!(cdp.collateral, 0);
    assert_eq!(engine.orm.balance_of(4), 500);
    assert_eq!(engine.total_collateral(), 0);
}

#[test]
fn positions_record_block_height() {
    let mut engine = engine_with_prices(100_000, 80_000);
    engine.set_block_number(7);
    engine.orm.mint_to(1, 100);
    assert_eq!(engine.create_cdp(Origin::signed(1), 50), Ok(()));
    assert_eq!(engine.cdps(1).unwrap().last_update, 7);
    engine.set_block_number(u64::MAX);
    assert_eq!(engine.deposit_collateral(Origin::signed(1), 10), Ok(()));
    assert_eq!(engine.cdps(1).unwrap().last_update, u32::MAX);
}

#[test]
fn unknown_symbol_changes_no_price() {
    let mut engine = engine_with_prices(100_000, 80_000);
    assert_eq!(engine.update_price(Origin::root(), b"ORM/GBP".to_vec(), 1), Ok(()));
    assert_eq!(engine.orm_usd_price(), 100_000);
    assert_eq!(engine.orm_eur_price(), 80_000);
    assert_eq!(
        engine.events.last(),
        Some(&Event::PriceUpdated { asset: b"ORM/GBP".to_vec(), price: 1 })
    );
    assert_eq!(parse_symbol(&b"ORM/USD".to_vec()), Some(PriceAsset::OrmUsd));
    assert_eq!(parse_symbol(&b"ORM/EUR".to_vec()), Some(PriceAsset::OrmEur));
    assert_eq!(parse_symbol(&b"ORM/US".to_vec()), None);
    assert_eq!(symbol_bytes(PriceAsset::OrmEur), b"ORM/EUR".to_vec());
}

#[test]
fn totals_follow_positions() {
    let mut engine = engine_with_prices(100_000, 80_000);
    engine.orm.mint_to(1, 10_000);
    engine.orm.mint_to(2, 10_000);
    assert_eq!(engine.create_cdp(Origin::signed(1), 6_000), Ok(()));
    assert_eq!(engine.create_cdp(Origin::signed(2), 3_000), Ok(()));
    assert_eq!(engine.mint_dusd(Origin::signed(1), 1_000), Ok(()));
    assert_eq!(engine.mint_deur(Origin::signed(2), 500), Ok(()));
    assert_eq!(engine.withdraw_collateral(Origin::signed(1), 1_000), Ok(()));
    assert_eq!(engine.total_collateral(), 8_000);
    assert_eq!(engine.orm.reserved_total(), 8_000);
    assert_eq!(engine.total_dusd_debt(), 1_000);
    assert_eq!(engine.total_deur_debt(), 500);
    assert_eq!(engine.set_price(Origin::root(), PriceAsset::OrmUsd, 10_000), Ok(()));
    assert_eq!(engine.liquidate(Origin::signed(1), 2), Ok(()));
    assert_eq!(engine.total_collateral(), 5_000);
    assert_eq!(engine.total_deur_debt(), 0);
    assert_eq!(engine.orm.balance_of(1), 4_000 + 1_000 + 3_000);
    assert_eq!(
        engine.orm.balance_of(1) + engine.orm.balance_of(2) + engine.total_collateral(),
        engine.orm.total_supply()
    );
}
