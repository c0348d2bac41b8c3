use orium::collateral_engine::{Config, Error, Event, Pallet};
use orium::origin::Origin;

fn new_engine() -> Pallet {
    let mut engine = Pallet::new(Config {
        min_collateral_ratio: 15_000,
        liquidation_ratio: 13_000,
        price_scale: 100_000,
    });
    engine.set_block_number(1);
    engine
}

fn symbol(text: &str) -> Vec<u8> {
    text.as_bytes().to_vec()
}

fn set_prices(engine: &mut Pallet, usd: u128, eur: u128) {
    assert_eq!(engine.update_price(Origin::root(), symbol("ORM/USD"), usd), Ok(()));
    assert_eq!(engine.update_price(Origin::root(), symbol("ORM/EUR"), eur), Ok(()));
}

#[test]
fn create_cdp_works() {
    let mut engine = new_engine();
    set_prices(&mut engine, 100_000, 80_000);
    engine.orm.mint_to(1, 10_000);
    assert_eq!(engine.create_cdp(Origin::signed(1), 5_000), Ok(()));
    assert!(engine.cdps(1).is_some());
    let cdp = engine.cdps(1).unwrap();
    assert_eq!(cdp.collateral, 5_000);
    assert_eq!(cdp.dusd_debt, 0);
    assert_eq!(cdp.deur_debt, 0);
    assert_eq!(
        engine.events.last(),
        Some(&Event::CdpCreated { owner: 1, collateral: 5_000 })
    );
}

#[test]
fn create_cdp_fails_already_exists() {
    let mut engine = new_engine();
    engine.orm.mint_to(1, 10_000);
    set_prices(&mut engine, 100_000, 80_000);
    assert_eq!(engine.create_cdp(Origin::signed(1), 5_000), Ok(()));
    assert_eq!(engine.create_cdp(Origin::signed(1), 3_000), Err(Error::CdpAlreadyExists));
    assert_eq!(engine.cdps(1).unwrap().collateral, 5_000);
    assert_eq!(engine.total_collateral(), 5_000);
    assert_eq!(engine.orm.balance_of(1), 5_000);
}

#[test]
fn deposit_collateral_works() {
    let mut engine = new_engine();
    set_prices(&mut engine, 100_000, 80_000);
    engine.orm.mint_to(1, 10_000);
    assert_eq!(engine.create_cdp(Origin::signed(1), 5_000), Ok(()));
    assert_eq!(engine.deposit_collateral(Origin::signed(1), 2_000), Ok(()));
    let cdp = engine.cdps(1).unwrap();
    assert_eq!(cdp.collateral, 7_000);
    assert_eq!(engine.total_collateral(), 7_000);
    assert_eq!(
        engine.events.last(),
        Some(&Event::CollateralDeposited { owner: 1, amount: 2_000 })
    );
}

#[test]
fn deposit_collateral_fails_no_cdp() {
    let mut engine = new_engine();
    engine.orm.mint_to(1, 10_000);
    assert_eq!(engine.deposit_collateral(Origin::signed(1), 2_000), Err(Error::CdpNotFound));
    assert_eq!(engine.orm.balance_of(1), 10_000);
    assert_eq!(engine.total_collateral(), 0);
}

#[test]
fn mint_dusd_works() {
    let mut engine = new_engine();
    set_prices(&mut engine, 100_000, 80_000);
    engine.orm.mint_to(1, 10_000);
    assert_eq!(engine.create_cdp(Origin::signed(1), 5_000), Ok(()));
    assert_eq!(engine.mint_dusd(Origin::signed(1), 3_000), Ok(()));
    let cdp = engine.cdps(1).unwrap();
    assert_eq!(cdp.dusd_debt, 3_000);
    assert_eq!(engine.total_dusd_debt(), 3_000);
    assert_eq!(
        engine.events.last(),
        Some(&Event::DusdMinted { owner: 1, amount: 3_000 })
    );
}

#[test]
fn mint_dusd_fails_insufficient_collateral() {
    let mut engine = new_engine();
    set_prices(&mut engine, 100_000, 80_000);
    engine.orm.mint_to(1, 2_000);
    assert_eq!(engine.create_cdp(Origin::signed(1), 1_000), Ok(()));
    assert_eq!(engine.mint_dusd(Origin::signed(1), 1_000), Err(Error::CollateralRatioTooLow));
    assert_eq!(engine.cdps(1).unwrap().dusd_debt, 0);
    assert_eq!(engine.dusd.balance_of(1), 0);
}

#[test]
fn withdraw_collateral_works() {
    let mut engine = new_engine();
    set_prices(&mut engine, 100_000, 80_000);
    engine.orm.mint_to(1, 10_000);
    assert_eq!(engine.create_cdp(Origin::signed(1), 5_000), Ok(()));
    assert_eq!(engine.withdraw_collateral(Origin::signed(1), 2_000), Ok(()));
    let cdp = engine.cdps(1).unwrap();
    assert_eq!(cdp.collateral, 3_000);
    assert_eq!(
        engine.events.last(),
        Some(&Event::CollateralWithdrawn { owner: 1, amount: 2_000 })
    );
}

#[test]
fn withdraw_collateral_fails_with_debt() {
    let mut engine = new_engine();
    set_prices(&mut engine, 100_000, 80_000);
    engine.orm.mint_to(1, 10_000);
    assert_eq!(engine.create_cdp(Origin::signed(1), 5_000), Ok(()));
    assert_eq!(engine.mint_dusd(Origin::signed(1), 3_000), Ok(()));
    assert_eq!(
        engine.withdraw_collateral(Origin::signed(1), 3_000),
        Err(Error::CollateralRatioTooLow)
    );
    assert_eq!(engine.cdps(1).unwrap().collateral, 5_000);
    assert_eq!(engine.orm.balance_of(1), 5_000);
}

#[test]
fn price_update_works() {
    let mut engine = new_engine();
    assert_eq!(engine.update_price(Origin::root(), symbol("ORM/USD"), 120_000), Ok(()));
    assert_eq!(engine.update_price(Origin::root(), symbol("ORM/EUR"), 90_000), Ok(()));
    assert_eq!(engine.orm_usd_price(), 120_000);
    assert_eq!(engine.orm_eur_price(), 90_000);
    assert!(engine
        .events
        .contains(&Event::PriceUpdated { asset: symbol("ORM/USD"), price: 120_000 }));
    assert!(engine
        .events
        .contains(&Event::PriceUpdated { asset: symbol("ORM/EUR"), price: 90_000 }));
}

#[test]
fn price_update_fails_for_non_root() {
    let mut engine = new_engine();
    assert_eq!(
        engine.update_price(Origin::signed(1), symbol("ORM/USD"), 120_000),
        Err(Error::NotAuthorized)
    );
    assert_eq!(engine.orm_usd_price(), 0);
    assert!(engine.events.is_empty());
}

#[test]
fn collateral_ratio_calculation_works() {
    let mut engine = new_engine();
    set_prices(&mut engine, 100_000, 80_000);
    engine.orm.mint_to(1, 10_000);
    assert_eq!(engine.create_cdp(Origin::signed(1), 5_000), Ok(()));
    assert_eq!(engine.mint_dusd(Origin::signed(1), 3_000), Ok(()));
    assert_eq!(engine.mint_dusd(Origin::signed(1), 500), Err(Error::CollateralRatioTooLow));
    assert_eq!(engine.cdps(1).unwrap().dusd_debt, 3_000);
    assert_eq!(engine.dusd.balance_of(1), 3_000);
}
