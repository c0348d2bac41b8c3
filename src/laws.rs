//! Laws that relate several operations of the engine.
use vstd::prelude::*;

use crate::collateral_engine::{
    debt_in, other_coin, other_price, Error, Pallet, PriceAsset, Stablecoin,
};
use crate::origin::Origin;

verus! {

/// Minting `x` of a stablecoin as debt and then repaying `x` of it succeeds
/// and restores the position's debts and every balance of that coin, when
/// the mint saturated neither the debt nor the signer's balance. The coin's
/// supply and the aggregate debt come back too where the mint did not
/// saturate them.
pub proof fn lemma_mint_then_repay_restores(
    s0: Pallet,
    s1: Pallet,
    s2: Pallet,
    who: u64,
    asset: Stablecoin,
    x: u128,
    r2: Result<(), Error>,
)
    requires
        s0.wf(),
        s0.debt_minted(&s1, Origin::Signed(who), asset, x, Ok(())),
        s1.debt_repaid(&s2, Origin::Signed(who), asset, x, r2),
        debt_in(s0.cdp_of(who), asset) + x <= u128::MAX,
        s0.stable(asset).balance(who) + x <= u128::MAX,
    ensures
        r2 == Ok::<(), Error>(()),
        s2.has_cdp(who),
        s2.cdp_of(who).collateral == s0.cdp_of(who).collateral,
        s2.cdp_of(who).dusd_debt == s0.cdp_of(who).dusd_debt,
        s2.cdp_of(who).deur_debt == s0.cdp_of(who).deur_debt,
        forall|a: u64| #[trigger] s2.stable(asset).balance(a) == s0.stable(asset).balance(a),
        s0.stable(asset).supply + x <= u128::MAX ==> s2.stable(asset).supply == s0.stable(
            asset,
        ).supply,
        s0.total_debt(asset) + x <= u128::MAX ==> s2.total_debt(asset) == s0.total_debt(asset),
        s2.stable(other_coin(asset)) == s0.stable(other_coin(asset)),
        s2.total_debt(other_coin(asset)) == s0.total_debt(other_coin(asset)),
        s2.orm == s0.orm,
        s2.collateral_total == s0.collateral_total,
{
    assert(s1.has_cdp(who));
    assert(s1.stable(asset).balance(who) == s0.stable(asset).balance(who) + x);
    assert(s1.repay_check(Origin::Signed(who), asset, x) == Ok::<u64, Error>(who));
    assert forall|a: u64| #[trigger] s2.stable(asset).balance(a) == s0.stable(asset).balance(a) by {
        if a != who {
            assert(s1.stable(asset).balance(a) == s0.stable(asset).balance(a));
        }
    }
}

/// Writing the same price twice in a row: the second write leaves the price
/// where the first one put it.
pub proof fn lemma_set_price_idempotent(
    s0: Pallet,
    s1: Pallet,
    s2: Pallet,
    origin: Origin,
    asset: PriceAsset,
    p: u128,
    r1: Result<(), Error>,
    r2: Result<(), Error>,
)
    requires
        s0.price_written(&s1, origin, asset, p, r1),
        s1.price_written(&s2, origin, asset, p, r2),
    ensures
        r1 == r2,
        origin == Origin::Root ==> s1.price(asset) == p,
        s2.price(asset) == s1.price(asset),
        s2.price(other_price(asset)) == s0.price(other_price(asset)),
{
}

} // verus!
