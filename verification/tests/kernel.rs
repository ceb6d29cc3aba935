//! Behavioral tests for the pool and upgrade kernel.

use cushy_clicker::Magnitude;
use cushy_clicker::PoolId;
use cushy_clicker::QuarterGrowth;
use cushy_clicker::QuarterGrowthUntil;
use cushy_clicker::ResourcePool;
use cushy_clicker::SinglePurchase;
use cushy_clicker::Upgrade;
use cushy_clicker::MILLIS_PER_UNIT;

fn whole(units: u64) -> Magnitude {
    Magnitude::from_whole(units)
}

fn milli(parts: u128) -> Magnitude {
    Magnitude::from_milli(parts)
}

#[test]
fn magnitude_constructors_agree() {
    assert_eq!(whole(1), Magnitude::one());
    assert_eq!(whole(0), Magnitude::default());
    assert_eq!(whole(12).as_milli(), 12 * MILLIS_PER_UNIT);
    assert_eq!(milli(12_500).as_milli(), 12_500);
}

#[test]
fn magnitude_arithmetic() {
    assert_eq!(whole(3).add(whole(4)), whole(7));
    assert_eq!(whole(10).sub(whole(4)), whole(6));
    assert_eq!(whole(10).quarter(), milli(2_500));
    assert_eq!(milli(10).quarter(), milli(2));
    assert_eq!(whole(2).checked_add(whole(2)), Some(whole(4)));
    assert_eq!(milli(u128::MAX).checked_add(milli(1)), None);
    assert!(whole(3).le(&whole(3)));
    assert!(!whole(4).le(&whole(3)));
    assert!(whole(3).ge(&whole(3)));
    assert!(!whole(3).ge(&whole(4)));
}

#[test]
fn fetch_add_returns_previous_value() {
    let mut pool = ResourcePool::default();
    pool.set(whole(5));
    let previous = pool.fetch_add(whole(7));
    assert_eq!(previous, whole(5));
    assert_eq!(pool.get(), whole(12));
}

#[test]
fn fetch_add_from_zero() {
    let mut pool = ResourcePool::new(whole(0));
    let previous = pool.fetch_add(milli(1));
    assert_eq!(previous, whole(0));
    assert_eq!(pool.get(), milli(1));
}

#[test]
fn two_ticks_accrue_exactly_their_sum() {
    let mut pool = ResourcePool::default();
    pool.fetch_add(milli(123));
    pool.fetch_add(milli(877));
    assert_eq!(pool.get(), milli(1_000));
}

#[test]
fn tick_purchase_tick_loses_no_update() {
    let mut pool = ResourcePool::default();
    let mut upgrade: Upgrade<QuarterGrowth> = Upgrade::new(whole(2), PoolId(0));
    pool.fetch_add(whole(3));
    assert!(upgrade.purchase(&mut pool));
    pool.fetch_add(whole(5));
    // 3 + 5 accrued, 2 deducted in between: nothing lost.
    assert_eq!(pool.get(), whole(6));
}

#[test]
fn when_above_toggles_exactly_at_threshold() {
    let mut pool = ResourcePool::new(milli(999));
    assert!(!pool.when_above(whole(1)));
    pool.fetch_add(milli(1));
    assert!(pool.when_above(whole(1)));
    pool.set(milli(1_001));
    assert!(pool.when_above(whole(1)));
    pool.set(milli(999));
    assert!(!pool.when_above(whole(1)));
}

#[test]
fn enabled_requires_present_and_covered_cost() {
    let mut pool = ResourcePool::new(whole(9));
    let upgrade: Upgrade<QuarterGrowth> = Upgrade::new(whole(10), PoolId(0));
    assert!(!upgrade.enabled(&pool));
    pool.set(whole(10));
    assert!(upgrade.enabled(&pool));
    pool.set(whole(11));
    assert!(upgrade.enabled(&pool));
    pool.set(whole(9));
    assert!(!upgrade.enabled(&pool));
}

#[test]
fn enabled_is_false_once_locked() {
    let mut pool = ResourcePool::new(whole(100));
    let mut upgrade: Upgrade<SinglePurchase> =
        Upgrade::new(whole(1), PoolId(0)).with_cost_fn(SinglePurchase);
    assert!(upgrade.enabled(&pool));
    assert!(upgrade.purchase(&mut pool));
    assert_eq!(upgrade.cost(), None);
    assert!(!upgrade.enabled(&pool));
}

#[test]
fn purchase_scenario_with_quarter_growth() {
    let mut pool = ResourcePool::new(whole(100));
    let mut upgrade: Upgrade<QuarterGrowth> =
        Upgrade::new(whole(10), PoolId(0)).with_cost_fn(QuarterGrowth);

    assert!(upgrade.purchase(&mut pool));
    assert_eq!(upgrade.level().get(), whole(1));
    // 10 + 10 / 4 = 12.5 units.
    assert_eq!(upgrade.cost(), Some(milli(12_500)));
    assert_eq!(pool.get(), whole(90));

    // 90 >= 12.5, so the second purchase also succeeds.
    assert!(upgrade.purchase(&mut pool));
    assert_eq!(upgrade.level().get(), whole(2));
    // 12.5 + 12.5 / 4 = 15.625 units.
    assert_eq!(upgrade.cost(), Some(milli(15_625)));
    // 100 - 10 - 12.5 = 77.5 units.
    assert_eq!(pool.get(), milli(77_500));
}

#[test]
fn purchase_without_cost_fn_keeps_cost() {
    let mut pool = ResourcePool::new(whole(7));
    let mut upgrade: Upgrade<QuarterGrowth> = Upgrade::new(whole(3), PoolId(0));
    assert!(upgrade.purchase(&mut pool));
    assert_eq!(upgrade.cost(), Some(whole(3)));
    assert_eq!(upgrade.level().get(), whole(1));
    assert_eq!(pool.get(), whole(4));
    assert!(upgrade.purchase(&mut pool));
    assert_eq!(upgrade.cost(), Some(whole(3)));
    assert_eq!(pool.get(), whole(1));
}

#[test]
fn insufficient_funds_changes_nothing() {
    let mut pool = ResourcePool::new(whole(9));
    let mut upgrade: Upgrade<QuarterGrowth> =
        Upgrade::new(whole(10), PoolId(0)).with_cost_fn(QuarterGrowth);
    assert!(!upgrade.purchase(&mut pool));
    assert_eq!(pool.get(), whole(9));
    assert_eq!(upgrade.level().get(), whole(0));
    assert_eq!(upgrade.cost(), Some(whole(10)));
}

#[test]
fn zero_cost_is_always_affordable() {
    let mut pool = ResourcePool::new(whole(0));
    let mut upgrade: Upgrade<QuarterGrowth> =
        Upgrade::new(whole(0), PoolId(0)).with_cost_fn(QuarterGrowth);
    assert!(upgrade.enabled(&pool));
    assert!(upgrade.purchase(&mut pool));
    assert_eq!(pool.get(), whole(0));
    assert_eq!(upgrade.level().get(), whole(1));
    assert_eq!(upgrade.cost(), Some(whole(0)));
}

#[test]
fn locked_upgrade_never_mutates_again() {
    let mut pool = ResourcePool::new(whole(50));
    let mut upgrade: Upgrade<SinglePurchase> =
        Upgrade::new(whole(5), PoolId(0)).with_cost_fn(SinglePurchase);
    assert!(upgrade.purchase(&mut pool));
    assert_eq!(upgrade.cost(), None);
    for _ in 0..3 {
        assert!(!upgrade.purchase(&mut pool));
        assert_eq!(upgrade.cost(), None);
        assert_eq!(upgrade.level().get(), whole(1));
        assert_eq!(pool.get(), whole(45));
    }
}

#[test]
fn cost_fn_observes_post_increment_level() {
    let mut pool = ResourcePool::new(whole(100));
    // Locks once the level reaches 2: the curve must be seeing the level
    // after the increment, so the second purchase is the last.
    let mut upgrade: Upgrade<QuarterGrowthUntil> = Upgrade::new(whole(1), PoolId(0))
        .with_cost_fn(QuarterGrowthUntil { limit: whole(2) });
    assert!(upgrade.purchase(&mut pool));
    assert_eq!(upgrade.cost(), Some(milli(1_250)));
    assert!(upgrade.purchase(&mut pool));
    assert_eq!(upgrade.cost(), None);
    assert!(!upgrade.purchase(&mut pool));
    assert_eq!(upgrade.level().get(), whole(2));
}

#[test]
fn overflowing_next_cost_locks_the_upgrade() {
    let mut pool = ResourcePool::new(milli(u128::MAX));
    let mut upgrade: Upgrade<QuarterGrowth> =
        Upgrade::new(milli(u128::MAX), PoolId(0)).with_cost_fn(QuarterGrowth);
    assert!(upgrade.purchase(&mut pool));
    // The repriced cost would not fit in a Magnitude, so the upgrade locks.
    assert_eq!(upgrade.cost(), None);
    assert_eq!(pool.get(), whole(0));
}

#[test]
fn upgrades_share_one_source_pool() {
    let mut pool = ResourcePool::new(whole(15));
    let mut first: Upgrade<QuarterGrowth> = Upgrade::new(whole(10), PoolId(0));
    let mut second: Upgrade<QuarterGrowth> = Upgrade::new(whole(10), PoolId(0));
    assert!(first.purchase(&mut pool));
    // The shared balance dropped below the second upgrade's cost, so the
    // second must re-validate affordability and back off.
    assert!(!second.purchase(&mut pool));
    assert_eq!(pool.get(), whole(5));
    assert_eq!(second.level().get(), whole(0));
}

#[test]
fn purchase_one_increments_and_deducts() {
    let mut totals = ResourcePool::default();
    let mut funds = ResourcePool::new(whole(10));
    assert!(totals.purchase_one(whole(4), &mut funds));
    assert_eq!(totals.get(), whole(1));
    assert_eq!(funds.get(), whole(6));
    assert!(totals.purchase_one(whole(4), &mut funds));
    assert_eq!(totals.get(), whole(2));
    assert_eq!(funds.get(), whole(2));
    assert!(!totals.purchase_one(whole(4), &mut funds));
    assert_eq!(totals.get(), whole(2));
    assert_eq!(funds.get(), whole(2));
}

#[test]
fn with_level_sets_the_starting_level() {
    let upgrade: Upgrade<QuarterGrowth> =
        Upgrade::new(whole(10), PoolId(3)).with_level(whole(7));
    assert_eq!(upgrade.level().get(), whole(7));
    assert_eq!(upgrade.cost(), Some(whole(10)));
    assert_eq!(upgrade.source_pool(), PoolId(3));
}
