//! Ready-made cost-progression policies.

use vstd::prelude::*;

use crate::magnitude::Magnitude;
use crate::upgrade::CostCurve;

verus! {

/// Raises the cost by a quarter of itself after every purchase: the next
/// cost is the cost just paid plus a quarter of it, the quarter rounded down
/// to a thousandth of a unit.  Should that sum ever outgrow what a
/// [`Magnitude`] can hold, the upgrade locks instead.
#[derive(Clone, Copy, Debug, PartialEq, Eq, Structural, Hash)]
pub struct QuarterGrowth;

impl CostCurve for QuarterGrowth {
    open spec fn next_spec(&self, level: nat, cost: nat) -> Option<nat> {
        if cost + cost / 4 <= u128::MAX {
            Some((cost + cost / 4) as nat)
        } else {
            None
        }
    }

    fn next(&self, level: Magnitude, cost: Magnitude) -> (r: Option<Magnitude>) {
        cost.checked_add(cost.quarter())
    }
}

/// Raises the cost by a quarter of itself after every purchase, as
/// [`QuarterGrowth`] does, until the upgrade has been bought up to the level
/// `limit`; at that level it locks, so no further purchase can succeed.
#[derive(Clone, Copy, Debug, PartialEq, Eq, Structural, Hash)]
pub struct QuarterGrowthUntil {
    /// The level (in thousandths of a unit, as all amounts are) at which the
    /// upgrade is withdrawn from sale.
    pub limit: Magnitude,
}

impl CostCurve for QuarterGrowthUntil {
    open spec fn next_spec(&self, level: nat, cost: nat) -> Option<nat> {
        if level >= self.limit@ {
            None
        } else if cost + cost / 4 <= u128::MAX {
            Some((cost + cost / 4) as nat)
        } else {
            None
        }
    }

    fn next(&self, level: Magnitude, cost: Magnitude) -> (r: Option<Magnitude>) {
        if level.ge(&self.limit) {
            None
        } else {
            cost.checked_add(cost.quarter())
        }
    }
}

/// Withdraws the upgrade from sale as soon as it has been bought once: the
/// next cost is always absent.
#[derive(Clone, Copy, Debug, PartialEq, Eq, Structural, Hash)]
pub struct SinglePurchase;

impl CostCurve for SinglePurchase {
    open spec fn next_spec(&self, level: nat, cost: nat) -> Option<nat> {
        None
    }

    fn next(&self, level: Magnitude, cost: Magnitude) -> (r: Option<Magnitude>) {
        None
    }
}

} // verus!
