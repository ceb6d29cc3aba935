//! A mutable balance of resources that accrual ticks and purchases share.

use vstd::prelude::*;

use crate::magnitude::MILLIS_PER_UNIT;
use crate::magnitude::Magnitude;

verus! {

/// A mutable container of a [`Magnitude`] balance.
///
/// The abstract value of a pool (written `p@`) is the abstract value of its
/// balance.  A host application owns the pool and runs every mutation inside
/// its own exclusive-access scope, which Rust's `&mut` stands for here: a
/// periodic accrual tick, a click handler and a purchase deduction each
/// complete as one read-modify-write before the next begins, so no update is
/// ever lost.
#[derive(Clone, Copy, Debug, PartialEq, Eq, Structural)]
pub struct ResourcePool {
    balance: Magnitude,
}

impl View for ResourcePool {
    type V = nat;

    closed spec fn view(&self) -> nat {
        self.balance@
    }
}

impl ResourcePool {
    /// Returns a new pool with the given initial balance.
    pub fn new(initial: Magnitude) -> (r: ResourcePool)
        ensures
            r@ == initial@,
    {
        ResourcePool { balance: initial }
    }

    /// Returns the current balance.
    pub fn get(&self) -> (r: Magnitude)
        ensures
            r@ == self@,
    {
        self.balance
    }

    /// Replaces the balance with `value`.
    pub fn set(&mut self, value: Magnitude)
        ensures
            final(self)@ == value@,
    {
        self.balance = value;
    }

    /// Fetches the currently stored balance and then adds `value` to it.
    /// Returns the originally stored balance.
    pub fn fetch_add(&mut self, value: Magnitude) -> (previous: Magnitude)
        requires
            old(self)@ + value@ <= u128::MAX,
        ensures
            previous@ == old(self)@,
            final(self)@ == old(self)@ + value@,
    {
        let previous = self.balance;
        self.balance = previous.add(value);
        previous
    }

    /// Removes `cost` from the balance.  The cost must not exceed the
    /// balance: a pool never goes negative, so callers check affordability
    /// first.
    pub fn deduct(&mut self, cost: Magnitude)
        requires
            cost@ <= old(self)@,
        ensures
            final(self)@ == old(self)@ - cost@,
    {
        self.balance = self.balance.sub(cost);
    }

    /// Increments this pool by one unit, but only if `cost` can be deducted
    /// from `purchase_from`; with insufficient funds, both pools stay as
    /// they were.  Returns whether the purchase took place.
    ///
    /// Both pools are held exclusively for the whole call, so the
    /// affordability check and the two writes form one atomic unit, with the
    /// deduction landing first.
    pub fn purchase_one(
        &mut self,
        cost: Magnitude,
        purchase_from: &mut ResourcePool,
    ) -> (purchased: bool)
        requires
            old(purchase_from)@ >= cost@ ==> old(self)@ + MILLIS_PER_UNIT <= u128::MAX,
        ensures
            purchased == (old(purchase_from)@ >= cost@),
            purchased ==> final(purchase_from)@ == old(purchase_from)@ - cost@
                && final(self)@ == old(self)@ + MILLIS_PER_UNIT,
            !purchased ==> final(purchase_from)@ == old(purchase_from)@
                && final(self)@ == old(self)@,
    {
        if purchase_from.when_above(cost) {
            purchase_from.deduct(cost);
            let _ = self.fetch_add(Magnitude::one());
            true
        } else {
            false
        }
    }

    /// Returns whether the balance is at least `above`.
    ///
    /// A host rechecks this whenever the balance or the threshold changes to
    /// keep a live affordability signal: the answer is a pure function of the
    /// two amounts, so the signal toggles exactly at the threshold.
    pub fn when_above(&self, above: Magnitude) -> (r: bool)
        ensures
            r == (self@ >= above@),
    {
        self.balance.ge(&above)
    }
}

impl Default for ResourcePool {
    /// Returns a pool with an empty balance.
    fn default() -> (r: ResourcePool)
        ensures
            r@ == 0,
    {
        ResourcePool { balance: Magnitude::zero() }
    }
}

/// Atomic fetch-add: after the balance is set to `a`, one fetch-add of `b`
/// reports `a` back and leaves exactly `a + b` stored.  The `stored`,
/// `reported` and `after` arguments are what [`ResourcePool::set`] and
/// [`ResourcePool::fetch_add`] promise of the balance and the report.
pub proof fn lemma_atomic_fetch_add(a: nat, b: nat, stored: nat, reported: nat, after: nat)
    requires
        stored == a,
        reported == stored,
        after == stored + b,
    ensures
        reported == a,
        after == a + b,
{
}

/// No lost updates: two accrual ticks of `d1` and `d2` on an initially empty
/// pool leave exactly `d1 + d2` (less anything a purchase deducted in
/// between), whatever the order of the exclusive read-modify-write scopes.
/// The three `after_*` arguments are the balances that `fetch_add` and
/// `deduct` promise after each step.
pub proof fn lemma_no_lost_updates(
    d1: nat,
    d2: nat,
    c: nat,
    after_first_tick: nat,
    after_deduct: nat,
    after_second_tick: nat,
)
    requires
        after_first_tick == 0 + d1,
        c <= after_first_tick,
        after_deduct == after_first_tick - c,
        after_second_tick == after_deduct + d2,
    ensures
        after_second_tick == d1 + d2 - c,
{
}

} // verus!
