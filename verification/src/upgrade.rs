//! A purchasable upgrade and its transactional purchase workflow.

use vstd::prelude::*;

use crate::magnitude::MILLIS_PER_UNIT;
use crate::magnitude::Magnitude;
use crate::pool::ResourcePool;

verus! {

/// The abstract value of an optional cost: the amount in thousandths when a
/// cost is listed, `None` when the upgrade is locked.
pub open spec fn cost_view(cost: Option<Magnitude>) -> Option<nat> {
    match cost {
        Some(c) => Some(c@),
        None => None,
    }
}

/// A cost-progression policy, consulted after every successful purchase.
///
/// The policy is a pure function of the post-increment level and the cost
/// that was just paid.  Returning `None` withdraws the upgrade from sale for
/// good: no later purchase can succeed.
pub trait CostCurve: Sized {
    /// The next cost after a purchase, over abstract amounts: `level` is the
    /// level after the increment and `cost` the amount just paid, both in
    /// thousandths of a unit.
    spec fn next_spec(&self, level: nat, cost: nat) -> Option<nat>;

    /// Computes the next cost after a purchase.
    fn next(&self, level: Magnitude, cost: Magnitude) -> (r: Option<Magnitude>)
        ensures
            cost_view(r) == self.next_spec(level@, cost@),
    ;
}

/// A handle naming the pool an upgrade draws funds from.
///
/// Pools are owned by the composing application, which may let several
/// upgrades draw from one shared balance; an upgrade therefore stores this
/// index rather than the pool itself, and the application resolves it when
/// it invokes the purchase workflow.
#[derive(Clone, Copy, Debug, PartialEq, Eq, Structural, Hash)]
pub struct PoolId(pub usize);

/// A purchasable resource.
///
/// An upgrade tracks how often it has been bought (its level, itself held in
/// a [`ResourcePool`]), the cost of the next purchase (`None` once the
/// upgrade is locked), the handle of the pool it is paid from, and an
/// optional [`CostCurve`] that reprices it after every purchase.
pub struct Upgrade<C: CostCurve> {
    level: ResourcePool,
    cost: Option<Magnitude>,
    source_pool: PoolId,
    cost_function: Option<C>,
}

impl<C: CostCurve> Upgrade<C> {
    /// The number of times this upgrade has been purchased, in thousandths
    /// of a unit: each purchase adds one whole unit.
    pub closed spec fn spec_level(&self) -> nat {
        self.level@
    }

    /// The current cost, in thousandths of a unit, or `None` when locked.
    pub closed spec fn spec_cost(&self) -> Option<nat> {
        cost_view(self.cost)
    }

    /// The handle of the pool purchases are paid from.
    pub closed spec fn spec_source_pool(&self) -> PoolId {
        self.source_pool
    }

    /// The configured cost-progression policy, if any.
    pub closed spec fn spec_cost_function(&self) -> Option<C> {
        self.cost_function
    }

    /// Whether the upgrade can never be purchased again: its cost is absent.
    pub open spec fn is_locked(&self) -> bool {
        self.spec_cost() is None
    }

    /// Whether a purchase from a source balance of `source_balance`
    /// thousandths would succeed: a cost is listed and is covered.
    pub open spec fn spec_enabled(&self, source_balance: nat) -> bool {
        self.spec_cost() matches Some(c) && c <= source_balance
    }

    /// Returns a new upgrade with a cost of `base_cost`, paid from the pool
    /// that `source_pool` names.
    pub fn new(base_cost: Magnitude, source_pool: PoolId) -> (r: Upgrade<C>)
        ensures
            r.spec_level() == 0,
            r.spec_cost() == Some(base_cost@),
            r.spec_source_pool() == source_pool,
            r.spec_cost_function() is None,
    {
        Upgrade {
            level: ResourcePool::default(),
            cost: Some(base_cost),
            source_pool,
            cost_function: None,
        }
    }

    /// Sets the initial level of this upgrade and returns self.
    #[must_use]
    pub fn with_level(self, initial_level: Magnitude) -> (r: Upgrade<C>)
        ensures
            r.spec_level() == initial_level@,
            r.spec_cost() == self.spec_cost(),
            r.spec_source_pool() == self.spec_source_pool(),
            r.spec_cost_function() == self.spec_cost_function(),
    {
        let mut r = self;
        r.level.set(initial_level);
        r
    }

    /// Applies `cost_fn` each time the upgrade is purchased, and returns
    /// self.
    ///
    /// After every successful purchase the policy is handed the
    /// post-increment level and the cost just paid, and its answer becomes
    /// the next cost; `None` disables purchasing for good.
    #[must_use]
    pub fn with_cost_fn(self, cost_fn: C) -> (r: Upgrade<C>)
        ensures
            r.spec_level() == self.spec_level(),
            r.spec_cost() == self.spec_cost(),
            r.spec_source_pool() == self.spec_source_pool(),
            r.spec_cost_function() == Some(cost_fn),
    {
        let mut r = self;
        r.cost_function = Some(cost_fn);
        r
    }

    /// Returns the pool containing the number of times this upgrade has
    /// been purchased.
    pub fn level(&self) -> (r: &ResourcePool)
        ensures
            r@ == self.spec_level(),
    {
        &self.level
    }

    /// Returns the current cost of the upgrade.
    ///
    /// If `None`, the upgrade is not able to be purchased.
    pub fn cost(&self) -> (r: Option<Magnitude>)
        ensures
            cost_view(r) == self.spec_cost(),
    {
        self.cost
    }

    /// Returns the handle of the pool that this upgrade purchases from.
    pub fn source_pool(&self) -> (r: PoolId)
        ensures
            r == self.spec_source_pool(),
    {
        self.source_pool
    }

    /// Returns whether a purchase from `source` would currently succeed: a
    /// cost is listed and the source balance covers it.
    ///
    /// This is the affordability signal a host binds to the purchase
    /// affordance; it reads state and never mutates it, and it flips exactly
    /// when the balance crosses the cost, with no hysteresis.
    pub fn enabled(&self, source: &ResourcePool) -> (r: bool)
        ensures
            r == self.spec_enabled(source@),
    {
        match &self.cost {
            Some(c) => c.le(&source.get()),
            None => false,
        }
    }

    /// Attempts to purchase this upgrade, paying from `source`.
    ///
    /// When a cost is listed and `source` covers it, the cost leaves the
    /// source balance, the level rises by one unit, and the configured cost
    /// curve (observing the post-increment level) sets the next cost; absent
    /// a curve the cost stays as it was.  Otherwise — the upgrade is locked,
    /// or funds are insufficient — nothing changes.  Returns whether a
    /// purchase took place.
    ///
    /// The caller passes the pool named by [`Self::source_pool`] and holds
    /// it exclusively for the whole call, so the affordability check and the
    /// deduction form one atomic read-modify-write, and the deduction lands
    /// before the level rises.
    pub fn purchase(&mut self, source: &mut ResourcePool) -> (purchased: bool)
        requires
            old(self).spec_enabled(old(source)@) ==> old(self).spec_level() + MILLIS_PER_UNIT
                <= u128::MAX,
        ensures
            purchase_step(*old(self), old(source)@, *final(self), final(source)@, purchased),
    {
        let current_cost = match &self.cost {
            Some(c) => *c,
            None => {
                return false;
            },
        };
        if !source.when_above(current_cost) {
            return false;
        }
        source.deduct(current_cost);
        let _ = self.level.fetch_add(Magnitude::one());
        let new_level = self.level.get();
        let new_cost = match &self.cost_function {
            Some(cost_fn) => cost_fn.next(new_level, current_cost),
            None => Some(current_cost),
        };
        self.cost = new_cost;
        true
    }
}

/// The purchase transition: how one invocation of [`Upgrade::purchase`]
/// relates the prior upgrade and source balance (`pre`, `pre_src`) to the
/// resulting ones (`post`, `post_src`) and to its answer `purchased`.
///
/// A purchase happens exactly when it is enabled.  When it does, the listed
/// cost leaves the source balance, the level rises by one unit, and the cost
/// curve — given the post-increment level and the amount paid — names the
/// next cost (an absent curve leaves the cost unchanged).  When it does not,
/// upgrade and balance are exactly as they were.
pub open spec fn purchase_step<C: CostCurve>(
    pre: Upgrade<C>,
    pre_src: nat,
    post: Upgrade<C>,
    post_src: nat,
    purchased: bool,
) -> bool {
    &&& purchased == pre.spec_enabled(pre_src)
    &&& (!purchased ==> post == pre && post_src == pre_src)
    &&& (purchased ==> {
        let paid = pre.spec_cost()->0;
        &&& pre.spec_cost() is Some
        &&& post_src == pre_src - paid
        &&& post.spec_level() == pre.spec_level() + MILLIS_PER_UNIT
        &&& post.spec_cost() == (match pre.spec_cost_function() {
            Some(cost_fn) => cost_fn.next_spec((pre.spec_level() + MILLIS_PER_UNIT) as nat, paid),
            None => Some(paid),
        })
        &&& post.spec_source_pool() == pre.spec_source_pool()
        &&& post.spec_cost_function() == pre.spec_cost_function()
    })
}

/// Purchase invariant: with a listed cost `paid` covered by the source
/// balance, a purchase succeeds, the balance drops by exactly `paid`, the
/// level rises by exactly one unit, and the next cost is the curve's answer
/// for the post-increment level (or `paid` again absent a curve).
pub proof fn lemma_purchase_invariant<C: CostCurve>(
    pre: Upgrade<C>,
    pre_src: nat,
    post: Upgrade<C>,
    post_src: nat,
    purchased: bool,
    paid: nat,
)
    requires
        purchase_step(pre, pre_src, post, post_src, purchased),
        pre.spec_cost() == Some(paid),
        paid <= pre_src,
    ensures
        purchased,
        post_src == pre_src - paid,
        post.spec_level() == pre.spec_level() + MILLIS_PER_UNIT,
        post.spec_cost() == (match pre.spec_cost_function() {
            Some(cost_fn) => cost_fn.next_spec((pre.spec_level() + MILLIS_PER_UNIT) as nat, paid),
            None => Some(paid),
        }),
{
}

/// Insufficient funds are a no-op: with a listed cost above the source
/// balance, a purchase attempt changes neither the upgrade (level and cost
/// included) nor the balance.
pub proof fn lemma_insufficient_funds_no_op<C: CostCurve>(
    pre: Upgrade<C>,
    pre_src: nat,
    post: Upgrade<C>,
    post_src: nat,
    purchased: bool,
    c: nat,
)
    requires
        purchase_step(pre, pre_src, post, post_src, purchased),
        pre.spec_cost() == Some(c),
        pre_src < c,
    ensures
        !purchased,
        post == pre,
        post_src == pre_src,
{
}

/// One locked step: a purchase attempt on a locked upgrade changes nothing
/// and leaves the upgrade locked.
pub proof fn lemma_locked_no_op<C: CostCurve>(
    pre: Upgrade<C>,
    pre_src: nat,
    post: Upgrade<C>,
    post_src: nat,
    purchased: bool,
)
    requires
        purchase_step(pre, pre_src, post, post_src, purchased),
        pre.is_locked(),
    ensures
        !purchased,
        post == pre,
        post_src == pre_src,
        post.is_locked(),
{
}

proof fn lemma_locked_up_to<C: CostCurve>(
    states: Seq<(Upgrade<C>, nat)>,
    flags: Seq<bool>,
    i: int,
)
    requires
        states.len() == flags.len() + 1,
        states.len() > 0,
        states[0].0.is_locked(),
        forall|j: int|
            0 <= j < flags.len() ==> purchase_step(
                #[trigger] states[j].0,
                states[j].1,
                states[j + 1].0,
                states[j + 1].1,
                flags[j],
            ),
        0 <= i < states.len(),
    ensures
        states[i] == states[0],
    decreases i,
{
    if i > 0 {
        lemma_locked_up_to(states, flags, i - 1);
        assert(purchase_step(
            states[i - 1].0,
            states[i - 1].1,
            states[i].0,
            states[i].1,
            flags[i - 1],
        ));
    }
}

/// Locked terminality: once the cost is absent, no sequence of purchase
/// attempts ever mutates the upgrade or its source balance again.  The
/// `states` are the successive (upgrade, source balance) pairs and `flags`
/// the answers, each consecutive pair related as one purchase invocation
/// relates them; every state equals the first.
pub proof fn lemma_locked_terminality<C: CostCurve>(
    states: Seq<(Upgrade<C>, nat)>,
    flags: Seq<bool>,
)
    requires
        states.len() == flags.len() + 1,
        states.len() > 0,
        states[0].0.is_locked(),
        forall|j: int|
            0 <= j < flags.len() ==> purchase_step(
                #[trigger] states[j].0,
                states[j].1,
                states[j + 1].0,
                states[j + 1].1,
                flags[j],
            ),
    ensures
        forall|i: int| 0 <= i < states.len() ==> #[trigger] states[i] == states[0],
{
    assert forall|i: int| 0 <= i < states.len() implies #[trigger] states[i] == states[0] by {
        lemma_locked_up_to(states, flags, i);
    }
}

} // verus!
