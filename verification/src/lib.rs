//! Building blocks for incremental/clicker games.
//!
//! The crate centers on two state containers: a [`ResourcePool`], a mutable
//! balance of some resource, and an [`Upgrade`], a purchasable entity that
//! draws funds from a pool and tracks how often it has been bought.  All
//! quantities are held as [`Magnitude`] values, a non-negative fixed-point
//! amount.  The containers are plain values: a host application owns them,
//! wires them to its reactive cells and timers, and calls the operations
//! here inside whatever exclusive-access scope it provides.

mod curves;
mod magnitude;
mod pool;
mod upgrade;

pub use curves::QuarterGrowth;
pub use curves::QuarterGrowthUntil;
pub use curves::SinglePurchase;

pub use magnitude::Magnitude;
pub use magnitude::MILLIS_PER_UNIT;
pub use pool::ResourcePool;
pub use pool::lemma_atomic_fetch_add;
pub use pool::lemma_no_lost_updates;
pub use upgrade::CostCurve;
pub use upgrade::PoolId;
pub use upgrade::Upgrade;
pub use upgrade::cost_view;
pub use upgrade::lemma_insufficient_funds_no_op;
pub use upgrade::lemma_locked_no_op;
pub use upgrade::lemma_locked_terminality;
pub use upgrade::lemma_purchase_invariant;
pub use upgrade::purchase_step;
