//! Shared allocations that hand out weak observers before their value exists.
//!
//! [`MaybeRc`] and [`MaybeArc`] start empty, give out observers at once, and
//! are later materialized with the value; only then do the observers upgrade
//! to owning handles. [`try_new_cyclic_rc`] and [`try_new_cyclic_arc`] wrap this
//! for a constructor that needs observers of the value it builds and may fail.

pub mod arc;
pub mod cyclic;
pub mod rc;

pub use arc::ArcObserver;
pub use arc::MaybeArc;
pub use cyclic::try_new_cyclic_arc;
pub use cyclic::try_new_cyclic_rc;
pub use rc::MaybeRc;
pub use rc::RcObserver;
