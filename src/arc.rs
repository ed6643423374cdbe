use std::sync::OnceLock;
use std::sync::Arc;
use std::sync::Weak;
use vstd::prelude::*;

verus! {

/// Declares std's `OnceLock` to the verifier; what it holds stays opaque.
#[verifier::external_type_specification]
#[verifier::external_body]
#[verifier::reject_recursive_types(T)]
pub struct ExOnceLock<T>(OnceLock<T>);

/// Relies on `OnceLock::new`: a cell that holds nothing yet.
pub assume_specification<T>[ OnceLock::<T>::new ]() -> OnceLock<T>;

/// Relies on `OnceLock::get`: what the cell holds, if it was set.
pub assume_specification<T>[ OnceLock::<T>::get ](cell: &OnceLock<T>) -> Option<&T>;

/// Relies on `OnceLock::set`: fills the cell if it was empty, else hands the value back.
pub assume_specification<T>[ OnceLock::<T>::set ](cell: &OnceLock<T>, value: T) -> Result<(), T>;

/// A non-owning link to an `Arc` allocation, held as std's `Weak`.
///
/// std's `Weak` carries an allocator parameter, so it cannot be declared to
/// the verifier directly; it is kept in this opaque struct instead.
#[verifier::external_body]
#[verifier::reject_recursive_types(T)]
pub struct WeakLink<T> {
    weak: Weak<T>,
}

/// Relies on `Arc::downgrade`: a weak link to the allocation of `strong`.
#[verifier::external_body]
fn weak_link_to<T>(strong: &Arc<T>) -> WeakLink<T> {
    WeakLink { weak: Arc::downgrade(strong) }
}

/// Relies on `Weak::upgrade`: an owning handle while the allocation has owners.
#[verifier::external_body]
fn upgrade_link<T>(link: &WeakLink<T>) -> Option<Arc<T>> {
    link.weak.upgrade()
}

/// Relies on `Arc::clone`: a second handle to the same allocation. The verifier
/// models an `Arc` by what it points at, so the clone equals the original. Two
/// distinct slots are not thereby known to differ: equality here says only that
/// the handles cannot be told apart.
#[verifier::external_body]
fn share_slot<T>(slot: &Arc<OnceLock<WeakLink<T>>>) -> (r: Arc<OnceLock<WeakLink<T>>>)
    ensures
        r == *slot,
{
    Arc::clone(slot)
}

/// An allocation that observers can point at before the value it will hold exists.
///
/// The cell and its observers share a slot that starts empty. Materializing
/// moves the value into an `Arc` and records a weak link to it in the slot, so
/// an observer upgrades exactly while the value has an owner. A cell dropped
/// without being materialized leaves the slot empty for good: no value was
/// ever written, so none is dropped, and no observer ever upgrades.
///
/// `OnceLock` publishes the link only once it is complete, so an observer on
/// another thread finds the slot either empty or holding a link to the whole value.
#[verifier::reject_recursive_types(T)]
pub struct MaybeArc<T> {
    slot: Arc<OnceLock<WeakLink<T>>>,
}

/// A non-owning handle to the allocation of a [`MaybeArc`].
#[verifier::reject_recursive_types(T)]
pub struct ArcObserver<T> {
    slot: Arc<OnceLock<WeakLink<T>>>,
}

impl<T> MaybeArc<T> {
    /// The shared slot this cell's observers point at. Equal slots mean that two
    /// handles cannot be told apart; nothing here proves two cells distinct.
    pub closed spec fn allocation(&self) -> OnceLock<WeakLink<T>> {
        *self.slot
    }

    /// Creates an empty cell: no value, no owner, no observer yet.
    pub fn new() -> (r: Self)
    {
        MaybeArc { slot: Arc::new(OnceLock::new()) }
    }

    /// Creates an observer of this allocation.
    pub fn downgrade(&self) -> (r: ArcObserver<T>)
        ensures
            r.allocation() == self.allocation(),
    {
        ArcObserver { slot: share_slot(&self.slot) }
    }

    /// Stores `value` and returns the first owning handle to it.
    pub fn materialize(self, value: T) -> (r: Arc<T>)
        ensures
            *r == value,
    {
        let strong = Arc::new(value);
        // Only this method fills the slot, and it consumes the cell, so the
        // slot is still empty here and the link is always stored.
        let _ = self.slot.set(weak_link_to(&strong));
        strong
    }
}

impl<T> ArcObserver<T> {
    /// The shared slot this observer points at, as in [`MaybeArc::allocation`].
    pub closed spec fn allocation(&self) -> OnceLock<WeakLink<T>> {
        *self.slot
    }

    /// An owning handle to the value, once the cell was materialized and while
    /// an owner of the value remains; `None` otherwise.
    pub fn upgrade(&self) -> (r: Option<Arc<T>>)
    {
        match self.slot.get() {
            Some(link) => upgrade_link(link),
            None => None,
        }
    }
}

impl<T> Clone for ArcObserver<T> {
    fn clone(&self) -> (r: Self)
        ensures
            r.allocation() == self.allocation(),
    {
        ArcObserver { slot: share_slot(&self.slot) }
    }
}

impl<T> Default for MaybeArc<T> {
    fn default() -> (r: Self) {
        Self::new()
    }
}

} // verus!
