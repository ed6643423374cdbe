use std::cell::OnceCell;
use std::rc::Rc;
use std::rc::Weak;
use vstd::prelude::*;

verus! {

/// Declares std's `OnceCell` to the verifier; what it holds stays opaque.
#[verifier::external_type_specification]
#[verifier::external_body]
#[verifier::reject_recursive_types(T)]
pub struct ExOnceCell<T>(OnceCell<T>);

/// Relies on `OnceCell::new`: a cell that holds nothing yet.
pub assume_specification<T>[ OnceCell::<T>::new ]() -> OnceCell<T>;

/// Relies on `OnceCell::get`: what the cell holds, if it was set.
pub assume_specification<T>[ OnceCell::<T>::get ](cell: &OnceCell<T>) -> Option<&T>;

/// Relies on `OnceCell::set`: fills the cell if it was empty, else hands the value back.
pub assume_specification<T>[ OnceCell::<T>::set ](cell: &OnceCell<T>, value: T) -> Result<(), T>;

/// A non-owning link to an `Rc` allocation, held as std's `Weak`.
///
/// std's `Weak` carries an allocator parameter, so it cannot be declared to
/// the verifier directly; it is kept in this opaque struct instead.
#[verifier::external_body]
#[verifier::reject_recursive_types(T)]
pub struct WeakLink<T> {
    weak: Weak<T>,
}

/// Relies on `Rc::downgrade`: a weak link to the allocation of `strong`.
#[verifier::external_body]
fn weak_link_to<T>(strong: &Rc<T>) -> WeakLink<T> {
    WeakLink { weak: Rc::downgrade(strong) }
}

/// Relies on `Weak::upgrade`: an owning handle while the allocation has owners.
#[verifier::external_body]
fn upgrade_link<T>(link: &WeakLink<T>) -> Option<Rc<T>> {
    link.weak.upgrade()
}

/// Relies on `Rc::clone`: a second handle to the same allocation. The verifier
/// models an `Rc` by what it points at, so the clone equals the original. Two
/// distinct slots are not thereby known to differ: equality here says only that
/// the handles cannot be told apart.
#[verifier::external_body]
fn share_slot<T>(slot: &Rc<OnceCell<WeakLink<T>>>) -> (r: Rc<OnceCell<WeakLink<T>>>)
    ensures
        r == *slot,
{
    Rc::clone(slot)
}

/// An allocation that observers can point at before the value it will hold exists.
///
/// The cell and its observers share a slot that starts empty. Materializing
/// moves the value into an `Rc` and records a weak link to it in the slot, so
/// an observer upgrades exactly while the value has an owner. A cell dropped
/// without being materialized leaves the slot empty for good: no value was
/// ever written, so none is dropped, and no observer ever upgrades.
#[verifier::reject_recursive_types(T)]
pub struct MaybeRc<T> {
    slot: Rc<OnceCell<WeakLink<T>>>,
}

/// A non-owning handle to the allocation of a [`MaybeRc`].
#[verifier::reject_recursive_types(T)]
pub struct RcObserver<T> {
    slot: Rc<OnceCell<WeakLink<T>>>,
}

impl<T> MaybeRc<T> {
    /// The shared slot this cell's observers point at. Equal slots mean that two
    /// handles cannot be told apart; nothing here proves two cells distinct.
    pub closed spec fn allocation(&self) -> OnceCell<WeakLink<T>> {
        *self.slot
    }

    /// Creates an empty cell: no value, no owner, no observer yet.
    pub fn new() -> (r: Self)
    {
        MaybeRc { slot: Rc::new(OnceCell::new()) }
    }

    /// Creates an observer of this allocation.
    pub fn downgrade(&self) -> (r: RcObserver<T>)
        ensures
            r.allocation() == self.allocation(),
    {
        RcObserver { slot: share_slot(&self.slot) }
    }

    /// Stores `value` and returns the first owning handle to it.
    pub fn materialize(self, value: T) -> (r: Rc<T>)
        ensures
            *r == value,
    {
        let strong = Rc::new(value);
        // Only this method fills the slot, and it consumes the cell, so the
        // slot is still empty here and the link is always stored.
        let _ = self.slot.set(weak_link_to(&strong));
        strong
    }
}

impl<T> RcObserver<T> {
    /// The shared slot this observer points at, as in [`MaybeRc::allocation`].
    pub closed spec fn allocation(&self) -> OnceCell<WeakLink<T>> {
        *self.slot
    }

    /// An owning handle to the value, once the cell was materialized and while
    /// an owner of the value remains; `None` otherwise.
    pub fn upgrade(&self) -> (r: Option<Rc<T>>)
    {
        match self.slot.get() {
            Some(link) => upgrade_link(link),
            None => None,
        }
    }
}

impl<T> Clone for RcObserver<T> {
    fn clone(&self) -> (r: Self)
        ensures
            r.allocation() == self.allocation(),
    {
        RcObserver { slot: share_slot(&self.slot) }
    }
}

impl<T> Default for MaybeRc<T> {
    fn default() -> (r: Self) {
        Self::new()
    }
}

} // verus!
