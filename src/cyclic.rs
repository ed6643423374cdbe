use crate::arc::ArcObserver;
use crate::arc::MaybeArc;
use crate::rc::MaybeRc;
use crate::rc::RcObserver;
use std::rc::Rc;
use std::sync::Arc;
use vstd::prelude::*;

verus! {

/// `build`, handed some observer, may return `result`.
pub open spec fn may_build_rc<F, T, E>(build: F, result: Result<T, E>) -> bool
    where
        F: FnOnce(RcObserver<T>) -> Result<T, E>,
{
    exists|w: RcObserver<T>| #[trigger] build.ensures((w,), result)
}

/// `r` is what the builder may return for `build`: an owner of a value that
/// `build` may have produced, or an error that `build` may have reported.
pub open spec fn rc_build_outcome<F, T, E>(build: F, r: Result<Rc<T>, E>) -> bool
    where
        F: FnOnce(RcObserver<T>) -> Result<T, E>,
{
    match r {
        Ok(strong) => may_build_rc(build, Ok::<T, E>(*strong)),
        Err(e) => may_build_rc(build, Err::<T, E>(e)),
    }
}

/// `build`, handed some observer, may return `result`.
pub open spec fn may_build_arc<F, T, E>(build: F, result: Result<T, E>) -> bool
    where
        F: FnOnce(ArcObserver<T>) -> Result<T, E>,
{
    exists|w: ArcObserver<T>| #[trigger] build.ensures((w,), result)
}

/// `r` is what the builder may return for `build`: an owner of a value that
/// `build` may have produced, or an error that `build` may have reported.
pub open spec fn arc_build_outcome<F, T, E>(build: F, r: Result<Arc<T>, E>) -> bool
    where
        F: FnOnce(ArcObserver<T>) -> Result<T, E>,
{
    match r {
        Ok(strong) => may_build_arc(build, Ok::<T, E>(*strong)),
        Err(e) => may_build_arc(build, Err::<T, E>(e)),
    }
}

/// Builds a value that holds observers of its own allocation, through `build`.
///
/// `build` receives an observer of the allocation the value will live in; it
/// cannot upgrade until this function has returned. When `build` fails, its
/// error is returned and nothing was stored, so the observers never upgrade.
pub fn try_new_cyclic_rc<F, T, E>(build: F) -> (r: Result<Rc<T>, E>)
    where
        F: FnOnce(RcObserver<T>) -> Result<T, E>,
    requires
        forall|w: RcObserver<T>| build.requires((w,)),
    ensures
        rc_build_outcome(build, r),
{
    let cell = MaybeRc::new();
    let observer = cell.downgrade();
    let ghost handed = observer;
    match build(observer) {
        Ok(value) => {
            let strong = cell.materialize(value);
            assert(build.ensures((handed,), Ok::<T, E>(*strong)));
            Ok(strong)
        },
        Err(e) => {
            assert(build.ensures((handed,), Err::<T, E>(e)));
            Err(e)
        },
    }
}

/// Builds a value shared across threads that holds observers of its own
/// allocation, through `build`.
///
/// `build` receives an observer of the allocation the value will live in; it
/// cannot upgrade until this function has returned. When `build` fails, its
/// error is returned and nothing was stored, so the observers never upgrade.
pub fn try_new_cyclic_arc<F, T, E>(build: F) -> (r: Result<Arc<T>, E>)
    where
        F: FnOnce(ArcObserver<T>) -> Result<T, E>,
    requires
        forall|w: ArcObserver<T>| build.requires((w,)),
    ensures
        arc_build_outcome(build, r),
{
    let cell = MaybeArc::new();
    let observer = cell.downgrade();
    let ghost handed = observer;
    match build(observer) {
        Ok(value) => {
            let strong = cell.materialize(value);
            assert(build.ensures((handed,), Ok::<T, E>(*strong)));
            Ok(strong)
        },
        Err(e) => {
            assert(build.ensures((handed,), Err::<T, E>(e)));
            Err(e)
        },
    }
}

/// A constructor that can only succeed with `v` makes the builder succeed,
/// with an owning handle to `v`.
pub proof fn lemma_rc_build_success<F, T, E>(build: F, r: Result<Rc<T>, E>, v: T)
    where
        F: FnOnce(RcObserver<T>) -> Result<T, E>,
    requires
        rc_build_outcome(build, r),
        forall|w: RcObserver<T>, res: Result<T, E>|
            #[trigger] build.ensures((w,), res) ==> res == Ok::<T, E>(v),
    ensures
        r is Ok,
        *r->Ok_0 == v,
{
}

/// A constructor that can only fail with `e` makes the builder fail with
/// exactly `e`.
pub proof fn lemma_rc_build_failure<F, T, E>(build: F, r: Result<Rc<T>, E>, e: E)
    where
        F: FnOnce(RcObserver<T>) -> Result<T, E>,
    requires
        rc_build_outcome(build, r),
        forall|w: RcObserver<T>, res: Result<T, E>|
            #[trigger] build.ensures((w,), res) ==> res == Err::<T, E>(e),
    ensures
        r == Err::<Rc<T>, E>(e),
{
}

/// A constructor that can only succeed with `v` makes the builder succeed,
/// with an owning handle to `v`.
pub proof fn lemma_arc_build_success<F, T, E>(build: F, r: Result<Arc<T>, E>, v: T)
    where
        F: FnOnce(ArcObserver<T>) -> Result<T, E>,
    requires
        arc_build_outcome(build, r),
        forall|w: ArcObserver<T>, res: Result<T, E>|
            #[trigger] build.ensures((w,), res) ==> res == Ok::<T, E>(v),
    ensures
        r is Ok,
        *r->Ok_0 == v,
{
}

/// A constructor that can only fail with `e` makes the builder fail with
/// exactly `e`.
pub proof fn lemma_arc_build_failure<F, T, E>(build: F, r: Result<Arc<T>, E>, e: E)
    where
        F: FnOnce(ArcObserver<T>) -> Result<T, E>,
    requires
        arc_build_outcome(build, r),
        forall|w: ArcObserver<T>, res: Result<T, E>|
            #[trigger] build.ensures((w,), res) ==> res == Err::<T, E>(e),
    ensures
        r == Err::<Arc<T>, E>(e),
{
}

} // verus!
