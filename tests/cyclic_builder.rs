use maybe_rc::arc::ArcObserver;
use maybe_rc::rc::RcObserver;
use maybe_rc::try_new_cyclic_arc;
use maybe_rc::try_new_cyclic_rc;
use std::cell::RefCell;
use std::rc::Rc;
use std::sync::Arc;

#[test]
fn test_ok() {
    struct Wrapper(usize, RcObserver<Wrapper>);

    let rc = try_new_cyclic_rc(|weak| {
        Ok::<Wrapper, ()>(Wrapper(42, weak.clone()))
    });

    assert!(rc.is_ok(), "must not fail");

    let rc = rc.unwrap();
    assert_eq!(rc.0, 42, "incorrect ok value");
    let back = rc.1.upgrade().expect("must be upgradable");
    assert!(Rc::ptr_eq(&back, &rc), "Weak and Rc point to a different objects");
}

#[test]
fn test_err() {
    let rc = try_new_cyclic_rc(|_weak| {
        Err::<(), usize>(42)
    });

    assert!(rc.is_err(), "must fail");
    assert_eq!(rc, Err(42), "incorrect error value");
}

#[test]
fn cyclic_rc_observer_cannot_upgrade_during_construction() {
    let rc = try_new_cyclic_rc(|weak: RcObserver<u64>| {
        if weak.upgrade().is_some() {
            return Err("upgraded too early");
        }
        Ok(5)
    });
    assert_eq!(rc.map(|v| *v), Ok(5));
}

#[test]
fn cyclic_rc_bad_day() {
    let kept: RefCell<Option<RcObserver<u64>>> = RefCell::new(None);
    let result = try_new_cyclic_rc(|weak: RcObserver<u64>| {
        *kept.borrow_mut() = Some(weak.clone());
        Err("bad day")
    });
    assert_eq!(result, Err("bad day"));
    let observer = kept.borrow_mut().take().expect("observer was kept");
    assert!(observer.upgrade().is_none());
    assert!(observer.clone().upgrade().is_none());
}

#[test]
fn cyclic_rc_failure_never_drops_a_value() {
    struct Loud;

    impl Drop for Loud {
        fn drop(&mut self) {
            panic!("must not be dropped");
        }
    }

    let result = try_new_cyclic_rc(|_weak: RcObserver<Loud>| Err::<Loud, u8>(3));
    assert!(matches!(result, Err(3)));
}

#[test]
fn cyclic_arc_success_points_back() {
    struct Node(u32, ArcObserver<Node>);

    let arc = try_new_cyclic_arc(|weak| Ok::<Node, ()>(Node(9, weak)))
        .expect("must not fail");
    assert_eq!(arc.0, 9);
    let back = arc.1.upgrade().expect("must be upgradable");
    assert!(Arc::ptr_eq(&back, &arc));
}

#[test]
fn cyclic_arc_bad_day() {
    let kept: RefCell<Option<ArcObserver<u64>>> = RefCell::new(None);
    let result = try_new_cyclic_arc(|weak: ArcObserver<u64>| {
        *kept.borrow_mut() = Some(weak);
        Err("bad day")
    });
    assert_eq!(result, Err("bad day"));
    let observer = kept.borrow_mut().take().expect("observer was kept");
    assert!(observer.upgrade().is_none());
}
