use cells::{RefCell, RefState};

#[test]
fn write_then_share() {
    let mut c = RefCell::new(0);
    assert_eq!(c.state(), RefState::Unshared);
    let m = c.borrow_mut().expect("exclusive view on a fresh cell");
    assert_eq!(c.state(), RefState::Exclusive);
    *m.deref_mut(&mut c) = 5;
    assert_eq!(*m.deref(&c), 5);
    m.release(&mut c);
    assert_eq!(c.state(), RefState::Unshared);

    let a = c.borrow().expect("shared view after release");
    assert_eq!(*a.deref(&c), 5);
    let b = c.borrow().expect("second shared view");
    assert_eq!(c.state(), RefState::Shared(2));
    assert_eq!(*b.deref(&c), 5);
    assert!(c.borrow_mut().is_none());
    assert_eq!(c.state(), RefState::Shared(2));
    a.release(&mut c);
    assert!(c.borrow_mut().is_none());
    b.release(&mut c);
    assert_eq!(c.state(), RefState::Unshared);
}

#[test]
fn interleaved_borrows_release_in_order() {
    let mut c = RefCell::new(String::from("v"));
    let a = c.borrow().unwrap();
    assert_eq!(c.state(), RefState::Shared(1));
    let b = c.borrow().unwrap();
    assert_eq!(c.state(), RefState::Shared(2));
    a.release(&mut c);
    assert_eq!(c.state(), RefState::Shared(1));
    b.release(&mut c);
    assert_eq!(c.state(), RefState::Unshared);
}

#[test]
fn interleaved_borrows_release_reversed() {
    let mut c = RefCell::new(1u8);
    let a = c.borrow().unwrap();
    assert_eq!(c.state(), RefState::Shared(1));
    let b = c.borrow().unwrap();
    assert_eq!(c.state(), RefState::Shared(2));
    b.release(&mut c);
    assert_eq!(c.state(), RefState::Shared(1));
    a.release(&mut c);
    assert_eq!(c.state(), RefState::Unshared);
}

#[test]
fn exclusive_denies_every_request() {
    let mut c = RefCell::new(vec![1, 2, 3]);
    let m = c.borrow_mut().unwrap();
    assert!(c.borrow().is_none());
    assert!(c.borrow_mut().is_none());
    assert_eq!(c.state(), RefState::Exclusive);
    m.deref_mut(&mut c).push(4);
    m.release(&mut c);
    assert_eq!(c.state(), RefState::Unshared);
    let r = c.borrow().unwrap();
    assert_eq!(r.deref(&c), &vec![1, 2, 3, 4]);
    r.release(&mut c);
}

#[test]
fn exclusive_after_shared_released() {
    let mut c = RefCell::new(0i32);
    let r = c.borrow().unwrap();
    assert!(c.borrow_mut().is_none());
    r.release(&mut c);
    let m = c.borrow_mut().unwrap();
    *m.deref_mut(&mut c) -= 3;
    m.release(&mut c);
    let r = c.borrow().unwrap();
    assert_eq!(*r.deref(&c), -3);
    r.release(&mut c);
    assert_eq!(c.state(), RefState::Unshared);
}

#[test]
fn many_shared_views() {
    let mut c = RefCell::new(());
    let mut views = Vec::new();
    for i in 1..=100usize {
        views.push(c.borrow().unwrap());
        assert_eq!(c.state(), RefState::Shared(i));
    }
    while let Some(v) = views.pop() {
        v.release(&mut c);
    }
    assert_eq!(c.state(), RefState::Unshared);
}
