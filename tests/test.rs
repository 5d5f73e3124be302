use std::{
    future::{pending, Future},
    pin::Pin,
    task::{Context, Waker},
};

use assert_unmoved::AssertUnmoved;

#[test]
fn do_not_panic_when_not_polled() {
    // This shouldn't panic.
    let future = AssertUnmoved::new(pending::<()>());
    assert_eq!(future.check_drop(false), Ok(()));
    drop(future);
}

#[test]
#[should_panic(expected = "AssertUnmoved moved between get_pin_mut calls")]
fn do_not_double_panic() {
    let mut cx = Context::from_waker(Waker::noop());

    // First we poll the future where it lies on the stack.
    let mut future = AssertUnmoved::new(pending::<()>());
    let inner = future.get_pin_mut().unwrap();
    assert!(Pin::new(inner).poll(&mut cx).is_pending());

    // Next we move it to the heap and poll it again. This second access reports
    // the move; dropping the guard while that panic unwinds must not panic again.
    let mut future = Box::new(future);
    match future.get_pin_mut() {
        Ok(inner) => assert!(Pin::new(inner).poll(&mut cx).is_pending()),
        Err(moved) => {
            assert_eq!(future.check_drop(true), Ok(()));
            panic!("{}", moved.message());
        }
    }
}

struct Test<T>(Option<AssertUnmoved<T>>);

impl<T> Drop for Test<T> {
    fn drop(&mut self) {
        // This moves the guard out of `self` before it is dropped.
        if let Some(guard) = self.0.take() {
            if let Err(moved) = guard.check_drop(false) {
                panic!("{}", moved.message());
            }
        }
    }
}

#[test]
#[should_panic(expected = "AssertUnmoved moved before drop")]
fn moved_before_drop() {
    let mut x = Test(Some(AssertUnmoved::new(pending::<()>())));
    let _ = x.0.as_mut().unwrap().get_pin_mut().unwrap();
}

#[test]
#[should_panic(expected = "AssertUnmoved moved after get_pin_mut call")]
fn misuse_get_mut() {
    let mut cx = Context::from_waker(Waker::noop());

    let mut future = AssertUnmoved::new(pending::<()>());
    let inner = future.get_pin_mut().unwrap();
    assert!(Pin::new(inner).poll(&mut cx).is_pending());

    let mut future = Box::new(future);
    if let Err(moved) = future.get_mut() {
        panic!("{}", moved.message());
    }
}
