//! Driving real futures to completion with `block` and the `Blocker` trait.

use blocker::{block, Blocker};

use std::future::Future;
use std::ops::Deref;
use std::pin::Pin;
use std::rc::Rc;
use std::sync::Mutex;
use std::task::{Context, Poll};

async fn num() -> i64 {
    return 10;
}

#[test]
pub fn test_block() {
    let f1 = num();
    let f2 = num();
    let f3 = num();

    assert_eq!(10, block(f2));
    assert_eq!(10, block(f1));
    assert_eq!(10, block(f3));
}

#[test]
pub fn test_block_trait() {
    let f1 = num();
    let f2 = num();
    let f3 = num();

    assert_eq!(10, f2.block());
    assert_eq!(10, f1.block());
    assert_eq!(10, f3.block());
}

async fn rc(r: Rc<i64>) -> Rc<i64> {
    return r.clone();
}

#[test]
pub fn test_rc() {
    let r = Rc::new(10);

    let f1 = rc(r.clone());

    let rcclone = r.deref();

    assert_eq!(&10, block(f1).deref());
    assert_eq!(&10, rcclone);
}

async fn rc_mutex(r: Rc<Mutex<i64>>) -> Rc<Mutex<i64>> {
    let mut guard = r.deref().lock().unwrap();
    *guard = 15;
    drop(guard);

    return r;
}

#[test]
pub fn test_rc_mutex() {
    let r = Rc::new(Mutex::new(10));

    let f1 = rc_mutex(r.clone());

    let original = r.deref();
    let blocked = block(f1);

    {
        let guard = blocked.deref().lock().unwrap();
        assert_eq!(15, *guard);
    }

    {
        let guard = original.deref().lock().unwrap();
        assert_eq!(15, *guard);
    }
}

/// A self-polling future that reports `Pending` a few times before
/// resolving, to check that `block` keeps re-polling until `Ready`.
struct SlowDouble {
    input: i64,
    polls_left: u32,
}

impl Future for SlowDouble {
    type Output = i64;

    fn poll(self: Pin<&mut Self>, _cx: &mut Context<'_>) -> Poll<i64> {
        let this = self.get_mut();
        if this.polls_left == 0 {
            Poll::Ready(this.input * 2)
        } else {
            this.polls_left -= 1;
            Poll::Pending
        }
    }
}

#[test]
fn block_repolls_a_pending_future() {
    let f = SlowDouble { input: 21, polls_left: 4 };
    assert_eq!(42, block(f));
}

#[test]
fn block_trait_matches_block() {
    let a = SlowDouble { input: 5, polls_left: 1 };
    let b = SlowDouble { input: 5, polls_left: 1 };
    assert_eq!(block(a), b.block());
}
