//! Blocker drives a single asynchronous computation to completion on the
//! calling thread, with no scheduler, reactor, or runtime: it just polls the
//! task in a loop until the task is ready, using an inert wake notification.
//! Only self-polling tasks make progress under it; a task that waits for a
//! real external wake-up spins forever.

pub mod driver;
pub mod task;

use vstd::prelude::*;

use core::future::Future;

verus! {

/// Any value that can be driven to completion in place: calling
/// [`Blocker::block`] on it halts the program until it completes and hands
/// back its value.
pub trait Blocker {
    type Output;

    fn block(self) -> Self::Output;
}

/// Drive `future` to completion on the calling thread and return its output.
///
/// Relies on `futures::task::noop_waker` for the inert wake notification
/// (its `wake` does nothing) and on `core::future::Future::poll` through a
/// pinned, heap-owned handle. The body is the poll loop of
/// [`driver::drive_to_completion`] restated over real futures, whose poll
/// goes through a trait outside this crate; nothing can be promised of the
/// output of an opaque future. Only a self-polling future makes progress
/// here: one that waits for a real wake-up spins forever.
#[verifier::external_body]
pub fn block<T>(future: impl Future<Output = T>) -> T {
    let waker = futures::task::noop_waker();
    let mut ctx = core::task::Context::from_waker(&waker);
    let mut pinned = Box::pin(future);
    loop {
        match pinned.as_mut().poll(&mut ctx) {
            core::task::Poll::Ready(value) => return value,
            core::task::Poll::Pending => {}
        }
    }
}

impl<T: Future> Blocker for T {
    type Output = T::Output;

    fn block(self) -> Self::Output {
        block(self)
    }
}

} // verus!
