//! The task model: a self-polling computation that, when polled, either
//! produces its final value or reports that it is not yet ready.

use vstd::prelude::*;

verus! {

/// The outcome of a single poll: either the task's final value, or a signal
/// that the task is not yet ready and must be polled again.
pub enum PollOutcome<T> {
    Ready(T),
    Pending,
}

/// The inert wake notification: polling requires a notification channel,
/// and the driver satisfies that requirement with an object a task may
/// invoke but that does nothing when invoked. It carries no information and
/// cannot tell anyone that a task has become ready again, which is why only
/// self-polling tasks make progress under the driver.
pub struct WakeNotification {}

impl WakeNotification {
    /// Build a wake notification; the driver builds one per driving call.
    pub fn new() -> (w: WakeNotification) {
        WakeNotification {}
    }

    /// Request a re-poll. A deliberate no-op: the driver re-polls anyway,
    /// so the request changes nothing and reaches no one.
    pub fn notify(&self) {
    }
}

/// A computation that may need to be polled multiple times before producing
/// a final value.
///
/// The model is the self-polling task: each poll re-checks readiness
/// synchronously, so the number of polls that will come back `Pending`
/// before the value is produced is a property of the task itself
/// (`pending_polls`), as is the value it resolves to (`resolved_value`).
/// Once a task has handed out `Ready`, it is completed and must never be
/// polled again.
pub trait Task: Sized {
    type Output;

    /// Whether the task has already yielded `Ready`. Polling a completed
    /// task is forbidden.
    spec fn completed(&self) -> bool;

    /// How many further polls come back `Pending` before the task resolves.
    spec fn pending_polls(&self) -> nat;

    /// The value the task resolves to.
    spec fn resolved_value(&self) -> Self::Output;

    /// A single attempt to advance the task. The wake notification is the
    /// structurally required notification channel; it is inert, so the
    /// outcome depends on the task alone.
    fn poll_once(&mut self, wake: &WakeNotification) -> (r: PollOutcome<Self::Output>)
        requires
            !old(self).completed(),
        ensures
            old(self).pending_polls() == 0 ==> {
                &&& r == PollOutcome::Ready(old(self).resolved_value())
                &&& final(self).completed()
            },
            old(self).pending_polls() > 0 ==> {
                &&& r == PollOutcome::<Self::Output>::Pending
                &&& !final(self).completed()
                &&& final(self).pending_polls() == old(self).pending_polls() - 1
                &&& final(self).resolved_value() == old(self).resolved_value()
            },
    ;
}

/// A self-polling task that reports `Pending` a fixed number of times and
/// then resolves to a fixed value.
pub struct CountdownTask<V> {
    remaining: u64,
    value: V,
    done: bool,
}

impl<V: Copy> CountdownTask<V> {
    /// Build a task that will come back `Pending` exactly `pending` times
    /// before resolving to `value`.
    pub fn new(pending: u64, value: V) -> (t: Self)
        ensures
            !t.completed(),
            t.pending_polls() == pending as nat,
            t.resolved_value() == value,
    {
        CountdownTask { remaining: pending, value, done: false }
    }
}

impl<V: Copy> Task for CountdownTask<V> {
    type Output = V;

    closed spec fn completed(&self) -> bool {
        self.done
    }

    closed spec fn pending_polls(&self) -> nat {
        self.remaining as nat
    }

    closed spec fn resolved_value(&self) -> V {
        self.value
    }

    fn poll_once(&mut self, _wake: &WakeNotification) -> (r: PollOutcome<V>) {
        if self.remaining == 0 {
            self.done = true;
            PollOutcome::Ready(self.value)
        } else {
            self.remaining = self.remaining - 1;
            PollOutcome::Pending
        }
    }
}

} // verus!
