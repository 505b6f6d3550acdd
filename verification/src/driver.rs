//! The driver: a blocking poll loop that converts a task into its final
//! value on the calling thread.

use vstd::prelude::*;

use crate::task::{PollOutcome, Task, WakeNotification};

verus! {

/// Poll `task` until it is ready and return the value it resolves to.
///
/// One inert wake notification is built for the whole call and passed into
/// every poll; it is never triggered by the driver. The loop polls the task
/// once per iteration; a `Pending` outcome only means another iteration,
/// and the single `Ready` outcome ends the call, so a completed task is
/// never polled again. The call returns the task's own resolved value no
/// matter how many polls came back `Pending` first.
pub fn drive_to_completion<T: Task>(task: T) -> (v: T::Output)
    requires
        !task.completed(),
    ensures
        v == task.resolved_value(),
{
    let wake = WakeNotification::new();
    let mut t = task;
    loop
        invariant
            !t.completed(),
            t.resolved_value() == task.resolved_value(),
        decreases t.pending_polls(),
    {
        match t.poll_once(&wake) {
            PollOutcome::Ready(v) => {
                return v;
            }
            PollOutcome::Pending => {}
        }
    }
}

/// Drive each task in `tasks` to completion, one after another, and return
/// their values in the same order.
///
/// Each driving call fully completes before the next begins, and each
/// returned value is the resolved value of the task at the same position:
/// no hidden state is shared between the calls, so the tasks do not
/// influence one another's values.
pub fn drive_in_sequence<T: Task>(tasks: Vec<T>) -> (values: Vec<T::Output>)
    requires
        forall|i: int| 0 <= i < tasks@.len() ==> !(#[trigger] tasks@[i]).completed(),
    ensures
        values@.len() == tasks@.len(),
        forall|i: int| 0 <= i < tasks@.len() ==> #[trigger] values@[i] == tasks@[i].resolved_value(),
{
    let mut rest = tasks;
    let mut values: Vec<T::Output> = Vec::new();
    while rest.len() > 0
        invariant
            values@.len() + rest@.len() == tasks@.len(),
            forall|i: int| 0 <= i < rest@.len() ==> #[trigger] rest@[i] == tasks@[values@.len() + i],
            forall|i: int| 0 <= i < rest@.len() ==> !(#[trigger] rest@[i]).completed(),
            forall|i: int| 0 <= i < values@.len() ==> #[trigger] values@[i] == tasks@[i].resolved_value(),
        decreases rest@.len(),
    {
        let t = rest.remove(0);
        let v = drive_to_completion(t);
        values.push(v);
    }
    values
}

} // verus!
