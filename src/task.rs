//! The task queue: an unbounded FIFO channel of tasks, and the decisions of
//! the run loop that drains it one task at a time.

use tokio::sync::mpsc;
use vstd::prelude::*;

verus! {

#[verifier::external_type_specification]
#[verifier::external_body]
#[verifier::reject_recursive_types(T)]
pub struct ExUnboundedSender<T>(mpsc::UnboundedSender<T>);

#[verifier::external_type_specification]
#[verifier::external_body]
#[verifier::reject_recursive_types(T)]
pub struct ExUnboundedReceiver<T>(mpsc::UnboundedReceiver<T>);

/// Relies on tokio::sync::mpsc::unbounded_channel: the two halves of a new,
/// empty, unbounded FIFO channel.
#[verifier::external_body]
pub(crate) fn open_channel<T>() -> (mpsc::UnboundedSender<T>, mpsc::UnboundedReceiver<T>) {
    mpsc::unbounded_channel()
}

/// Relies on tokio::sync::mpsc::UnboundedSender::send: appends `message`
/// without waiting; when the receiving half is gone the message is handed
/// back in an error, which is dropped.
#[verifier::external_body]
pub(crate) fn post<T>(sender: &mpsc::UnboundedSender<T>, message: T) {
    let _ = sender.send(message);
}

/// Relies on the Clone impl of tokio::sync::mpsc::UnboundedSender: another
/// handle on the same channel.
#[verifier::external_body]
pub(crate) fn another_sender<T>(sender: &mpsc::UnboundedSender<T>) -> mpsc::UnboundedSender<T> {
    sender.clone()
}

/// The submission side of the task queue. Submitting never blocks, and may
/// happen from any context.
#[verifier::reject_recursive_types(T)]
pub struct TaskSender<T> {
    sender: mpsc::UnboundedSender<T>,
}

impl<T> TaskSender<T> {
    /// Queues `task` behind every task submitted before it.
    pub fn send(&self, task: T) {
        post(&self.sender, task)
    }
}

/// The task queue of one engine instance: its submission side and its
/// receiving side, which the run loop takes out once and drains.
#[verifier::reject_recursive_types(T)]
pub struct EventLoop<T> {
    pub sender: mpsc::UnboundedSender<T>,
    pub receiver: Option<mpsc::UnboundedReceiver<T>>,
}

impl<T> EventLoop<T> {
    pub fn new() -> (r: EventLoop<T>)
        ensures
            r.receiver.is_some(),
    {
        let (sender, receiver) = open_channel();
        EventLoop { sender, receiver: Some(receiver) }
    }

    /// Hands the receiving side to the one consumer that asks first; later
    /// requests get `None`.
    pub fn take_receiver(&mut self) -> (r: Option<mpsc::UnboundedReceiver<T>>)
        ensures
            r == old(self).receiver,
            final(self).receiver.is_none(),
    {
        self.receiver.take()
    }

    /// A new submission handle on this queue.
    pub fn queue(&self) -> (r: TaskSender<T>) {
        TaskSender { sender: another_sender(&self.sender) }
    }
}

/// How one executed task ended: whether `execute` failed, and what `stop`
/// answered after it.
pub ghost struct TaskOutcome {
    pub failed: bool,
    pub stop: bool,
}

/// What the run loop does after a task: take the next one, end normally, or
/// end with the task's error.
#[derive(Clone, Copy, Debug, PartialEq, Eq, Structural)]
pub enum RunControl {
    Continue,
    Finish,
    Fail,
}

/// A failure ends the loop at once with the error; otherwise a task that asks
/// to stop ends it normally; any other task lets the loop go on.
pub open spec fn control_of(failed: bool, stop: bool) -> RunControl {
    if failed {
        RunControl::Fail
    } else if stop {
        RunControl::Finish
    } else {
        RunControl::Continue
    }
}

/// The run loop's decision after executing one task and flushing the engine's
/// job queue.
pub fn run_step(failed: bool, stop: bool) -> (r: RunControl)
    ensures
        r == control_of(failed, stop),
{
    if failed {
        RunControl::Fail
    } else if stop {
        RunControl::Finish
    } else {
        RunControl::Continue
    }
}

/// The positions, in submission order, of the tasks that the run loop
/// executes, one after the other, when the queue delivers tasks whose
/// outcomes are `outcomes`.
pub open spec fn run_trace(outcomes: Seq<TaskOutcome>) -> Seq<int>
    decreases outcomes.len(),
{
    if outcomes.len() == 0 {
        Seq::empty()
    } else if control_of(outcomes[0].failed, outcomes[0].stop) == RunControl::Continue {
        seq![0int].add(run_trace(outcomes.drop_first()).map_values(|i: int| i + 1))
    } else {
        seq![0int]
    }
}

/// Whether the task at `k` is the first to end the loop.
pub open spec fn first_exit(outcomes: Seq<TaskOutcome>, k: int) -> bool {
    &&& 0 <= k < outcomes.len()
    &&& control_of(outcomes[k].failed, outcomes[k].stop) != RunControl::Continue
    &&& forall|j: int|
        0 <= j < k ==> control_of(outcomes[j].failed, outcomes[j].stop) == RunControl::Continue
}

/// The run loop executes the tasks in the order they were submitted, each
/// once and one at a time, up to and including the first that stops or fails
/// and none after it; when none does, it executes them all.
pub proof fn lemma_run_in_order(outcomes: Seq<TaskOutcome>, k: int)
    requires
        first_exit(outcomes, k) || (k == outcomes.len() && forall|j: int|
            0 <= j < outcomes.len() ==> control_of(outcomes[j].failed, outcomes[j].stop)
                == RunControl::Continue),
    ensures
        k < outcomes.len() ==> run_trace(outcomes) == Seq::new((k + 1) as nat, |i: int| i),
        k == outcomes.len() ==> run_trace(outcomes) == Seq::new(k as nat, |i: int| i),
    decreases outcomes.len(),
{
    if outcomes.len() == 0 {
        assert(run_trace(outcomes) =~= Seq::new(0, |i: int| i));
    } else if k == 0 {
        assert(run_trace(outcomes) =~= Seq::new(1, |i: int| i));
    } else {
        let tail = outcomes.drop_first();
        assert forall|j: int| 0 <= j < k - 1 implies control_of(tail[j].failed, tail[j].stop)
            == RunControl::Continue by {
            assert(tail[j] == outcomes[j + 1]);
        }
        if k < outcomes.len() {
            assert(tail[k - 1] == outcomes[k]);
            lemma_run_in_order(tail, k - 1);
            assert(control_of(outcomes[0].failed, outcomes[0].stop) == RunControl::Continue);
            assert(run_trace(outcomes) =~= Seq::new((k + 1) as nat, |i: int| i));
        } else {
            lemma_run_in_order(tail, k - 1);
            assert(control_of(outcomes[0].failed, outcomes[0].stop) == RunControl::Continue);
            assert(run_trace(outcomes) =~= Seq::new(k as nat, |i: int| i));
        }
    }
}

} // verus!
