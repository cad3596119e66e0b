//! Timers: a registry of live timers keyed by a monotonic id, each backed by
//! a cancellation signal, and the decisions of the wait loop that turns a
//! delay into a firing task.

use std::collections::HashMap;
use tokio::sync::watch;
use vstd::prelude::*;

verus! {

broadcast use vstd::std_specs::hash::group_hash_axioms;

#[verifier::external_type_specification]
#[verifier::external_body]
#[verifier::reject_recursive_types(T)]
pub struct ExWatchSender<T>(watch::Sender<T>);

#[verifier::external_type_specification]
#[verifier::external_body]
#[verifier::reject_recursive_types(T)]
pub struct ExWatchReceiver<T>(watch::Receiver<T>);

/// Relies on tokio::sync::watch::channel: a fresh cancellation signal whose
/// watched value starts as `false` (not cancelled).
#[verifier::external_body]
fn cancel_signal() -> (watch::Sender<bool>, watch::Receiver<bool>) {
    watch::channel(false)
}

/// Relies on tokio::sync::watch::Sender::send: stores `true` and wakes every
/// receiver; when no receiver is left there is nobody to tell, and the error
/// is dropped.
#[verifier::external_body]
fn raise(signal: &watch::Sender<bool>) {
    let _ = signal.send(true);
}

/// The abstract state of a timer registry: how many ids were issued so far,
/// and which of them are still live.
pub ghost struct TimerState {
    pub issued: nat,
    pub live: Set<usize>,
}

impl TimerState {
    /// Every live id was issued: it lies in `1..=issued`.
    pub open spec fn wf(self) -> bool {
        forall|id: usize| #[trigger] self.live.contains(id) ==> 1 <= id && id <= self.issued
    }

    /// The id that the next registration hands out.
    pub open spec fn next_id(self) -> nat {
        self.issued + 1
    }

    /// The state after one registration.
    pub open spec fn created(self) -> TimerState {
        TimerState { issued: self.issued + 1, live: self.live.insert((self.issued + 1) as usize) }
    }

    /// The state after cancelling `id`; an unknown id changes nothing.
    pub open spec fn cancelled(self, id: usize) -> TimerState {
        TimerState { issued: self.issued, live: self.live.remove(id) }
    }

    /// The state after teardown: nothing is live, no id is forgotten.
    pub open spec fn cleared(self) -> TimerState {
        TimerState { issued: self.issued, live: Set::empty() }
    }
}

/// The live timers of one engine instance.
pub struct TimerStorage {
    index: usize,
    store: HashMap<usize, watch::Sender<bool>>,
}

impl View for TimerStorage {
    type V = TimerState;

    closed spec fn view(&self) -> TimerState {
        TimerState { issued: self.index as nat, live: self.store@.dom() }
    }
}

impl TimerStorage {
    pub closed spec fn wf(&self) -> bool {
        self@.wf()
    }

    /// An empty registry: the first id it issues is 1.
    pub fn new() -> (r: TimerStorage)
        ensures
            r.wf(),
            r@.issued == 0,
            r@.live == Set::<usize>::empty(),
    {
        TimerStorage { index: 0, store: HashMap::new() }
    }

    /// Whether another id can still be issued.
    pub fn can_create(&self) -> (r: bool)
        ensures
            r == (self@.issued < usize::MAX),
    {
        self.index < usize::MAX
    }

    /// Registers a timer: issues the next id, stores its cancellation signal
    /// and returns the id with the signal's receiving end.
    pub fn create(&mut self) -> (r: (usize, watch::Receiver<bool>))
        requires
            old(self).wf(),
            old(self)@.issued < usize::MAX,
        ensures
            final(self).wf(),
            final(self)@ == old(self)@.created(),
            r.0 as nat == old(self)@.next_id(),
            !old(self)@.live.contains(r.0),
    {
        self.index = self.index + 1;
        let (tx, rx) = cancel_signal();
        self.store.insert(self.index, tx);
        proof {
            assert forall|id: usize| #[trigger] self@.live.contains(id) implies 1 <= id
                && id <= self@.issued by {
                if id != self.index {
                    assert(old(self)@.live.contains(id));
                }
            }
        }
        (self.index, rx)
    }

    /// Cancels a timer: forgets its id and raises its signal. An unknown or
    /// already cancelled id is a silent no-op.
    pub fn cancel(&mut self, id: &usize)
        requires
            old(self).wf(),
        ensures
            final(self).wf(),
            final(self)@ == old(self)@.cancelled(*id),
    {
        let removed = self.store.remove(id);
        match removed {
            Some(signal) => raise(&signal),
            None => {},
        }
        proof {
            assert(self@.live =~= old(self)@.live.remove(*id));
        }
    }

    /// Whether `id` names a live timer.
    pub fn contains(&self, id: usize) -> (r: bool)
        ensures
            r == self@.live.contains(id),
    {
        self.store.contains_key(&id)
    }

    /// Teardown: cancels every live timer, raising each signal, so that no
    /// wait loop outlives the registry.
    pub fn cancel_all(&mut self)
        requires
            old(self).wf(),
        ensures
            final(self).wf(),
            final(self)@ == old(self)@.cleared(),
    {
        let mut i: usize = 0;
        while i < self.index
            invariant
                self.wf(),
                self@.issued == old(self)@.issued,
                i <= self.index,
                forall|id: usize| #[trigger] self@.live.contains(id) ==> i < id,
            decreases self.index - i,
        {
            i = i + 1;
            self.cancel(&i);
        }
        proof {
            assert(self@.live =~= Set::<usize>::empty());
        }
    }
}

/// The host functions that the timer extension installs.
#[derive(Clone, Copy, Debug, PartialEq, Eq, Structural)]
pub enum TimerFunction {
    SetTimeout,
    SetInterval,
    ClearTimer,
}

/// The timer extension: a fresh registry, and the script-visible names to
/// bind, each with the host function it stands for.
pub fn install() -> (r: (TimerStorage, Vec<(&'static str, TimerFunction)>))
    ensures
        r.0.wf(),
        r.0@.issued == 0,
        r.0@.live == Set::<usize>::empty(),
        r.1@.len() == 4,
        r.1@[0].0@ == "setTimeout"@ && r.1@[0].1 == TimerFunction::SetTimeout,
        r.1@[1].0@ == "setInterval"@ && r.1@[1].1 == TimerFunction::SetInterval,
        r.1@[2].0@ == "clearTimeout"@ && r.1@[2].1 == TimerFunction::ClearTimer,
        r.1@[3].0@ == "clearInterval"@ && r.1@[3].1 == TimerFunction::ClearTimer,
{
    let storage = TimerStorage::new();
    let mut names: Vec<(&'static str, TimerFunction)> = Vec::new();
    names.push(("setTimeout", TimerFunction::SetTimeout));
    names.push(("setInterval", TimerFunction::SetInterval));
    names.push(("clearTimeout", TimerFunction::ClearTimer));
    names.push(("clearInterval", TimerFunction::ClearTimer));
    (storage, names)
}

/// A registered timer, waiting to be scheduled: its id, whether it repeats,
/// the callback to run, its delay, and its cancellation signal.
pub struct SetTimerTask<C> {
    pub id: usize,
    pub repeat: bool,
    pub callback: C,
    pub milliseconds: usize,
    pub cancel: watch::Receiver<bool>,
}

impl<C> SetTimerTask<C> {
    /// Registers a timer in `storage` for `callback`, to wait `milliseconds`
    /// (taken bit for bit as an unsigned delay) once, or over and over where
    /// `repeat` holds.
    pub fn build(storage: &mut TimerStorage, callback: C, milliseconds: i32, repeat: bool) -> (r:
        SetTimerTask<C>)
        requires
            old(storage).wf(),
            old(storage)@.issued < usize::MAX,
        ensures
            final(storage).wf(),
            final(storage)@ == old(storage)@.created(),
            r.id as nat == old(storage)@.next_id(),
            r.repeat == repeat,
            r.callback == callback,
            r.milliseconds == milliseconds as usize,
    {
        let (id, cancel) = storage.create();
        SetTimerTask { id, repeat, callback, milliseconds: milliseconds as usize, cancel }
    }
}

/// `setTimeout`: registers a one-shot timer.
pub fn set_timeout_callback<C>(storage: &mut TimerStorage, callback: C, milliseconds: i32) -> (r:
    SetTimerTask<C>)
    requires
        old(storage).wf(),
        old(storage)@.issued < usize::MAX,
    ensures
        final(storage).wf(),
        final(storage)@ == old(storage)@.created(),
        r.id as nat == old(storage)@.next_id(),
        !r.repeat,
        r.callback == callback,
        r.milliseconds == milliseconds as usize,
{
    SetTimerTask::build(storage, callback, milliseconds, false)
}

/// `setInterval`: registers a repeating timer.
pub fn set_interval_callback<C>(storage: &mut TimerStorage, callback: C, milliseconds: i32) -> (r:
    SetTimerTask<C>)
    requires
        old(storage).wf(),
        old(storage)@.issued < usize::MAX,
    ensures
        final(storage).wf(),
        final(storage)@ == old(storage)@.created(),
        r.id as nat == old(storage)@.next_id(),
        r.repeat,
        r.callback == callback,
        r.milliseconds == milliseconds as usize,
{
    SetTimerTask::build(storage, callback, milliseconds, true)
}

/// `clearTimeout` and `clearInterval`: cancels the timer that the script's
/// integer names (taken bit for bit as an id).
pub fn clear_timer_callback(storage: &mut TimerStorage, id: i64)
    requires
        old(storage).wf(),
    ensures
        final(storage).wf(),
        final(storage)@ == old(storage)@.cancelled(id as usize),
{
    let id = id as usize;
    storage.cancel(&id);
}

/// A due timer, queued to run its callback.
pub struct ExecuteTimerTask<C> {
    pub id: usize,
    pub callback: C,
}

impl<C> ExecuteTimerTask<C> {
    /// Whether the callback runs: only while the timer is still live. A
    /// cancellation may have come first while the firing was still queued.
    pub fn fires(&self, storage: &TimerStorage) -> (r: bool)
        ensures
            r == storage@.live.contains(self.id),
    {
        storage.contains(self.id)
    }
}

} // verus!

verus! {

/// What wakes a timer's wait loop: its cancellation signal changed (to the
/// value `cancelled`), or its delay elapsed.
#[derive(Clone, Copy, Debug, PartialEq, Eq, Structural)]
pub enum WaitEvent {
    SignalChanged { cancelled: bool },
    DelayElapsed,
}

/// What the wait loop does on one event: whether it queues a firing task,
/// and whether it then exits.
#[derive(Clone, Copy, Debug, PartialEq, Eq, Structural)]
pub struct WaitStep {
    pub fire: bool,
    pub done: bool,
}

/// A cancellation exits without firing; a change back to "not cancelled"
/// keeps waiting; an elapsed delay fires, and exits unless the timer repeats.
pub open spec fn step_of(repeat: bool, event: WaitEvent) -> WaitStep {
    match event {
        WaitEvent::SignalChanged { cancelled } => WaitStep { fire: false, done: cancelled },
        WaitEvent::DelayElapsed => WaitStep { fire: true, done: !repeat },
    }
}

/// The decision of a timer's wait loop on one event.
pub fn wait_step(repeat: bool, event: WaitEvent) -> (r: WaitStep)
    ensures
        r == step_of(repeat, event),
{
    match event {
        WaitEvent::SignalChanged { cancelled } => WaitStep { fire: false, done: cancelled },
        WaitEvent::DelayElapsed => WaitStep { fire: true, done: !repeat },
    }
}

/// How many times a wait loop fires when it meets `events` in order; it
/// stops reading at the first step that exits.
pub open spec fn wait_fires(repeat: bool, events: Seq<WaitEvent>) -> nat
    decreases events.len(),
{
    if events.len() == 0 {
        0
    } else {
        let step = step_of(repeat, events[0]);
        let rest = if step.done {
            0
        } else {
            wait_fires(repeat, events.drop_first())
        };
        (if step.fire {
            1nat
        } else {
            0nat
        }) + rest
    }
}

/// Once a wait loop has observed its cancellation, it fires no more: the
/// events after it change nothing.
pub proof fn lemma_no_fire_after_cancel(repeat: bool, events: Seq<WaitEvent>, k: int)
    requires
        0 <= k < events.len(),
        events[k] == (WaitEvent::SignalChanged { cancelled: true }),
    ensures
        wait_fires(repeat, events) == wait_fires(repeat, events.take(k)),
    decreases k,
{
    if k == 0 {
        assert(events.take(0).len() == 0);
    } else {
        let tail = events.drop_first();
        assert(tail[k - 1] == events[k]);
        lemma_no_fire_after_cancel(repeat, tail, k - 1);
        assert(events.take(k).drop_first() =~= tail.take(k - 1));
        assert(events.take(k)[0] == events[0]);
    }
}

/// A timer cancelled before its delay elapsed never fires.
pub proof fn lemma_cancel_before_delay(repeat: bool, events: Seq<WaitEvent>, k: int)
    requires
        0 <= k < events.len(),
        events[k] == (WaitEvent::SignalChanged { cancelled: true }),
        forall|j: int| 0 <= j < k ==> events[j] != WaitEvent::DelayElapsed,
    ensures
        wait_fires(repeat, events) == 0,
    decreases k,
{
    if k == 0 {
    } else {
        let tail = events.drop_first();
        assert(tail[k - 1] == events[k]);
        assert forall|j: int| 0 <= j < k - 1 implies tail[j] != WaitEvent::DelayElapsed by {
            assert(tail[j] == events[j + 1]);
        }
        lemma_cancel_before_delay(repeat, tail, k - 1);
    }
}

/// One operation on a timer registry.
pub ghost enum TimerOp {
    Create,
    Cancel(usize),
}

pub open spec fn apply_op(st: TimerState, op: TimerOp) -> TimerState {
    match op {
        TimerOp::Create => st.created(),
        TimerOp::Cancel(id) => st.cancelled(id),
    }
}

/// The state after `ops`, applied in order.
pub open spec fn apply_ops(st: TimerState, ops: Seq<TimerOp>) -> TimerState
    decreases ops.len(),
{
    if ops.len() == 0 {
        st
    } else {
        apply_ops(apply_op(st, ops[0]), ops.drop_first())
    }
}

/// The ids that the registrations among `ops` hand out, in order.
pub open spec fn issued_ids(st: TimerState, ops: Seq<TimerOp>) -> Seq<nat>
    decreases ops.len(),
{
    if ops.len() == 0 {
        Seq::empty()
    } else {
        match ops[0] {
            TimerOp::Create => seq![st.next_id()].add(
                issued_ids(apply_op(st, ops[0]), ops.drop_first()),
            ),
            TimerOp::Cancel(_) => issued_ids(apply_op(st, ops[0]), ops.drop_first()),
        }
    }
}

proof fn lemma_issued_ids_from(st: TimerState, ops: Seq<TimerOp>)
    ensures
        forall|j: int| 0 <= j < issued_ids(st, ops).len() ==> #[trigger] issued_ids(st, ops)[j]
            == st.issued + j + 1,
    decreases ops.len(),
{
    if ops.len() > 0 {
        let next = apply_op(st, ops[0]);
        lemma_issued_ids_from(next, ops.drop_first());
        let rest = issued_ids(next, ops.drop_first());
        match ops[0] {
            TimerOp::Create => {
                let ids = issued_ids(st, ops);
                assert(ids == seq![st.next_id()].add(rest));
                assert forall|j: int| 0 <= j < ids.len() implies #[trigger] ids[j] == st.issued
                    + j + 1 by {
                    if j > 0 {
                        assert(ids[j] == rest[j - 1]);
                    }
                }
            },
            TimerOp::Cancel(_) => {},
        }
    }
}

/// Ids count up from 1, one per registration, whatever cancellations come in
/// between: each is larger than every id before it, so none is reused.
pub proof fn lemma_ids_increase(ops: Seq<TimerOp>)
    ensures
        ({
            let ids = issued_ids(TimerState { issued: 0, live: Set::empty() }, ops);
            &&& forall|j: int| 0 <= j < ids.len() ==> #[trigger] ids[j] == j + 1
            &&& forall|i: int, j: int| 0 <= i < j < ids.len() ==> ids[i] < ids[j]
        }),
{
    lemma_issued_ids_from(TimerState { issued: 0, live: Set::empty() }, ops);
    let ids = issued_ids(TimerState { issued: 0, live: Set::empty() }, ops);
    assert forall|i: int, j: int| 0 <= i < j < ids.len() implies ids[i] < ids[j] by {
        assert(ids[i] == i + 1);
        assert(ids[j] == j + 1);
    }
}

proof fn lemma_dead_stays_dead(st: TimerState, id: usize, ops: Seq<TimerOp>)
    requires
        !st.live.contains(id),
        id <= st.issued,
        st.issued + ops.len() <= usize::MAX,
    ensures
        !apply_ops(st, ops).live.contains(id),
    decreases ops.len(),
{
    if ops.len() > 0 {
        lemma_dead_stays_dead(apply_op(st, ops[0]), id, ops.drop_first());
    }
}

/// A cancelled timer is never live again, whatever registrations and
/// cancellations follow (as long as the ids they issue fit in a `usize`): a
/// firing for it that is still queued, or that comes later, does not run its
/// callback.
pub proof fn lemma_cancelled_never_fires(st: TimerState, id: usize, ops: Seq<TimerOp>)
    requires
        st.wf(),
        1 <= id <= st.issued,
        st.issued + ops.len() <= usize::MAX,
    ensures
        !apply_ops(st.cancelled(id), ops).live.contains(id),
{
    lemma_dead_stays_dead(st.cancelled(id), id, ops);
}

} // verus!
