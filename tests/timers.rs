use js::task::EventLoop;
use js::timers::{
    clear_timer_callback, install, set_interval_callback, set_timeout_callback, wait_step,
    ExecuteTimerTask, SetTimerTask, TimerFunction, TimerStorage, WaitEvent, WaitStep,
};
use std::time::Duration;
use tokio::sync::watch;

#[test]
fn ids_start_at_one_and_increase() {
    let mut storage = TimerStorage::new();
    let (a, _ra) = storage.create();
    let (b, _rb) = storage.create();
    storage.cancel(&b);
    let (c, _rc) = storage.create();
    assert_eq!((a, b, c), (1, 2, 3));
    assert!(storage.contains(1));
    assert!(!storage.contains(2));
    assert!(storage.contains(3));
}

#[test]
fn cancel_raises_the_signal() {
    let mut storage = TimerStorage::new();
    let (id, rx) = storage.create();
    assert!(!*rx.borrow());
    storage.cancel(&id);
    assert!(*rx.borrow());
    assert!(!storage.contains(id));
}

#[test]
fn cancel_unknown_or_twice_is_a_no_op() {
    let mut storage = TimerStorage::new();
    let (id, _rx) = storage.create();
    storage.cancel(&42);
    assert!(storage.contains(id));
    storage.cancel(&id);
    storage.cancel(&id);
    assert!(!storage.contains(id));
    let (next, _rn) = storage.create();
    assert_eq!(next, 2);
}

#[test]
fn cancel_all_raises_every_signal() {
    let mut storage = TimerStorage::new();
    let (a, ra) = storage.create();
    let (b, rb) = storage.create();
    let (c, rc) = storage.create();
    storage.cancel(&b);
    storage.cancel_all();
    assert!(*ra.borrow() && *rb.borrow() && *rc.borrow());
    assert!(!storage.contains(a) && !storage.contains(b) && !storage.contains(c));
    let (d, _rd) = storage.create();
    assert_eq!(d, 4);
}

#[test]
fn can_create_on_a_fresh_registry() {
    assert!(TimerStorage::new().can_create());
}

#[test]
fn set_timeout_builds_a_one_shot_timer() {
    let mut storage = TimerStorage::new();
    let t: SetTimerTask<&str> = set_timeout_callback(&mut storage, "cb", 10);
    assert_eq!(t.id, 1);
    assert!(!t.repeat);
    assert_eq!(t.milliseconds, 10);
    assert_eq!(t.callback, "cb");
    assert!(!*t.cancel.borrow());
    assert!(storage.contains(1));
}

#[test]
fn set_interval_builds_a_repeating_timer() {
    let mut storage = TimerStorage::new();
    let _first = set_timeout_callback(&mut storage, 0u8, 5);
    let t = set_interval_callback(&mut storage, 1u8, 250);
    assert_eq!(t.id, 2);
    assert!(t.repeat);
    assert_eq!(t.milliseconds, 250);
}

#[test]
fn build_takes_a_negative_delay_bit_for_bit() {
    let mut storage = TimerStorage::new();
    let t = SetTimerTask::build(&mut storage, (), -1, false);
    assert_eq!(t.milliseconds, usize::MAX);
}

#[test]
fn clear_timer_callback_cancels() {
    let mut storage = TimerStorage::new();
    let t = set_interval_callback(&mut storage, (), 1);
    clear_timer_callback(&mut storage, 1);
    assert!(*t.cancel.borrow());
    assert!(!storage.contains(1));
    clear_timer_callback(&mut storage, 7);
}

#[test]
fn execute_timer_task_fires_only_while_live() {
    let mut storage = TimerStorage::new();
    let (id, _rx) = storage.create();
    let task = ExecuteTimerTask { id, callback: "cb" };
    assert!(task.fires(&storage));
    storage.cancel(&id);
    assert!(!task.fires(&storage));
    let other = ExecuteTimerTask { id: 9, callback: "cb" };
    assert!(!other.fires(&storage));
}

#[test]
fn install_names_the_timer_functions() {
    let (storage, names) = install();
    assert!(storage.can_create());
    assert!(!storage.contains(1));
    assert_eq!(
        names,
        vec![
            ("setTimeout", TimerFunction::SetTimeout),
            ("setInterval", TimerFunction::SetInterval),
            ("clearTimeout", TimerFunction::ClearTimer),
            ("clearInterval", TimerFunction::ClearTimer),
        ]
    );
}

#[test]
fn wait_step_decisions() {
    let cancel = WaitEvent::SignalChanged { cancelled: true };
    let spurious = WaitEvent::SignalChanged { cancelled: false };
    assert_eq!(wait_step(false, cancel), WaitStep { fire: false, done: true });
    assert_eq!(wait_step(true, cancel), WaitStep { fire: false, done: true });
    assert_eq!(wait_step(true, spurious), WaitStep { fire: false, done: false });
    assert_eq!(wait_step(false, WaitEvent::DelayElapsed), WaitStep { fire: true, done: true });
    assert_eq!(wait_step(true, WaitEvent::DelayElapsed), WaitStep { fire: true, done: false });
}

fn count_fires(repeat: bool, events: &[WaitEvent]) -> usize {
    let mut fires = 0;
    for e in events {
        let step = wait_step(repeat, *e);
        if step.fire {
            fires += 1;
        }
        if step.done {
            break;
        }
    }
    fires
}

#[test]
fn repeating_timer_stops_firing_at_cancellation() {
    let cancel = WaitEvent::SignalChanged { cancelled: true };
    let e = WaitEvent::DelayElapsed;
    assert_eq!(count_fires(true, &[e, e, cancel, e, e]), 2);
    assert_eq!(count_fires(true, &[cancel, e]), 0);
    assert_eq!(count_fires(false, &[e, e, e]), 1);
}

/// One wait-loop event, observed by racing the signal against the delay.
async fn next_event(rx: &mut watch::Receiver<bool>, delay: Duration) -> WaitEvent {
    match tokio::time::timeout(delay, rx.changed()).await {
        Err(_) => WaitEvent::DelayElapsed,
        Ok(Ok(())) => WaitEvent::SignalChanged { cancelled: *rx.borrow() },
        Ok(Err(_)) => WaitEvent::SignalChanged { cancelled: true },
    }
}

enum TestTask {
    Timer(ExecuteTimerTask<&'static str>),
}

fn schedule(t: SetTimerTask<&'static str>, queue: js::task::TaskSender<TestTask>) {
    let mut cancel = t.cancel;
    let (id, repeat, callback) = (t.id, t.repeat, t.callback);
    let delay = Duration::from_millis(t.milliseconds as u64);
    tokio::spawn(async move {
        loop {
            let step = wait_step(repeat, next_event(&mut cancel, delay).await);
            if step.fire {
                queue.send(TestTask::Timer(ExecuteTimerTask { id, callback }));
            }
            if step.done {
                break;
            }
        }
    });
}

fn current_thread() -> tokio::runtime::Runtime {
    tokio::runtime::Builder::new_current_thread().enable_time().build().unwrap()
}

#[test]
fn one_shot_timer_fires_once() {
    let log = current_thread().block_on(async {
        let mut storage = TimerStorage::new();
        let mut looped = EventLoop::<TestTask>::new();
        let mut receiver = looped.take_receiver().unwrap();
        let t = set_timeout_callback(&mut storage, "fired", 10);
        schedule(t, looped.queue());
        drop(looped);
        let mut log = Vec::new();
        while let Some(TestTask::Timer(task)) = receiver.recv().await {
            if task.fires(&storage) {
                log.push(task.callback);
            }
        }
        log
    });
    assert_eq!(log, vec!["fired"]);
}

#[test]
fn cancelled_timer_never_fires() {
    let log = current_thread().block_on(async {
        let mut storage = TimerStorage::new();
        let mut looped = EventLoop::<TestTask>::new();
        let mut receiver = looped.take_receiver().unwrap();
        let t = set_timeout_callback(&mut storage, "late", 20);
        schedule(t, looped.queue());
        clear_timer_callback(&mut storage, 1);
        drop(looped);
        let mut log = Vec::new();
        while let Some(TestTask::Timer(task)) = receiver.recv().await {
            if task.fires(&storage) {
                log.push(task.callback);
            }
        }
        log
    });
    assert!(log.is_empty());
}

#[test]
fn teardown_cancels_all_outstanding_timers() {
    let log = current_thread().block_on(async {
        let mut storage = TimerStorage::new();
        let mut looped = EventLoop::<TestTask>::new();
        let mut receiver = looped.take_receiver().unwrap();
        schedule(set_timeout_callback(&mut storage, "a", 20), looped.queue());
        schedule(set_interval_callback(&mut storage, "b", 20), looped.queue());
        schedule(set_timeout_callback(&mut storage, "c", 30), looped.queue());
        storage.cancel_all();
        drop(looped);
        let mut log = Vec::new();
        while let Some(TestTask::Timer(task)) = receiver.recv().await {
            if task.fires(&storage) {
                log.push(task.callback);
            }
        }
        log
    });
    assert!(log.is_empty());
}

#[test]
fn stale_firing_task_is_suppressed() {
    let mut storage = TimerStorage::new();
    let mut looped = EventLoop::<TestTask>::new();
    let mut receiver = looped.take_receiver().unwrap();
    let (id, _rx) = storage.create();
    looped.queue().send(TestTask::Timer(ExecuteTimerTask { id, callback: "stale" }));
    storage.cancel(&id);
    let TestTask::Timer(task) = receiver.try_recv().unwrap();
    assert!(!task.fires(&storage));
}
