//! The communication bridge: one channel whose messages are either
//! fire-and-forget work or work that produces a unit of asynchronous work,
//! both to be run later with exclusive engine access.

use crate::task::{another_sender, open_channel, post};
use tokio::sync::mpsc;
use vstd::prelude::*;

verus! {

/// A message on the bridge: plain work, or work that yields asynchronous
/// work to run to completion.
pub enum Message<S, A> {
    Sync(S),
    Async(A),
}

/// The bridge's channel. Its receiver is drained by whoever consumes it; the
/// run loop does not.
#[verifier::reject_recursive_types(S)]
#[verifier::reject_recursive_types(A)]
pub struct Channel<S, A> {
    pub tx: mpsc::UnboundedSender<Message<S, A>>,
    pub rx: mpsc::UnboundedReceiver<Message<S, A>>,
}

/// Sends plain work over the bridge.
#[verifier::reject_recursive_types(S)]
#[verifier::reject_recursive_types(A)]
pub struct SyncSender<S, A> {
    tx: mpsc::UnboundedSender<Message<S, A>>,
}

/// Sends work that yields asynchronous work over the bridge.
#[verifier::reject_recursive_types(S)]
#[verifier::reject_recursive_types(A)]
pub struct AsyncSender<S, A> {
    tx: mpsc::UnboundedSender<Message<S, A>>,
}

impl<S, A> Channel<S, A> {
    pub fn new() -> (r: Channel<S, A>) {
        let (tx, rx) = open_channel();
        Channel { tx, rx }
    }

    pub fn sync_sender(&self) -> (r: SyncSender<S, A>) {
        SyncSender { tx: another_sender(&self.tx) }
    }

    pub fn sender(&self) -> (r: AsyncSender<S, A>) {
        AsyncSender { tx: another_sender(&self.tx) }
    }
}

impl<S, A> SyncSender<S, A> {
    /// Queues `work` as a plain message.
    pub fn send(&self, work: S) {
        post(&self.tx, Message::Sync(work))
    }
}

impl<S, A> AsyncSender<S, A> {
    /// Queues `work` as a message that yields asynchronous work.
    pub fn send(&self, work: A) {
        post(&self.tx, Message::Async(work))
    }
}

} // verus!
