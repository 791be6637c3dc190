use std::sync::mpsc::{Receiver, SyncSender};
use vstd::prelude::*;

verus! {

#[verifier::external_type_specification]
#[verifier::external_body]
#[verifier::reject_recursive_types(T)]
pub struct ExSyncSender<T>(SyncSender<T>);

#[verifier::external_type_specification]
#[verifier::external_body]
#[verifier::reject_recursive_types(T)]
pub struct ExReceiver<T>(Receiver<T>);

/// Relies on std::sync::mpsc::sync_channel: a connected sender and receiver
/// with room for one value, so that the runtime thread never waits on the
/// host when it replies.
#[verifier::external_body]
fn reply_channel<T>() -> (SyncSender<T>, Receiver<T>) {
    std::sync::mpsc::sync_channel(1)
}

/// Relies on std::sync::mpsc::SyncSender::send: `true` when the value was
/// handed to the receiving side, `false` when the receiver is gone.
#[verifier::external_body]
fn send_value<T>(tx: SyncSender<T>, v: T) -> bool {
    tx.send(v).is_ok()
}

/// Relies on std::sync::mpsc::Receiver::recv: blocks until a value comes,
/// or gives `None` once every sender is gone without one.
#[verifier::external_body]
fn receive_value<T>(rx: &Receiver<T>) -> Option<T> {
    rx.recv().ok()
}

/// The sending half of the reply rendezvous of one synchronous submission:
/// the task moves it to the runtime thread and sends its result through it.
#[verifier::reject_recursive_types(T)]
pub struct ReplyTo<T> {
    tx: SyncSender<T>,
}

impl<T> ReplyTo<T> {
    /// Sends the task's result back to the waiting submitter; `false` if it
    /// no longer waits.
    pub fn send(self, v: T) -> bool {
        send_value(self.tx, v)
    }
}

/// Submits a task and waits for its result.
///
/// `submit` gets the reply handle, puts into the task channel a task that
/// sends its result through it, and tells whether the channel accepted that
/// task. A declined task yields `None` at once, without waiting. Otherwise
/// this blocks until the task replies, and yields `None` if the task ends
/// without replying.
pub fn sync_node<T, F>(submit: F) -> (r: Option<T>)
    where
        F: FnOnce(ReplyTo<T>) -> bool,
    requires
        forall|t: ReplyTo<T>| submit.requires((t,)),
    ensures
        r is Some ==> exists|t: ReplyTo<T>| submit.ensures((t,), true),
{
    let (tx, rx) = reply_channel::<T>();
    let reply = ReplyTo { tx };
    let accepted = submit(reply);
    if accepted {
        receive_value(&rx)
    } else {
        None
    }
}

} // verus!
