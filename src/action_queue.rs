//! The control loop's FIFO of intents, kept in a tokio unbounded channel
//! whose two ends it holds.
use vstd::prelude::*;

use tokio::sync::mpsc::{UnboundedReceiver, UnboundedSender};

use crate::app::Action;

verus! {

/// Both ends of one unbounded channel of intents. Holding the receiver keeps
/// the channel open, so every send is delivered.
#[verifier::external_body]
pub struct ActionQueue {
    tx: UnboundedSender<Action>,
    rx: UnboundedReceiver<Action>,
}

/// The intents waiting in the queue, oldest first.
pub uninterp spec fn queued_actions(q: ActionQueue) -> Seq<Action>;

/// Relies on tokio::sync::mpsc::unbounded_channel: a new channel holds no
/// message.
#[verifier::external_body]
pub(crate) fn new_queue() -> (q: ActionQueue)
    ensures
        queued_actions(q) == Seq::<Action>::empty(),
{
    let (tx, rx) = tokio::sync::mpsc::unbounded_channel();
    ActionQueue { tx, rx }
}

/// Relies on UnboundedSender::send: while the receiver is alive the message
/// is accepted and queued behind the others.
#[verifier::external_body]
pub(crate) fn enqueue(q: &mut ActionQueue, action: Action)
    ensures
        queued_actions(*final(q)) == queued_actions(*old(q)).push(action),
{
    let _ = q.tx.send(action);
}

/// Relies on UnboundedReceiver::try_recv: the oldest queued message, or an
/// error where none is queued (a sender is alive, so not a disconnection).
#[verifier::external_body]
pub(crate) fn dequeue(q: &mut ActionQueue) -> (r: Option<Action>)
    ensures
        queued_actions(*old(q)).len() == 0 ==> r is None && queued_actions(*final(q))
            == queued_actions(*old(q)),
        queued_actions(*old(q)).len() > 0 ==> r == Some(queued_actions(*old(q))[0])
            && queued_actions(*final(q)) == queued_actions(*old(q)).drop_first(),
{
    q.rx.try_recv().ok()
}

} // verus!
