//! The channels between an actor and its handlers, and what a handler makes
//! of one exchange over them.
//!
//! A mailbox is a bounded `tokio` channel: the handler keeps the sending half,
//! the actor the receiving half. A query travels through the mailbox with the
//! sending half of a one-shot channel, on which the actor answers.

use tokio::sync::mpsc;
use tokio::sync::oneshot;
use vstd::prelude::*;

verus! {

/// `tokio::sync::mpsc::Sender`: the sending half of a mailbox, carried as an
/// opaque value.
#[verifier::external_type_specification]
#[verifier::external_body]
#[verifier::reject_recursive_types(T)]
pub struct ExMailboxSender<T>(mpsc::Sender<T>);

/// `tokio::sync::mpsc::Sender::clone` makes another sending half of the same
/// mailbox. Nothing is claimed of the new half.
pub assume_specification<T>[ <mpsc::Sender<T> as Clone>::clone ](sender: &mpsc::Sender<T>) -> (shared:
    mpsc::Sender<T>)
;

/// `tokio::sync::mpsc::Receiver`: the receiving half of a mailbox, carried as
/// an opaque value.
#[verifier::external_type_specification]
#[verifier::external_body]
#[verifier::reject_recursive_types(T)]
pub struct ExMailboxReceiver<T>(mpsc::Receiver<T>);

/// `tokio::sync::oneshot::Sender`: the sending half of a one-shot reply
/// channel, carried as an opaque value.
#[verifier::external_type_specification]
#[verifier::external_body]
#[verifier::reject_recursive_types(T)]
pub struct ExReplySender<T>(oneshot::Sender<T>);

/// `tokio::sync::oneshot::Receiver`: the receiving half of a one-shot reply
/// channel, carried as an opaque value.
#[verifier::external_type_specification]
#[verifier::external_body]
#[verifier::reject_recursive_types(T)]
pub struct ExReplyReceiver<T>(oneshot::Receiver<T>);

/// `tokio::sync::oneshot::error::RecvError`: what awaiting a reply channel
/// yields when it closed without an answer. It is declared because the
/// receiving half is a future with this type in its output.
#[verifier::external_type_specification]
#[verifier::external_body]
pub struct ExReplyClosed(oneshot::error::RecvError);

/// Calls `tokio::sync::oneshot::channel`, which makes the two halves of a
/// fresh one-shot channel. Nothing is claimed of the halves.
#[verifier::external_body]
pub(crate) fn reply_channel<T>() -> (halves: (oneshot::Sender<T>, oneshot::Receiver<T>)) {
    oneshot::channel()
}

/// An answer on its way: the value and the channel it has to be sent on.
///
/// The driver performs the send and ignores its failure: a caller that has
/// given up has dropped the receiving half.
#[verifier::reject_recursive_types(T)]
pub struct Reply<T> {
    pub response: oneshot::Sender<Option<T>>,
    pub value: Option<T>,
}

/// How one query went, as the handler saw it.
pub enum QueryOutcome<T> {
    /// The mailbox was closed: the actor had terminated before the send.
    MailboxClosed,
    /// The query was sent, and the reply channel closed without an answer.
    ReplyDropped,
    /// The actor answered with its latest value, which may be absent.
    Replied(Option<T>),
}

impl<T> QueryOutcome<T> {
    /// The value that the query yields: the answer where there was one, and
    /// nothing where the actor was gone.
    pub open spec fn value(self) -> Option<T> {
        match self {
            QueryOutcome::Replied(value) => value,
            QueryOutcome::MailboxClosed => None,
            QueryOutcome::ReplyDropped => None,
        }
    }

    /// Whether the actor was found terminated.
    pub open spec fn actor_gone(self) -> bool {
        !(self is Replied)
    }

    /// Hands out the value that the query yields.
    pub fn resolve(self) -> (value: Option<T>)
        ensures
            value == self.value(),
            self.actor_gone() ==> value is None,
    {
        match self {
            QueryOutcome::Replied(value) => value,
            QueryOutcome::MailboxClosed => None,
            QueryOutcome::ReplyDropped => None,
        }
    }
}

/// What a caller sees of a step of the actor that dequeued its query: the
/// answer where the step gave one, a closed reply channel where it did not.
pub open spec fn outcome_of_reply<T>(reply: Option<Option<T>>) -> QueryOutcome<T> {
    match reply {
        Some(value) => QueryOutcome::Replied(value),
        None => QueryOutcome::ReplyDropped,
    }
}

} // verus!
