//! An actor that takes messages from its mailbox until the mailbox closes.

use crate::actor::{Actor, ActorHandler};
use tokio::sync::mpsc;
use tokio_util::sync::CancellationToken;
use vstd::prelude::*;

verus! {

/// A message for the actor.
#[derive(Debug, PartialEq, Eq, Structural)]
pub enum ActorMessage {
    Get { value: u32 },
}

/// The actor: its name, the receiving half of its mailbox, and whether it
/// has found the mailbox closed.
pub struct ActorWithMessage {
    pub name: String,
    pub receiver: mpsc::Receiver<ActorMessage>,
    pub closed: bool,
}

impl ActorWithMessage {
    /// Makes the actor, with its mailbox open.
    pub fn new(name: String, receiver: mpsc::Receiver<ActorMessage>) -> (actor: Self)
        ensures
            actor.name == name,
            actor.receiver == receiver,
            !actor.closed,
    {
        ActorWithMessage { name, receiver, closed: false }
    }
}

impl Actor for ActorWithMessage {
    /// What the mailbox yielded: a message, or nothing once every sender is gone.
    type Event = Option<ActorMessage>;

    /// The message to report as received, where there is one.
    type Effect = Option<ActorMessage>;

    open spec fn finished(&self) -> bool {
        self.closed
    }

    open spec fn accepts(&self, event: Option<ActorMessage>) -> bool {
        true
    }

    fn is_finished(&self) -> (finished: bool) {
        self.closed
    }

    /// A message is reported as long as the mailbox was open; the end of the
    /// mailbox finishes the actor.
    fn handle(&mut self, event: Option<ActorMessage>) -> (effect: Option<ActorMessage>)
        ensures
            final(self).closed == (old(self).closed || event is None),
            effect == (if old(self).closed { None } else { event }),
            final(self).name == old(self).name,
            final(self).receiver == old(self).receiver,
    {
        if self.closed {
            return None;
        }
        if event.is_none() {
            self.closed = true;
        }
        event
    }
}

/// The handler: the sending half of the actor's mailbox.
pub struct ActorWithMessageHandler {
    pub sender: mpsc::Sender<ActorMessage>,
}

impl Clone for ActorWithMessageHandler {
    /// Another handler of the same actor: it sends into the same mailbox.
    fn clone(&self) -> (copy: Self) {
        ActorWithMessageHandler { sender: self.sender.clone() }
    }
}

impl ActorHandler for ActorWithMessageHandler {
    open spec fn signal(&self) -> Option<CancellationToken> {
        None
    }

    fn get_cancellation_token(&self) -> (token: Option<CancellationToken>) {
        let token = None;
        assert(token == self.signal());
        token
    }
}

impl ActorWithMessageHandler {
    /// Makes the handler.
    pub fn new(sender: mpsc::Sender<ActorMessage>) -> (handler: Self)
        ensures
            handler.sender == sender,
    {
        ActorWithMessageHandler { sender }
    }
}

} // verus!
