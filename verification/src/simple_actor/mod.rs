//! An actor that counts its wake-ups until it is cancelled.

use crate::actor::{Actor, ActorHandler};
use tokio_util::sync::CancellationToken;
use vstd::prelude::*;

verus! {

/// Why the actor woke up.
#[derive(Clone, Copy, Debug, PartialEq, Eq, Structural)]
pub enum Wakeup {
    /// The interval has ticked.
    Tick,
    /// Cancellation was signalled.
    Cancelled,
}

/// What the actor asks of the driver after a wake-up.
#[derive(Clone, Copy, Debug, PartialEq, Eq, Structural)]
pub enum Progress {
    /// Report the count and wait for the next wake-up.
    Counted(u32),
    /// Report the cancellation and leave the loop.
    Cancelled,
}

/// The actor: how often it woke up, its name, its cancellation signal, and
/// whether it has seen the cancellation.
pub struct SimpleActor {
    pub state: u32,
    pub name: String,
    pub cancellation_token: CancellationToken,
    pub cancelled: bool,
}

impl SimpleActor {
    /// Makes the actor, which has not woken up yet.
    pub fn new(name: String, cancellation_token: CancellationToken) -> (actor: SimpleActor)
        ensures
            actor.state == 0,
            actor.name == name,
            actor.cancellation_token == cancellation_token,
            !actor.cancelled,
    {
        SimpleActor { state: 0, name, cancellation_token, cancelled: false }
    }

    /// The actor after a wake-up: a running actor counts it, and stops where
    /// it was a cancellation; a cancelled actor stays as it is.
    pub open spec fn next(self, wakeup: Wakeup) -> Self {
        if self.cancelled {
            self
        } else {
            SimpleActor {
                state: (self.state + 1) as u32,
                cancelled: wakeup is Cancelled,
                ..self
            }
        }
    }

    /// What the actor asks for after a wake-up.
    pub open spec fn progress(self, wakeup: Wakeup) -> Progress {
        if self.cancelled || wakeup is Cancelled {
            Progress::Cancelled
        } else {
            Progress::Counted((self.state + 1) as u32)
        }
    }
}

impl Actor for SimpleActor {
    type Event = Wakeup;

    type Effect = Progress;

    open spec fn finished(&self) -> bool {
        self.cancelled
    }

    /// A running actor can count as long as the count fits.
    open spec fn accepts(&self, event: Wakeup) -> bool {
        self.cancelled || self.state < u32::MAX
    }

    fn is_finished(&self) -> (finished: bool) {
        self.cancelled
    }

    fn handle(&mut self, event: Wakeup) -> (effect: Progress)
        ensures
            *final(self) == old(self).next(event),
            effect == old(self).progress(event),
    {
        if self.cancelled {
            return Progress::Cancelled;
        }
        self.state = self.state + 1;
        match event {
            Wakeup::Tick => Progress::Counted(self.state),
            Wakeup::Cancelled => {
                self.cancelled = true;
                Progress::Cancelled
            },
        }
    }
}

/// The handler: a handle on the actor's cancellation signal.
pub struct SimpleActorHandler {
    pub cancellation_token: CancellationToken,
}

impl ActorHandler for SimpleActorHandler {
    open spec fn signal(&self) -> Option<CancellationToken> {
        Some(self.cancellation_token)
    }

    fn get_cancellation_token(&self) -> (token: Option<CancellationToken>) {
        let token = Some(self.cancellation_token.clone());
        assert(token == self.signal());
        token
    }
}

impl SimpleActorHandler {
    /// Makes the handler.
    pub fn new(cancellation_token: CancellationToken) -> (handler: SimpleActorHandler)
        ensures
            handler.cancellation_token == cancellation_token,
    {
        SimpleActorHandler { cancellation_token }
    }
}

} // verus!
