//! The actor contract: what any actor offers to the driver that runs it, and
//! what any handler offers to the rest of the program.
//!
//! Verified code never waits. An actor is a state machine that is handed one
//! event at a time and answers with what has to be done; the task that awaits
//! the events and performs the effects is the driver's.

pub mod stream_laws;
pub mod websocket_actor;

use tokio_util::sync::CancellationToken;
use vstd::prelude::*;

verus! {

/// `tokio_util::sync::CancellationToken`: the cancellation signal, carried as
/// an opaque value. It is a handle on a stop flag that all its clones share.
#[verifier::external_type_specification]
#[verifier::external_body]
pub struct ExCancellationToken(CancellationToken);

/// Calls `CancellationToken::cancel`, which sets the shared flag for good.
/// The flag lies behind a shared reference, so no clause can speak of it.
#[verifier::external_body]
pub(crate) fn signal_cancellation(token: &CancellationToken) {
    token.cancel()
}

/// Calls `CancellationToken::is_cancelled`, which reads the shared flag. The
/// answer depends on what the other holders have done, so nothing is claimed
/// of it.
#[verifier::external_body]
pub(crate) fn cancellation_observed(token: &CancellationToken) -> (cancelled: bool) {
    token.is_cancelled()
}

/// `CancellationToken::clone` makes another handle on the same flag. The new
/// handle equals the old one, as the crate's own `==` has it: the two point at
/// the same flag.
pub assume_specification[ <CancellationToken as Clone>::clone ](
    token: &CancellationToken,
) -> (shared: CancellationToken)
    ensures
        shared == *token,
;

/// A unit of work with private state that a driver runs as a task of its own.
///
/// The driver awaits the next event, hands it over with `handle`, performs the
/// effect that comes back, and leaves its loop once the actor has finished.
pub trait Actor {
    /// What the driver can report to the actor.
    type Event;

    /// What the actor can ask of the driver.
    type Effect;

    /// Whether the actor has decided to terminate.
    spec fn finished(&self) -> bool;

    /// Whether the actor can take `event` in its present state.
    spec fn accepts(&self, event: Self::Event) -> bool;

    /// Whether the actor has decided to terminate.
    fn is_finished(&self) -> (finished: bool)
        ensures
            finished == self.finished(),
    ;

    /// Takes one event. An actor that has finished stays finished.
    fn handle(&mut self, event: Self::Event) -> (effect: Self::Effect)
        requires
            old(self).accepts(event),
        ensures
            old(self).finished() ==> final(self).finished(),
    ;
}

/// The side of an actor that the rest of the program holds.
pub trait ActorHandler {
    /// The actor's cancellation signal, where it can be stopped from outside.
    spec fn signal(&self) -> Option<CancellationToken>;

    /// A handle on the actor's cancellation signal, where it has one.
    fn get_cancellation_token(&self) -> (token: Option<CancellationToken>)
        ensures
            token == self.signal(),
    ;

    /// Asks the actor to stop, where it can be stopped. The request is not
    /// acknowledged, and may be repeated.
    fn stop(&self) {
        if let Some(token) = self.get_cancellation_token() {
            signal_cancellation(&token);
        }
    }
}

} // verus!
