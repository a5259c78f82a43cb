//! Actors that a driver task runs one event at a time, and the reconnecting
//! stream actor among them.
//!
//! An actor owns its state and is reached through messages only. What it
//! decides is here, as functions from a state and an event to the next state
//! and what has to be done; what it waits for is the driver's: a task that
//! awaits the connection, the stream, the mailbox and the cancellation signal,
//! reports what happened, and performs what the actor asks for.
//!
//! - [`actor`] holds the contracts: `Actor` and `ActorHandler` for any actor,
//!   `WebSocketActor` and `WebsocketActorHandler` for the reconnecting stream
//!   actor, with the state machine `StreamState` that every such actor
//!   follows and the laws proved of it.
//! - [`mailbox`] holds the channels between a handler and its actor, and what
//!   a handler makes of one query.
//! - [`websocket_retry_actor`] and [`websocket_actor`] are the two stream
//!   actors: one keeps the text of the latest frame and can be cancelled, the
//!   other keeps the best bid and offer decoded from it and subscribes to its
//!   feed when a session opens.
//! - [`simple_actor`] and [`actor_with_message`] are two small actors: one
//!   counts its wake-ups, the other takes messages until its mailbox closes.
//!
//! A driver of a stream actor starts with `initialize`, then does what the
//! directive says, reports the event with `handle_event`, sends the reply
//! where the step holds one, and goes on with the directive of the step until
//! that is `Stop`.

pub mod actor;
pub mod actor_with_message;
pub mod mailbox;
pub mod simple_actor;
pub mod websocket_actor;
pub mod websocket_retry_actor;
