//! The reconnecting stream actor as a state machine.
//!
//! The actor keeps a subscription to a push feed alive: it connects, follows
//! the stream, answers queries for the latest value from the state it owns,
//! reconnects when the stream is lost, and stops when it is cancelled. Here
//! that is a function from the state and one event to the next state and what
//! the driver has to do; the laws that the actor is known by are proved of it.

use crate::actor::signal_cancellation;
use crate::mailbox::Reply;
use tokio_util::sync::CancellationToken;
use vstd::prelude::*;

verus! {

/// Where the actor stands with its connection.
#[derive(Clone, Copy, Debug, PartialEq, Eq, Structural)]
pub enum ConnectionState {
    /// A connection attempt is due or under way.
    Connecting,
    /// A session is open: frames and queries are served.
    Streaming,
    /// An attempt failed after an earlier session: a new one is due after a delay.
    ReconnectPending,
    /// The actor has terminated.
    Stopped,
}

/// What the driver has to await next. It depends on the state alone.
#[derive(Clone, Copy, Debug, PartialEq, Eq, Structural)]
pub enum Directive {
    /// Drop the stream of the last session, attempt a connection, and report
    /// `Connected` or `ConnectFailed`.
    Connect,
    /// Race the next frame, the next command and cancellation, and report the winner.
    Poll,
    /// Race the delay of `RECONNECT_DELAY_MILLIS` and cancellation, and report
    /// the winner.
    Backoff,
    /// Leave the loop: the stream and whatever is still queued are dropped.
    Stop,
}

/// The delay between a failed reconnect attempt and the next one, in milliseconds.
pub const RECONNECT_DELAY_MILLIS: u64 = 1000;

/// What the driver reports to the actor. `V` is what a frame decodes to, `C`
/// a command from the mailbox.
pub enum StreamEvent<V, C> {
    /// The actor's task has started.
    Started,
    /// The connection attempt succeeded.
    Connected,
    /// The connection attempt failed.
    ConnectFailed,
    /// A text or data frame arrived, with what it decoded to, if it did.
    Text(Option<V>),
    /// A frame arrived that carries no data.
    Other,
    /// A close frame arrived, or the stream ended.
    Closed,
    /// Reading from the stream or writing to it failed.
    Failed,
    /// A command was taken from the mailbox.
    Command(C),
    /// The reconnect delay has passed.
    BackoffElapsed,
    /// Cancellation was signalled.
    Cancelled,
}

/// The state that the actor owns: where it stands, whether a session was ever
/// open, and the latest value decoded in the present session.
///
/// The value does not outlive its session: it is given up when the stream is
/// lost, and a new session starts without one.
pub struct StreamState<V> {
    pub connection: ConnectionState,
    pub connected_before: bool,
    pub latest: Option<V>,
}

/// What one event led to, before an answer is made up.
pub struct Transition<C> {
    /// The command, where it is to be answered with the latest value.
    pub command: Option<C>,
    /// Whether the event opened a session.
    pub session_started: bool,
    /// What the driver has to await next.
    pub directive: Directive,
}

/// What the actor asks of the driver after one event.
#[verifier::reject_recursive_types(T)]
pub struct Step<T> {
    /// The answer to send, where the event was a command that is answered.
    pub reply: Option<Reply<T>>,
    /// What the driver has to await next.
    pub directive: Directive,
}

/// The value of an answer that may be absent.
pub open spec fn value_in<T>(reply: Option<Reply<T>>) -> Option<Option<T>> {
    match reply {
        Some(reply) => Some(reply.value),
        None => None,
    }
}

/// The serialization of the URL that `url::Url::parse` makes of `input`, where
/// it makes one.
pub uninterp spec fn url_serialization(input: Seq<char>) -> Option<Seq<char>>;

/// The text of a string that may be absent.
pub open spec fn text_of(text: Option<String>) -> Option<Seq<char>> {
    match text {
        Some(text) => Some(text@),
        None => None,
    }
}

/// Calls `url::Url::parse` and hands out the serialization of the URL that it
/// made, or nothing where it refused the input. The parser reads its input
/// and nothing else, so the result has a name.
#[verifier::external_body]
pub(crate) fn parse_endpoint(input: &str) -> (target: Option<String>)
    ensures
        text_of(target) == url_serialization(input@),
{
    match url::Url::parse(input) {
        Ok(url) => Some(String::from(url)),
        Err(_) => None,
    }
}

/// Whether one step is a step of the reconnecting stream actor: the state
/// after it, the answer it draws and what the driver is told are what
/// `StreamState` says, with cancellation observed or not.
pub open spec fn conforms<V, C>(
    before: StreamState<V>,
    cancelled: bool,
    event: StreamEvent<V, C>,
    after: StreamState<V>,
    reply: Option<Option<V>>,
    directive: Directive,
) -> bool {
    &&& after == before.next(cancelled, event)
    &&& reply == before.answer(cancelled, event)
    &&& directive == directive_of(after.connection)
}

/// An actor that keeps a stream alive and answers queries for what it last
/// decoded from it.
///
/// Every implementation is held to `StreamState`: whatever its frames and
/// commands are, each step is a step of that machine, so that what is proved
/// of the machine holds of the actor. The cancellation signal is read at every
/// step, so a step conforms with cancellation observed or without.
pub trait WebSocketActor {
    /// What a text frame comes decoded to.
    type Frame;

    /// What the actor keeps of a frame and answers with.
    type Value;

    /// What the mailbox carries.
    type Command;

    /// What the actor asks of the driver after one event.
    type Step;

    /// The state that the actor owns.
    spec fn stream_state(&self) -> StreamState<Self::Value>;

    /// Where the actor connects to.
    spec fn endpoint_text(&self) -> Seq<char>;

    /// The event with its frame turned into the value that the actor keeps.
    spec fn value_event(event: StreamEvent<Self::Frame, Self::Command>) -> StreamEvent<
        Self::Value,
        Self::Command,
    >;

    /// The value that a step answers with, where it answers.
    spec fn reply_value(step: Self::Step) -> Option<Option<Self::Value>>;

    /// What a step tells the driver to await.
    spec fn step_directive(step: Self::Step) -> Directive;

    /// Starts the actor and says what the driver has to do first: to connect,
    /// or to leave where the actor is cancelled already.
    fn initialize(&mut self) -> (directive: Directive)
        ensures
            conforms(
                old(self).stream_state(),
                false,
                StreamEvent::<Self::Value, Self::Command>::Started,
                final(self).stream_state(),
                None,
                directive,
            ) || conforms(
                old(self).stream_state(),
                true,
                StreamEvent::<Self::Value, Self::Command>::Started,
                final(self).stream_state(),
                None,
                directive,
            ),
            final(self).endpoint_text() == old(self).endpoint_text(),
    ;

    /// Where to connect to: the endpoint as the URL parser writes it, or
    /// nothing where the endpoint is no URL.
    fn connect(&self) -> (target: Option<String>)
        ensures
            text_of(target) == url_serialization(self.endpoint_text()),
    ;

    /// Takes one event. The cancellation signal is read first, so that
    /// cancellation wins over whatever the event is.
    fn handle_event(&mut self, event: StreamEvent<Self::Frame, Self::Command>) -> (step: Self::Step)
        ensures
            conforms(
                old(self).stream_state(),
                false,
                Self::value_event(event),
                final(self).stream_state(),
                Self::reply_value(step),
                Self::step_directive(step),
            ) || conforms(
                old(self).stream_state(),
                true,
                Self::value_event(event),
                final(self).stream_state(),
                Self::reply_value(step),
                Self::step_directive(step),
            ),
            old(self).stream_state().valid() ==> final(self).stream_state().valid(),
            final(self).endpoint_text() == old(self).endpoint_text(),
    ;
}

/// The side of a reconnecting stream actor that the rest of the program holds.
pub trait WebsocketActorHandler {
    /// The actor's cancellation signal, where it can be stopped from outside.
    spec fn signal(&self) -> Option<CancellationToken>;

    /// A handle on the actor's cancellation signal, where it has one.
    fn get_cancellation_token(&self) -> (token: Option<CancellationToken>)
        ensures
            token == self.signal(),
    ;

    /// Asks the actor to stop, where it can be stopped. The request is not
    /// acknowledged, and may be repeated.
    fn stop(&self) {
        if let Some(token) = self.get_cancellation_token() {
            signal_cancellation(&token);
        }
    }
}

/// What the driver has to await in a given state.
pub open spec fn directive_of(connection: ConnectionState) -> Directive {
    match connection {
        ConnectionState::Connecting => Directive::Connect,
        ConnectionState::Streaming => Directive::Poll,
        ConnectionState::ReconnectPending => Directive::Backoff,
        ConnectionState::Stopped => Directive::Stop,
    }
}

impl ConnectionState {
    /// Hands out what the driver has to await in this state.
    pub fn directive(self) -> (directive: Directive)
        ensures
            directive == directive_of(self),
    {
        match self {
            ConnectionState::Connecting => Directive::Connect,
            ConnectionState::Streaming => Directive::Poll,
            ConnectionState::ReconnectPending => Directive::Backoff,
            ConnectionState::Stopped => Directive::Stop,
        }
    }
}

impl<V, C> StreamEvent<V, C> {
    /// Whether the event means that the stream is lost.
    pub open spec fn loses_stream(self) -> bool {
        self is Closed || self is Failed
    }
}

impl<V> StreamState<V> {
    /// The state of an actor that has not run yet.
    pub open spec fn initial() -> Self {
        StreamState { connection: ConnectionState::Connecting, connected_before: false, latest: None }
    }

    /// What holds of every state that the actor can reach: a value is held
    /// only while a session is open, and a session was open before if one is
    /// open or a reconnect is pending.
    pub open spec fn valid(self) -> bool {
        &&& self.latest is Some ==> self.connection is Streaming
        &&& self.connection is Streaming ==> self.connected_before
        &&& self.connection is ReconnectPending ==> self.connected_before
    }

    /// Whether the actor has terminated.
    pub open spec fn stopped(self) -> bool {
        self.connection is Stopped
    }

    /// Whether the event makes a running actor stop: cancellation was
    /// observed beside the event, or is the event itself.
    pub open spec fn halts<C>(cancelled: bool, event: StreamEvent<V, C>) -> bool {
        cancelled || event is Cancelled
    }

    /// The state after one event. `cancelled` says whether cancellation was
    /// observed when the event was taken.
    ///
    /// A stopped actor stays as it is. Cancellation stops a running actor,
    /// whatever the event. Otherwise a successful attempt opens a session
    /// without a value; a failed attempt is fatal before the first session and
    /// leads to a delayed retry after it; a decoded frame replaces the latest
    /// value; a lost stream ends the session and leads to a new attempt at
    /// once; the end of the delay leads to a new attempt. Every other event
    /// leaves the state as it is.
    pub open spec fn next<C>(self, cancelled: bool, event: StreamEvent<V, C>) -> Self {
        if self.connection is Stopped {
            self
        } else if Self::halts(cancelled, event) {
            StreamState { connection: ConnectionState::Stopped, latest: None, ..self }
        } else {
            match (self.connection, event) {
                (ConnectionState::Connecting, StreamEvent::Connected) => StreamState {
                    connection: ConnectionState::Streaming,
                    connected_before: true,
                    latest: None,
                },
                (ConnectionState::Connecting, StreamEvent::ConnectFailed) => if self.connected_before {
                    StreamState { connection: ConnectionState::ReconnectPending, ..self }
                } else {
                    StreamState { connection: ConnectionState::Stopped, latest: None, ..self }
                },
                (ConnectionState::Streaming, StreamEvent::Text(Some(value))) => StreamState {
                    latest: Some(value),
                    ..self
                },
                (ConnectionState::Streaming, StreamEvent::Closed) => StreamState {
                    connection: ConnectionState::Connecting,
                    latest: None,
                    ..self
                },
                (ConnectionState::Streaming, StreamEvent::Failed) => StreamState {
                    connection: ConnectionState::Connecting,
                    latest: None,
                    ..self
                },
                (ConnectionState::ReconnectPending, StreamEvent::BackoffElapsed) => StreamState {
                    connection: ConnectionState::Connecting,
                    ..self
                },
                _ => self,
            }
        }
    }

    /// Whether the event is a command that is answered: the actor is running
    /// and not cancelled.
    pub open spec fn answers<C>(self, cancelled: bool, event: StreamEvent<V, C>) -> bool {
        &&& !(self.connection is Stopped)
        &&& !Self::halts(cancelled, event)
        &&& event is Command
    }

    /// The answer that the event draws, if it draws one: the latest value as
    /// it stands when the command is taken.
    pub open spec fn answer<C>(self, cancelled: bool, event: StreamEvent<V, C>) -> Option<Option<V>> {
        if self.answers(cancelled, event) {
            Some(self.latest)
        } else {
            None
        }
    }

    /// Whether the event opens a session.
    pub open spec fn opens_session<C>(self, cancelled: bool, event: StreamEvent<V, C>) -> bool {
        &&& self.connection is Connecting
        &&& !Self::halts(cancelled, event)
        &&& event is Connected
    }

    /// Whether the event is the loss of the stream of an open session.
    pub open spec fn loses_session<C>(self, cancelled: bool, event: StreamEvent<V, C>) -> bool {
        &&& self.connection is Streaming
        &&& !Self::halts(cancelled, event)
        &&& event.loses_stream()
    }

    /// What the event led to, as `advance` reports it.
    pub open spec fn transition<C>(self, cancelled: bool, event: StreamEvent<V, C>) -> Transition<C> {
        Transition {
            command: if self.answers(cancelled, event) {
                Some(event->Command_0)
            } else {
                None
            },
            session_started: self.opens_session(cancelled, event),
            directive: directive_of(self.next(cancelled, event).connection),
        }
    }

    /// The state of an actor that has not run yet.
    pub fn new() -> (state: Self)
        ensures
            state == Self::initial(),
            state.valid(),
    {
        StreamState { connection: ConnectionState::Connecting, connected_before: false, latest: None }
    }

    /// Takes one event: the state becomes the next state, and the result says
    /// what is left to do. A command that is not answered is dropped with its
    /// reply channel, which closes it.
    pub fn advance<C>(&mut self, cancelled: bool, event: StreamEvent<V, C>) -> (transition: Transition<C>)
        ensures
            *final(self) == old(self).next(cancelled, event),
            transition == old(self).transition(cancelled, event),
            old(self).valid() ==> final(self).valid(),
    {
        let mut command: Option<C> = None;
        let mut session_started = false;
        match self.connection {
            ConnectionState::Stopped => {},
            ConnectionState::Connecting => {
                if cancelled {
                    self.halt();
                } else {
                    match event {
                        StreamEvent::Cancelled => {
                            self.halt();
                        },
                        StreamEvent::Connected => {
                            self.connection = ConnectionState::Streaming;
                            self.connected_before = true;
                            self.latest = None;
                            session_started = true;
                        },
                        StreamEvent::ConnectFailed => {
                            if self.connected_before {
                                self.connection = ConnectionState::ReconnectPending;
                            } else {
                                self.halt();
                            }
                        },
                        StreamEvent::Command(query) => {
                            command = Some(query);
                        },
                        _ => {},
                    }
                }
            },
            ConnectionState::Streaming => {
                if cancelled {
                    self.halt();
                } else {
                    match event {
                        StreamEvent::Cancelled => {
                            self.halt();
                        },
                        StreamEvent::Text(Some(value)) => {
                            self.latest = Some(value);
                        },
                        StreamEvent::Closed => {
                            self.connection = ConnectionState::Connecting;
                            self.latest = None;
                        },
                        StreamEvent::Failed => {
                            self.connection = ConnectionState::Connecting;
                            self.latest = None;
                        },
                        StreamEvent::Command(query) => {
                            command = Some(query);
                        },
                        _ => {},
                    }
                }
            },
            ConnectionState::ReconnectPending => {
                if cancelled {
                    self.halt();
                } else {
                    match event {
                        StreamEvent::Cancelled => {
                            self.halt();
                        },
                        StreamEvent::BackoffElapsed => {
                            self.connection = ConnectionState::Connecting;
                        },
                        StreamEvent::Command(query) => {
                            command = Some(query);
                        },
                        _ => {},
                    }
                }
            },
        }
        let directive = self.connection.directive();
        Transition { command, session_started, directive }
    }

    /// Terminates the actor: it holds no value any more.
    fn halt(&mut self)
        ensures
            *final(self) == (StreamState {
                connection: ConnectionState::Stopped,
                latest: None,
                ..*old(self)
            }),
    {
        self.connection = ConnectionState::Stopped;
        self.latest = None;
    }
}

} // verus!
