//! The reconnecting stream actor that keeps the text of the latest frame.

use crate::actor::cancellation_observed;
use crate::actor::websocket_actor::{
    directive_of, parse_endpoint, text_of, url_serialization, value_in, ConnectionState,
    Directive, Step, StreamEvent, StreamState, WebSocketActor, WebsocketActorHandler,
};
use crate::mailbox::{reply_channel, QueryOutcome, Reply};
use tokio::sync::mpsc;
use tokio::sync::oneshot;
use tokio_util::sync::CancellationToken;
use vstd::prelude::*;
use vstd::string::StringExecFns;

verus! {

/// A command for the actor.
pub enum WebSocketRetryActorMessage {
    /// Asks for the latest value, to be sent on `response`.
    Get { response: oneshot::Sender<Option<String>> },
}

/// Where the actor connects to unless it is told otherwise.
pub const WS_ENDPOINT: &'static str = "ws://127.0.0.1:8080/";

/// What the driver reports to the actor: a text frame stands for itself.
pub type RetryEvent = StreamEvent<String, WebSocketRetryActorMessage>;

/// The actor: its name, the receiving half of its mailbox, its cancellation
/// signal, where it connects to, and the state that it owns.
pub struct WebSocketRetryActor {
    pub name: String,
    pub receiver: mpsc::Receiver<WebSocketRetryActorMessage>,
    pub cancellation_token: CancellationToken,
    pub endpoint: String,
    pub stream: StreamState<String>,
}

impl WebSocketRetryActor {
    /// Whether `after` and `step` are what `event` leads to from `before`,
    /// with cancellation observed or not: the state follows
    /// `StreamState::next`, a command that is answered is answered on its own
    /// channel with the latest value, no other event draws a reply, and the
    /// rest of the actor stays as it is.
    pub open spec fn follows(
        before: Self,
        cancelled: bool,
        event: RetryEvent,
        after: Self,
        step: Step<String>,
    ) -> bool {
        &&& after.stream == before.stream.next(cancelled, event)
        &&& step.directive == directive_of(after.stream.connection)
        &&& step.reply is Some == before.stream.answers(cancelled, event)
        &&& step.reply matches Some(reply) ==> {
            &&& event matches StreamEvent::Command(WebSocketRetryActorMessage::Get { response })
            &&& reply.response == response
            &&& reply.value == before.stream.latest
        }
        &&& after.name == before.name
        &&& after.receiver == before.receiver
        &&& after.cancellation_token == before.cancellation_token
        &&& after.endpoint == before.endpoint
    }

    /// Makes the actor. It has not run yet: a first connection attempt is due.
    pub fn new(
        name: String,
        receiver: mpsc::Receiver<WebSocketRetryActorMessage>,
        cancellation_token: CancellationToken,
    ) -> (actor: Self)
        ensures
            actor.name == name,
            actor.receiver == receiver,
            actor.cancellation_token == cancellation_token,
            actor.endpoint@ == WS_ENDPOINT@,
            actor.stream == StreamState::<String>::initial(),
            actor.stream.valid(),
    {
        WebSocketRetryActor {
            name,
            receiver,
            cancellation_token,
            endpoint: String::from_str(WS_ENDPOINT),
            stream: StreamState::new(),
        }
    }

    /// The same actor with another place to connect to.
    pub fn with_endpoint(self, endpoint: String) -> (actor: Self)
        ensures
            actor == (WebSocketRetryActor { endpoint, ..self }),
    {
        WebSocketRetryActor { endpoint, ..self }
    }

    /// Where the actor stands with its connection.
    pub fn connection(&self) -> (connection: ConnectionState)
        ensures
            connection == self.stream.connection,
    {
        self.stream.connection
    }

    /// A copy of the latest value.
    pub fn latest(&self) -> (value: Option<String>)
        ensures
            value == self.stream.latest,
    {
        self.stream.latest.clone()
    }

    /// Takes one event, with whether cancellation was observed beside it.
    pub fn step(&mut self, cancelled: bool, event: RetryEvent) -> (step: Step<String>)
        ensures
            Self::follows(*old(self), cancelled, event, *final(self), step),
            old(self).stream.valid() ==> final(self).stream.valid(),
    {
        let transition = self.stream.advance(cancelled, event);
        let reply = match transition.command {
            Some(WebSocketRetryActorMessage::Get { response }) => Some(
                Reply { response, value: self.stream.latest.clone() },
            ),
            None => None,
        };
        Step { reply, directive: transition.directive }
    }
}

impl WebSocketActor for WebSocketRetryActor {
    type Frame = String;

    type Value = String;

    type Command = WebSocketRetryActorMessage;

    type Step = Step<String>;

    open spec fn stream_state(&self) -> StreamState<String> {
        self.stream
    }

    open spec fn endpoint_text(&self) -> Seq<char> {
        self.endpoint@
    }

    open spec fn value_event(event: RetryEvent) -> RetryEvent {
        event
    }

    open spec fn reply_value(step: Step<String>) -> Option<Option<String>> {
        value_in(step.reply)
    }

    open spec fn step_directive(step: Step<String>) -> Directive {
        step.directive
    }

    fn initialize(&mut self) -> (directive: Directive)
        ensures
            final(self).name == old(self).name,
            final(self).receiver == old(self).receiver,
            final(self).cancellation_token == old(self).cancellation_token,
    {
        let step = self.handle_event(StreamEvent::Started);
        step.directive
    }

    fn connect(&self) -> (target: Option<String>) {
        parse_endpoint(self.endpoint.as_str())
    }

    fn handle_event(&mut self, event: RetryEvent) -> (step: Step<String>)
        ensures
            Self::follows(*old(self), false, event, *final(self), step) || Self::follows(
                *old(self),
                true,
                event,
                *final(self),
                step,
            ),
    {
        let cancelled = cancellation_observed(&self.cancellation_token);
        self.step(cancelled, event)
    }
}

/// The handler: the sending half of the actor's mailbox and a handle on its
/// cancellation signal.
pub struct WebSocketRetryActorHandler {
    pub sender: mpsc::Sender<WebSocketRetryActorMessage>,
    pub cancellation_token: CancellationToken,
}

impl Clone for WebSocketRetryActorHandler {
    /// Another handler of the same actor: it sends into the same mailbox and
    /// stops the same actor.
    fn clone(&self) -> (copy: Self)
        ensures
            copy.cancellation_token == self.cancellation_token,
    {
        WebSocketRetryActorHandler {
            sender: self.sender.clone(),
            cancellation_token: self.cancellation_token.clone(),
        }
    }
}

impl WebsocketActorHandler for WebSocketRetryActorHandler {
    open spec fn signal(&self) -> Option<CancellationToken> {
        Some(self.cancellation_token)
    }

    fn get_cancellation_token(&self) -> (token: Option<CancellationToken>) {
        let token = Some(self.cancellation_token.clone());
        assert(token == self.signal());
        token
    }
}

impl WebSocketRetryActorHandler {
    /// Makes the handler.
    pub fn new(
        sender: mpsc::Sender<WebSocketRetryActorMessage>,
        cancellation_token: CancellationToken,
    ) -> (handler: Self)
        ensures
            handler.sender == sender,
            handler.cancellation_token == cancellation_token,
    {
        WebSocketRetryActorHandler { sender, cancellation_token }
    }

    /// Makes a query on a fresh reply channel, as `query_with` packs it: the
    /// command to send into the mailbox, and the receiving half to await.
    pub fn request(&self) -> (query: (
        WebSocketRetryActorMessage,
        oneshot::Receiver<Option<String>>,
    ))
        ensures
            query.0 is Get,
    {
        let halves = reply_channel();
        Self::query_with(halves)
    }

    /// Packs the two halves of a reply channel into a query: the command asks
    /// for the answer on the sending half, and the receiving half is handed
    /// back as it is, for the caller to await.
    pub fn query_with(
        halves: (oneshot::Sender<Option<String>>, oneshot::Receiver<Option<String>>),
    ) -> (query: (WebSocketRetryActorMessage, oneshot::Receiver<Option<String>>))
        ensures
            query.0 == (WebSocketRetryActorMessage::Get { response: halves.0 }),
            query.1 == halves.1,
    {
        (WebSocketRetryActorMessage::Get { response: halves.0 }, halves.1)
    }

    /// What a query yields, given how it went: the actor's answer, or nothing
    /// where the mailbox or the reply channel was closed.
    pub fn get_data(&self, outcome: QueryOutcome<String>) -> (data: Option<String>)
        ensures
            data == outcome.value(),
    {
        outcome.resolve()
    }
}

} // verus!
