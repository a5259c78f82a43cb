//! The reconnecting stream actor that follows a best bid and offer feed, and
//! the messages that it exchanges with the feed.

use crate::actor::websocket_actor::{
    directive_of, parse_endpoint, value_in, ConnectionState, Directive, StreamEvent, StreamState,
};
use crate::actor::{Actor, ActorHandler};
use crate::mailbox::{reply_channel, QueryOutcome, Reply};
use rust_decimal::Decimal;
use tokio::sync::mpsc;
use tokio::sync::oneshot;
use tokio_util::sync::CancellationToken;
use vstd::prelude::*;
use vstd::std_specs::convert::FromSpecImpl;
use vstd::string::StringExecFns;

verus! {

/// `rust_decimal::Decimal`: a decimal number of the feed, carried as an opaque
/// value.
#[verifier::external_type_specification]
#[verifier::external_body]
pub struct ExDecimal(Decimal);

/// What the actor sends to the feed.
#[derive(Debug, PartialEq)]
pub enum ExchangeOutgoingMessage {
    /// Asks the feed for the channels named in `params`.
    Subscribe { id: i32, method: String, params: Vec<String> },
}

/// What the feed sends to the actor.
#[derive(Debug, PartialEq)]
pub enum ExchangeIncomingMessage {
    Update(Update),
}

/// An update of the feed as it is decoded from a frame.
#[derive(Debug, PartialEq)]
pub struct Update {
    pub symbol: Option<String>,
    pub best_bid_price: Option<Decimal>,
    pub best_ask_price: Option<Decimal>,
}

/// The best bid and offer of a symbol: what the actor keeps and answers with.
#[derive(Debug, PartialEq)]
pub struct Bbo {
    pub symbol: Option<String>,
    pub best_bid_price: Option<Decimal>,
    pub best_ask_price: Option<Decimal>,
}

impl Clone for Bbo {
    fn clone(&self) -> (copy: Self)
        ensures
            copy == *self,
    {
        let symbol = match &self.symbol {
            Some(symbol) => Some(symbol.clone()),
            None => None,
        };
        Bbo { symbol, best_bid_price: self.best_bid_price, best_ask_price: self.best_ask_price }
    }
}

/// The best bid and offer that an update stands for: its three fields as they are.
pub open spec fn bbo_of(update: Update) -> Bbo {
    Bbo {
        symbol: update.symbol,
        best_bid_price: update.best_bid_price,
        best_ask_price: update.best_ask_price,
    }
}

impl From<Update> for Bbo {
    fn from(value: Update) -> (bbo: Self) {
        Bbo {
            symbol: value.symbol,
            best_bid_price: value.best_bid_price,
            best_ask_price: value.best_ask_price,
        }
    }
}

impl FromSpecImpl<Update> for Bbo {
    open spec fn obeys_from_spec() -> bool {
        true
    }

    open spec fn from_spec(value: Update) -> Self {
        bbo_of(value)
    }
}

/// A command for the actor.
pub enum WebSocketActorMessage {
    /// Asks for the latest value, to be sent on `response`.
    Get { response: oneshot::Sender<Option<Bbo>> },
}

/// Where the actor connects to unless it is told otherwise.
pub const WS_ENDPOINT: &'static str = "wss://stream.binance.com:9443/ws";

/// The symbol that the actor follows.
pub const SYMBOL: &'static str = "btcusdt";

/// The stream of that symbol that the actor subscribes to.
pub const STREAM: &'static str = "@bookTicker";

/// The method of a subscription request.
pub const SUBSCRIBE: &'static str = "SUBSCRIBE";

/// What the driver reports to the actor: a text frame comes decoded.
pub type WebSocketEvent = StreamEvent<ExchangeIncomingMessage, WebSocketActorMessage>;

/// What the actor asks of the driver after one event.
pub struct WebSocketStep {
    /// The answer to send, where the event was a command that is answered.
    pub reply: Option<Reply<Bbo>>,
    /// The request to write to the stream, where the event opened a session.
    pub subscribe: Option<ExchangeOutgoingMessage>,
    /// What the driver has to await next.
    pub directive: Directive,
}

/// The value that a message of the feed stands for.
pub open spec fn value_of(message: ExchangeIncomingMessage) -> Bbo {
    match message {
        ExchangeIncomingMessage::Update(update) => bbo_of(update),
    }
}

/// The event with its frame turned into the value it stands for.
pub open spec fn value_event(event: WebSocketEvent) -> StreamEvent<Bbo, WebSocketActorMessage> {
    match event {
        StreamEvent::Started => StreamEvent::Started,
        StreamEvent::Connected => StreamEvent::Connected,
        StreamEvent::ConnectFailed => StreamEvent::ConnectFailed,
        StreamEvent::Text(Some(message)) => StreamEvent::Text(Some(value_of(message))),
        StreamEvent::Text(None) => StreamEvent::Text(None),
        StreamEvent::Other => StreamEvent::Other,
        StreamEvent::Closed => StreamEvent::Closed,
        StreamEvent::Failed => StreamEvent::Failed,
        StreamEvent::Command(command) => StreamEvent::Command(command),
        StreamEvent::BackoffElapsed => StreamEvent::BackoffElapsed,
        StreamEvent::Cancelled => StreamEvent::Cancelled,
    }
}

/// Whether `message` is the request for the one channel that the actor
/// follows: the first request of the connection, for the stream of the symbol.
pub open spec fn is_subscription(message: ExchangeOutgoingMessage) -> bool {
    &&& message matches ExchangeOutgoingMessage::Subscribe { id, method, params }
    &&& id == 1
    &&& method@ == SUBSCRIBE@
    &&& params@.len() == 1
    &&& params@[0]@ == SYMBOL@ + STREAM@
}

/// Turns a message of the feed into the value it stands for.
pub fn decode(message: ExchangeIncomingMessage) -> (value: Bbo)
    ensures
        value == value_of(message),
{
    match message {
        ExchangeIncomingMessage::Update(update) => Bbo::from(update),
    }
}

/// Turns the frame of an event into the value it stands for.
pub fn decode_event(event: WebSocketEvent) -> (decoded: StreamEvent<Bbo, WebSocketActorMessage>)
    ensures
        decoded == value_event(event),
{
    match event {
        StreamEvent::Started => StreamEvent::Started,
        StreamEvent::Connected => StreamEvent::Connected,
        StreamEvent::ConnectFailed => StreamEvent::ConnectFailed,
        StreamEvent::Text(Some(message)) => StreamEvent::Text(Some(decode(message))),
        StreamEvent::Text(None) => StreamEvent::Text(None),
        StreamEvent::Other => StreamEvent::Other,
        StreamEvent::Closed => StreamEvent::Closed,
        StreamEvent::Failed => StreamEvent::Failed,
        StreamEvent::Command(command) => StreamEvent::Command(command),
        StreamEvent::BackoffElapsed => StreamEvent::BackoffElapsed,
        StreamEvent::Cancelled => StreamEvent::Cancelled,
    }
}

/// The actor: its name, the receiving half of its mailbox, where it connects
/// to, and the state that it owns. It has no cancellation signal.
pub struct WebSocketActor {
    pub name: String,
    pub receiver: mpsc::Receiver<WebSocketActorMessage>,
    pub endpoint: String,
    pub stream: StreamState<Bbo>,
}

impl WebSocketActor {
    /// Whether `after` and `step` are what `event` leads to from `before`,
    /// with cancellation observed or not: the state follows
    /// `StreamState::next` on the decoded event, a command that is answered is
    /// answered on its own channel with the latest value, an event that opens
    /// a session draws the subscription request, and the rest of the actor
    /// stays as it is.
    pub open spec fn follows(
        before: Self,
        cancelled: bool,
        event: WebSocketEvent,
        after: Self,
        step: WebSocketStep,
    ) -> bool {
        &&& after.stream == before.stream.next(cancelled, value_event(event))
        &&& step.directive == directive_of(after.stream.connection)
        &&& step.reply is Some == before.stream.answers(cancelled, value_event(event))
        &&& step.reply matches Some(reply) ==> {
            &&& event matches StreamEvent::Command(WebSocketActorMessage::Get { response })
            &&& reply.response == response
            &&& reply.value == before.stream.latest
        }
        &&& step.subscribe is Some == before.stream.opens_session(cancelled, value_event(event))
        &&& step.subscribe matches Some(request) ==> is_subscription(request)
        &&& after.name == before.name
        &&& after.receiver == before.receiver
        &&& after.endpoint == before.endpoint
    }

    /// Makes the actor. It has not run yet: a first connection attempt is due.
    pub fn new(name: String, receiver: mpsc::Receiver<WebSocketActorMessage>) -> (actor: Self)
        ensures
            actor.name == name,
            actor.receiver == receiver,
            actor.endpoint@ == WS_ENDPOINT@,
            actor.stream == StreamState::<Bbo>::initial(),
            actor.stream.valid(),
    {
        WebSocketActor {
            name,
            receiver,
            endpoint: String::from_str(WS_ENDPOINT),
            stream: StreamState::new(),
        }
    }

    /// The same actor with another place to connect to.
    pub fn with_endpoint(self, endpoint: String) -> (actor: Self)
        ensures
            actor == (WebSocketActor { endpoint, ..self }),
    {
        WebSocketActor { endpoint, ..self }
    }

    /// Where the actor stands with its connection.
    pub fn connection(&self) -> (connection: ConnectionState)
        ensures
            connection == self.stream.connection,
    {
        self.stream.connection
    }

    /// A copy of the latest value.
    pub fn latest(&self) -> (value: Option<Bbo>)
        ensures
            value == self.stream.latest,
    {
        self.stream.latest.clone()
    }

    /// The request that the actor writes to the stream when a session opens.
    pub fn subscription() -> (request: ExchangeOutgoingMessage)
        ensures
            is_subscription(request),
    {
        let channel = String::from_str(SYMBOL).concat(STREAM);
        let mut params: Vec<String> = Vec::new();
        params.push(channel);
        ExchangeOutgoingMessage::Subscribe { id: 1, method: String::from_str(SUBSCRIBE), params }
    }

    /// Takes one event, with whether cancellation was observed beside it.
    pub fn step(&mut self, cancelled: bool, event: WebSocketEvent) -> (step: WebSocketStep)
        ensures
            Self::follows(*old(self), cancelled, event, *final(self), step),
            old(self).stream.valid() ==> final(self).stream.valid(),
    {
        let transition = self.stream.advance(cancelled, decode_event(event));
        let reply = match transition.command {
            Some(WebSocketActorMessage::Get { response }) => Some(
                Reply { response, value: self.stream.latest.clone() },
            ),
            None => None,
        };
        let subscribe = if transition.session_started {
            Some(Self::subscription())
        } else {
            None
        };
        WebSocketStep { reply, subscribe, directive: transition.directive }
    }
}

impl crate::actor::websocket_actor::WebSocketActor for WebSocketActor {
    type Frame = ExchangeIncomingMessage;

    type Value = Bbo;

    type Command = WebSocketActorMessage;

    type Step = WebSocketStep;

    open spec fn stream_state(&self) -> StreamState<Bbo> {
        self.stream
    }

    open spec fn endpoint_text(&self) -> Seq<char> {
        self.endpoint@
    }

    open spec fn value_event(event: WebSocketEvent) -> StreamEvent<Bbo, WebSocketActorMessage> {
        value_event(event)
    }

    open spec fn reply_value(step: WebSocketStep) -> Option<Option<Bbo>> {
        value_in(step.reply)
    }

    open spec fn step_directive(step: WebSocketStep) -> Directive {
        step.directive
    }

    /// The actor has no cancellation signal: it starts by connecting.
    fn initialize(&mut self) -> (directive: Directive)
        ensures
            *final(self) == *old(self),
            directive == directive_of(old(self).stream.connection),
    {
        let step = self.handle_event(StreamEvent::Started);
        step.directive
    }

    fn connect(&self) -> (target: Option<String>) {
        parse_endpoint(self.endpoint.as_str())
    }

    /// The actor has no cancellation signal: no cancellation is observed
    /// beside an event.
    fn handle_event(&mut self, event: WebSocketEvent) -> (step: WebSocketStep)
        ensures
            Self::follows(*old(self), false, event, *final(self), step),
    {
        self.step(false, event)
    }
}

impl Actor for WebSocketActor {
    type Event = WebSocketEvent;

    type Effect = WebSocketStep;

    open spec fn finished(&self) -> bool {
        self.stream.stopped()
    }

    open spec fn accepts(&self, event: WebSocketEvent) -> bool {
        true
    }

    fn is_finished(&self) -> (finished: bool) {
        self.stream.connection == ConnectionState::Stopped
    }

    /// Takes one event, as `handle_event` does.
    fn handle(&mut self, event: WebSocketEvent) -> (step: WebSocketStep)
        ensures
            Self::follows(*old(self), false, event, *final(self), step),
    {
        self.step(false, event)
    }
}

/// The handler: the sending half of the actor's mailbox.
pub struct WebSocketActorHandler {
    pub sender: mpsc::Sender<WebSocketActorMessage>,
}

impl Clone for WebSocketActorHandler {
    /// Another handler of the same actor: it sends into the same mailbox.
    fn clone(&self) -> (copy: Self) {
        WebSocketActorHandler { sender: self.sender.clone() }
    }
}

impl ActorHandler for WebSocketActorHandler {
    open spec fn signal(&self) -> Option<CancellationToken> {
        None
    }

    fn get_cancellation_token(&self) -> (token: Option<CancellationToken>) {
        let token = None;
        assert(token == self.signal());
        token
    }
}

impl WebSocketActorHandler {
    /// Makes the handler.
    pub fn new(sender: mpsc::Sender<WebSocketActorMessage>) -> (handler: Self)
        ensures
            handler.sender == sender,
    {
        WebSocketActorHandler { sender }
    }

    /// Makes a query on a fresh reply channel, as `query_with` packs it: the
    /// command to send into the mailbox, and the receiving half to await.
    pub fn request(&self) -> (query: (WebSocketActorMessage, oneshot::Receiver<Option<Bbo>>))
        ensures
            query.0 is Get,
    {
        let halves = reply_channel();
        Self::query_with(halves)
    }

    /// Packs the two halves of a reply channel into a query: the command asks
    /// for the answer on the sending half, and the receiving half is handed
    /// back as it is, for the caller to await.
    pub fn query_with(
        halves: (oneshot::Sender<Option<Bbo>>, oneshot::Receiver<Option<Bbo>>),
    ) -> (query: (WebSocketActorMessage, oneshot::Receiver<Option<Bbo>>))
        ensures
            query.0 == (WebSocketActorMessage::Get { response: halves.0 }),
            query.1 == halves.1,
    {
        (WebSocketActorMessage::Get { response: halves.0 }, halves.1)
    }

    /// What a query yields, given how it went: the actor's answer, or nothing
    /// where the mailbox or the reply channel was closed.
    pub fn get_bbo_data(&self, outcome: QueryOutcome<Bbo>) -> (data: Option<Bbo>)
        ensures
            data == outcome.value(),
    {
        outcome.resolve()
    }
}

} // verus!
