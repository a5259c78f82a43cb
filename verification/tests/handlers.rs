use stream_actor::actor::websocket_actor::{Directive, StreamEvent};
use stream_actor::actor::{Actor, ActorHandler};
use stream_actor::actor_with_message::{ActorMessage, ActorWithMessage, ActorWithMessageHandler};
use stream_actor::mailbox::QueryOutcome;
use stream_actor::simple_actor::{Progress, SimpleActor, SimpleActorHandler, Wakeup};
use stream_actor::websocket_actor::{
    decode, Bbo, ExchangeIncomingMessage, Update, WebSocketActor, WebSocketActorHandler,
};
use rust_decimal::Decimal;
use tokio::sync::mpsc;
use tokio_util::sync::CancellationToken;

#[test]
fn query_outcome_resolves_to_the_answer_or_nothing() {
    assert_eq!(QueryOutcome::Replied(Some(5)).resolve(), Some(5));
    assert_eq!(QueryOutcome::<u32>::Replied(None).resolve(), None);
    assert_eq!(QueryOutcome::<u32>::MailboxClosed.resolve(), None);
    assert_eq!(QueryOutcome::<u32>::ReplyDropped.resolve(), None);
}

#[test]
fn update_becomes_bbo_field_by_field() {
    let update = Update {
        symbol: Some("BTCUSD".to_string()),
        best_bid_price: Some(Decimal::new(1001, 1)),
        best_ask_price: None,
    };
    let bbo = Bbo::from(update);
    assert_eq!(
        bbo,
        Bbo {
            symbol: Some("BTCUSD".to_string()),
            best_bid_price: Some(Decimal::new(1001, 1)),
            best_ask_price: None,
        }
    );
    let copy = bbo.clone();
    assert_eq!(copy, bbo);

    let empty = Update { symbol: None, best_bid_price: None, best_ask_price: None };
    assert_eq!(
        decode(ExchangeIncomingMessage::Update(empty)),
        Bbo { symbol: None, best_bid_price: None, best_ask_price: None }
    );
}

#[test]
fn simple_actor_counts_its_wakeups() {
    let mut actor = SimpleActor::new("simple".to_string(), CancellationToken::new());
    assert_eq!(actor.state, 0);
    assert_eq!(actor.name, "simple");
    assert!(!actor.is_finished());
    assert_eq!(actor.handle(Wakeup::Tick), Progress::Counted(1));
    assert_eq!(actor.handle(Wakeup::Tick), Progress::Counted(2));
    assert_eq!(actor.handle(Wakeup::Tick), Progress::Counted(3));
    assert_eq!(actor.state, 3);
    assert!(!actor.is_finished());
}

#[test]
fn simple_actor_stops_when_it_is_cancelled() {
    let mut actor = SimpleActor::new("simple".to_string(), CancellationToken::new());
    assert_eq!(actor.handle(Wakeup::Tick), Progress::Counted(1));
    assert_eq!(actor.handle(Wakeup::Cancelled), Progress::Cancelled);
    assert!(actor.is_finished());
    assert_eq!(actor.state, 2);
    assert_eq!(actor.handle(Wakeup::Tick), Progress::Cancelled);
    assert_eq!(actor.handle(Wakeup::Cancelled), Progress::Cancelled);
    assert_eq!(actor.state, 2);
    assert!(actor.is_finished());
}

#[test]
fn simple_actor_counts_up_to_the_largest_count() {
    let mut actor = SimpleActor::new("simple".to_string(), CancellationToken::new());
    actor.state = u32::MAX - 1;
    assert_eq!(actor.handle(Wakeup::Tick), Progress::Counted(u32::MAX));
    assert_eq!(actor.state, u32::MAX);
}

#[test]
fn simple_actor_handler_stops_its_actor() {
    let token = CancellationToken::new();
    let actor = SimpleActor::new("simple".to_string(), token.clone());
    let handler = SimpleActorHandler::new(token.clone());
    let handle = handler.get_cancellation_token().expect("the actor can be stopped");
    assert!(handle == token);
    assert!(!actor.cancellation_token.is_cancelled());
    handler.stop();
    assert!(actor.cancellation_token.is_cancelled());
    handler.stop();
    assert!(actor.cancellation_token.is_cancelled());
}

#[test]
fn actor_with_message_reports_messages_until_the_mailbox_closes() {
    let (sender, receiver) = mpsc::channel(4);
    let handler = ActorWithMessageHandler::new(sender);
    let mut actor = ActorWithMessage::new("messages".to_string(), receiver);
    assert_eq!(actor.name, "messages");
    assert!(!actor.is_finished());

    assert!(handler.clone().sender.try_send(ActorMessage::Get { value: 1 }).is_ok());
    assert!(handler.sender.try_send(ActorMessage::Get { value: 2 }).is_ok());
    let first = actor.receiver.try_recv().ok();
    assert_eq!(actor.handle(first), Some(ActorMessage::Get { value: 1 }));
    let second = actor.receiver.try_recv().ok();
    assert_eq!(actor.handle(second), Some(ActorMessage::Get { value: 2 }));
    assert!(!actor.is_finished());

    drop(handler);
    let end = actor.receiver.try_recv().ok();
    assert_eq!(end, None);
    assert_eq!(actor.handle(end), None);
    assert!(actor.is_finished());
    assert_eq!(actor.handle(Some(ActorMessage::Get { value: 3 })), None);
    assert!(actor.is_finished());
}

#[test]
fn handlers_without_a_signal_cannot_stop_their_actor() {
    let (sender, _receiver) = mpsc::channel::<ActorMessage>(1);
    let handler = ActorWithMessageHandler::new(sender);
    assert!(handler.get_cancellation_token().is_none());
    handler.stop();

    let (sender, _receiver) = mpsc::channel(1);
    let handler = WebSocketActorHandler::new(sender);
    assert!(handler.get_cancellation_token().is_none());
    handler.stop();
    assert_eq!(handler.get_bbo_data(QueryOutcome::MailboxClosed), None);
    assert_eq!(handler.get_bbo_data(QueryOutcome::ReplyDropped), None);
    assert_eq!(handler.get_bbo_data(QueryOutcome::Replied(None)), None);
    let quote = Bbo { symbol: Some("X".to_string()), best_bid_price: None, best_ask_price: None };
    assert_eq!(handler.get_bbo_data(QueryOutcome::Replied(Some(quote.clone()))), Some(quote));
}

#[test]
fn bbo_actor_is_an_actor_that_finishes_when_it_stops() {
    let (_sender, receiver) = mpsc::channel(1);
    let mut actor = WebSocketActor::new("bbo".to_string(), receiver);
    assert!(!actor.is_finished());
    let step = actor.handle(StreamEvent::Connected);
    assert_eq!(step.directive, Directive::Poll);
    assert_eq!(step.subscribe, Some(WebSocketActor::subscription()));
    assert!(!actor.is_finished());
    let step = actor.handle(StreamEvent::Cancelled);
    assert_eq!(step.directive, Directive::Stop);
    assert!(actor.is_finished());
    let step = actor.handle(StreamEvent::Connected);
    assert_eq!(step.directive, Directive::Stop);
    assert!(step.subscribe.is_none());
    assert!(actor.is_finished());
}
