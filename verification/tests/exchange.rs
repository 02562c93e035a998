use worker::error::TransportError;
use worker::exchange::{
    register_node, send_heartbeat, send_load_update, Exchange, ExchangeAction, ExchangeEvent,
    REPLY_LIMIT,
};
use worker::identity::NodeIdentity;
use worker::load::LoadState;
use worker::message::{CoordinatorAck, OutboundMessage};

fn fresh() -> Exchange {
    Exchange::start("master:8081".to_string(), "{}".to_string())
}

fn reading() -> Exchange {
    fresh()
        .step(ExchangeEvent::Connected)
        .step(ExchangeEvent::Written)
        .step(ExchangeEvent::Closed)
}

fn ok(status: &str) -> Option<Result<CoordinatorAck, TransportError>> {
    Some(Ok(CoordinatorAck { status: status.to_string() }))
}

#[test]
fn registration_is_delivered_and_acknowledged() {
    let identity = NodeIdentity::with_id("abc".to_string());
    let mut exchange = register_node(&identity).unwrap();
    assert_eq!(exchange.endpoint(), "master:8081");
    assert_eq!(
        exchange.payload(),
        r#"{"type":"register","id":"abc","address":"0.0.0.0","port":9000}"#
    );
    let mut actions = Vec::new();
    for _ in 0..10 {
        let action = exchange.action();
        actions.push(action);
        let event = match action {
            ExchangeAction::Connect => ExchangeEvent::Connected,
            ExchangeAction::Write => ExchangeEvent::Written,
            ExchangeAction::Shutdown => ExchangeEvent::Closed,
            ExchangeAction::Read => ExchangeEvent::Received(br#"{"status":"ok"}"#.to_vec()),
            ExchangeAction::Finish => break,
        };
        exchange = exchange.step(event);
    }
    assert_eq!(
        actions,
        vec![
            ExchangeAction::Connect,
            ExchangeAction::Write,
            ExchangeAction::Shutdown,
            ExchangeAction::Read,
            ExchangeAction::Finish,
        ]
    );
    assert_eq!(exchange.outcome(), ok("ok"));
}

#[test]
fn coordinator_that_closes_without_a_reply_gives_an_empty_reply_error() {
    let exchange = reading().step(ExchangeEvent::Received(Vec::new()));
    assert_eq!(exchange.action(), ExchangeAction::Finish);
    assert_eq!(exchange.outcome(), Some(Err(TransportError::EmptyReply)));
}

#[test]
fn failure_is_reported_as_the_step_that_failed() {
    let at_connect = fresh().step(ExchangeEvent::Failed);
    assert_eq!(at_connect.action(), ExchangeAction::Finish);
    assert_eq!(at_connect.outcome(), Some(Err(TransportError::Connect)));
    let at_write = fresh().step(ExchangeEvent::Connected).step(ExchangeEvent::Failed);
    assert_eq!(at_write.outcome(), Some(Err(TransportError::Write)));
    let at_shutdown = fresh()
        .step(ExchangeEvent::Connected)
        .step(ExchangeEvent::Written)
        .step(ExchangeEvent::Failed);
    assert_eq!(at_shutdown.outcome(), Some(Err(TransportError::Shutdown)));
    let at_read = reading().step(ExchangeEvent::Failed);
    assert_eq!(at_read.outcome(), Some(Err(TransportError::Read)));
}

#[test]
fn malformed_reply_is_reported() {
    let exchange = reading().step(ExchangeEvent::Received(b"welcome".to_vec()));
    assert_eq!(exchange.outcome(), Some(Err(TransportError::MalformedReply)));
    let exchange = reading().step(ExchangeEvent::Received(br#"{"status":1}"#.to_vec()));
    assert_eq!(exchange.outcome(), Some(Err(TransportError::MalformedReply)));
}

#[test]
fn running_exchange_has_no_outcome() {
    assert_eq!(fresh().outcome(), None);
    assert_eq!(fresh().step(ExchangeEvent::Connected).outcome(), None);
    assert_eq!(reading().outcome(), None);
    assert_eq!(reading().action(), ExchangeAction::Read);
}

#[test]
fn finished_exchange_is_never_retried() {
    let done = fresh().step(ExchangeEvent::Failed);
    let again = fresh()
        .step(ExchangeEvent::Failed)
        .step(ExchangeEvent::Connected)
        .step(ExchangeEvent::Written)
        .step(ExchangeEvent::Closed)
        .step(ExchangeEvent::Received(br#"{"status":"ok"}"#.to_vec()))
        .step(ExchangeEvent::Failed);
    assert_eq!(again, done);
    assert_eq!(again.outcome(), Some(Err(TransportError::Connect)));
}

#[test]
fn events_out_of_order_are_ignored() {
    assert_eq!(fresh().step(ExchangeEvent::Written), fresh());
    assert_eq!(fresh().step(ExchangeEvent::Closed), fresh());
    assert_eq!(fresh().step(ExchangeEvent::Received(b"{}".to_vec())), fresh());
    assert_eq!(reading().step(ExchangeEvent::Connected), reading());
    assert_eq!(reading().step(ExchangeEvent::Written), reading());
}

#[test]
fn reply_is_cut_at_the_limit() {
    assert_eq!(REPLY_LIMIT, 1024);
    let mut padded = br#"{"status":"ok"}"#.to_vec();
    padded.resize(1024, b' ');
    assert_eq!(reading().step(ExchangeEvent::Received(padded.clone())).outcome(), ok("ok"));
    padded.extend_from_slice(b"garbage beyond the limit");
    assert_eq!(reading().step(ExchangeEvent::Received(padded)).outcome(), ok("ok"));
    let mut late = vec![b' '; 1020];
    late.extend_from_slice(br#"{"status":"ok"}"#);
    assert_eq!(
        reading().step(ExchangeEvent::Received(late)).outcome(),
        Some(Err(TransportError::MalformedReply))
    );
}

#[test]
fn heartbeat_exchange_carries_the_heartbeat() {
    let identity = NodeIdentity::new("n1".to_string(), 9100, "coordinator.local".to_string(), 7000);
    let exchange = send_heartbeat(&identity).unwrap();
    assert_eq!(exchange.endpoint(), "coordinator.local:7000");
    assert_eq!(exchange.payload(), r#"{"type":"heartbeat","id":"n1"}"#);
    assert_eq!(exchange.action(), ExchangeAction::Connect);
}

#[test]
fn load_update_exchange_carries_the_current_load() {
    let identity = NodeIdentity::with_id("n1".to_string());
    let mut state = LoadState::new();
    assert_eq!(
        send_load_update(&identity, &state).unwrap().payload(),
        r#"{"type":"load_update","id":"n1","load":0}"#
    );
    state.write(73);
    let exchange = send_load_update(&identity, &state).unwrap();
    assert_eq!(exchange.endpoint(), "master:8081");
    assert_eq!(exchange.payload(), r#"{"type":"load_update","id":"n1","load":73}"#);
}

#[test]
fn opened_exchange_matches_a_started_one() {
    let identity = NodeIdentity::with_id("abc".to_string());
    let message = OutboundMessage::heartbeat(&identity);
    let opened = Exchange::open(&identity, &message).unwrap();
    let started = Exchange::start("master:8081".to_string(), message.encode().unwrap());
    assert_eq!(opened, started);
}
