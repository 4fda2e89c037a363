use public_data_streaming::client::{
    DynamicWebSocket, InboundFrame, PendingRequest, Reaction, WebSocketCommand,
};
use public_data_streaming::wire::{Method, OutboundRequest};

fn sorted(mut v: Vec<String>) -> Vec<String> {
    v.sort();
    v
}

fn desired(c: &DynamicWebSocket) -> Vec<String> {
    sorted(c.list_local_subscriptions().0)
}

fn active(c: &DynamicWebSocket) -> Vec<String> {
    sorted(c.list_local_subscriptions().1)
}

fn sent(r: Reaction) -> OutboundRequest {
    match r {
        Reaction::Send(q) => q,
        other => panic!("expected a request, got {:?}", other),
    }
}

fn text(s: &str) -> Option<InboundFrame> {
    Some(InboundFrame::Text(s.to_string()))
}

fn connected_eth() -> DynamicWebSocket {
    let mut c = DynamicWebSocket::new(false, vec!["ethusdt@trade".to_string()]);
    let q = c.on_connected().expect("a resync request");
    assert_eq!(q.text(), r#"{"method":"SUBSCRIBE","params":["ethusdt@trade"],"id":1}"#);
    c
}

#[test]
fn scenario_connect_subscribes_initial_topic() {
    let mut c = connected_eth();
    assert!(active(&c).is_empty());
    let r = c.handle_message(text(r#"{"result":null,"id":1}"#));
    assert!(matches!(r, Reaction::Resolved(_, Some(PendingRequest::Subscribe(_)))));
    assert_eq!(active(&c), vec!["ethusdt@trade".to_string()]);
    assert_eq!(c.message_count(), 1);
}

#[test]
fn scenario_addsub_sends_request() {
    let mut c = connected_eth();
    c.handle_message(text(r#"{"result":null,"id":1}"#));
    let q = sent(c.handle_command(Some(WebSocketCommand::Subscribe("btcusdt@trade".to_string()))));
    assert_eq!(q.text(), r#"{"method":"SUBSCRIBE","params":["btcusdt@trade"],"id":2}"#);
    assert_eq!(desired(&c), vec!["btcusdt@trade".to_string(), "ethusdt@trade".to_string()]);
}

#[test]
fn scenario_rejected_subscribe_reverts_desired() {
    let mut c = connected_eth();
    c.handle_message(text(r#"{"result":null,"id":1}"#));
    sent(c.handle_command(Some(WebSocketCommand::Subscribe("btcusdt@trade".to_string()))));
    let r = c.handle_message(text(r#"{"error":{"code":-1,"msg":"x"},"id":2}"#));
    match r {
        Reaction::Resolved(resp, Some(PendingRequest::Subscribe(ts))) => {
            assert!(resp.failed);
            assert_eq!(resp.id, Some(2));
            assert_eq!(ts, vec!["btcusdt@trade".to_string()]);
        },
        other => panic!("unexpected {:?}", other),
    }
    assert_eq!(desired(&c), vec!["ethusdt@trade".to_string()]);
    assert_eq!(active(&c), vec!["ethusdt@trade".to_string()]);
}

#[test]
fn scenario_reconnect_replays_desired_with_fresh_id() {
    let mut c = connected_eth();
    c.handle_message(text(r#"{"result":null,"id":1}"#));
    sent(c.handle_command(Some(WebSocketCommand::Subscribe("btcusdt@trade".to_string()))));
    assert!(matches!(c.handle_message(Some(InboundFrame::Failed)), Reaction::Stop));
    assert!(!c.shutdown_requested());
    let q = c.on_connected().expect("a resync request");
    assert_eq!(q.method, Method::Subscribe);
    assert_eq!(q.id, 3);
    assert_eq!(sorted(q.topics.clone()), vec!["btcusdt@trade".to_string(), "ethusdt@trade".to_string()]);
    assert!(active(&c).is_empty());
    assert_eq!(c.message_count(), 0);
}

#[test]
fn scenario_delsub_confirmed_removes_active() {
    let mut c = connected_eth();
    c.handle_message(text(r#"{"result":null,"id":1}"#));
    let q = sent(c.handle_command(Some(WebSocketCommand::Unsubscribe("ethusdt@trade".to_string()))));
    assert_eq!(q.text(), r#"{"method":"UNSUBSCRIBE","params":["ethusdt@trade"],"id":2}"#);
    assert!(desired(&c).is_empty());
    assert_eq!(active(&c), vec!["ethusdt@trade".to_string()]);
    c.handle_message(text(r#"{"result":null,"id":2}"#));
    assert!(active(&c).is_empty());
}

#[test]
fn subscribe_twice_sends_one_request() {
    let mut c = connected_eth();
    let q = sent(c.handle_command(Some(WebSocketCommand::Subscribe("btcusdt@trade".to_string()))));
    assert_eq!(q.topics, vec!["btcusdt@trade".to_string()]);
    let r = c.handle_command(Some(WebSocketCommand::Subscribe(" BTCUSDT@trade".to_string())));
    match r {
        Reaction::AlreadyRequested(t) => assert_eq!(t, "btcusdt@trade"),
        other => panic!("unexpected {:?}", other),
    }
}

#[test]
fn rejected_unsubscribe_restores_desired() {
    let mut c = connected_eth();
    c.handle_message(text(r#"{"result":null,"id":1}"#));
    let q = sent(c.handle_command(Some(WebSocketCommand::Unsubscribe("ethusdt@trade".to_string()))));
    let reply = format!(r#"{{"error":{{"code":-1,"msg":"no"}},"id":{}}}"#, q.id);
    c.handle_message(text(&reply));
    assert_eq!(desired(&c), vec!["ethusdt@trade".to_string()]);
    assert_eq!(active(&c), vec!["ethusdt@trade".to_string()]);
}

#[test]
fn reconnect_clears_active_and_resubscribes_all() {
    let mut c = DynamicWebSocket::new(true, vec!["a@trade".to_string(), "B@trade".to_string()]);
    let q = c.on_connected().unwrap();
    c.handle_message(text(&format!(r#"{{"result":null,"id":{}}}"#, q.id)));
    assert_eq!(active(&c), vec!["a@trade".to_string(), "b@trade".to_string()]);
    let q2 = c.on_connected().unwrap();
    assert!(active(&c).is_empty());
    assert_eq!(q2.method, Method::Subscribe);
    assert_eq!(sorted(q2.topics.clone()), vec!["a@trade".to_string(), "b@trade".to_string()]);
    assert!(q2.id > q.id);
}

#[test]
fn request_ids_strictly_increase() {
    let mut c = connected_eth();
    let mut ids = vec![];
    for cmd in [
        WebSocketCommand::Subscribe("x@trade".to_string()),
        WebSocketCommand::ListServer,
        WebSocketCommand::Unsubscribe("x@trade".to_string()),
        WebSocketCommand::Subscribe("y@trade".to_string()),
        WebSocketCommand::ListServer,
    ] {
        ids.push(sent(c.handle_command(Some(cmd))).id);
    }
    assert_eq!(ids, vec![2, 3, 4, 5, 6]);
}

#[test]
fn empty_desired_set_sends_no_resync() {
    let mut c = DynamicWebSocket::new(false, vec![]);
    assert!(c.on_connected().is_none());
    assert!(c.ids_left());
}

#[test]
fn initial_topics_are_lowercased_and_deduplicated() {
    let c = DynamicWebSocket::new(false, vec!["ETHUSDT@trade".to_string(), " ethusdt@trade ".to_string()]);
    assert_eq!(desired(&c), vec!["ethusdt@trade".to_string()]);
    assert_eq!(c.ws_url(), "wss://stream.binance.com:9443/ws");
    let t = DynamicWebSocket::new(true, vec![]);
    assert_eq!(t.ws_url(), "wss://testnet.binance.vision/ws");
}

#[test]
fn unsubscribe_of_unknown_topic_is_noop() {
    let mut c = connected_eth();
    match c.handle_command(Some(WebSocketCommand::Unsubscribe("zzz@trade".to_string()))) {
        Reaction::NotDesired(t) => assert_eq!(t, "zzz@trade"),
        other => panic!("unexpected {:?}", other),
    }
    assert_eq!(desired(&c), vec!["ethusdt@trade".to_string()]);
}

#[test]
fn list_server_request_and_reply() {
    let mut c = connected_eth();
    let q = sent(c.handle_command(Some(WebSocketCommand::ListServer)));
    assert_eq!(q.text(), r#"{"method":"LIST_SUBSCRIPTIONS","id":2}"#);
    let r = c.handle_message(text(r#"{"result":["ethusdt@trade",7,"btcusdt@trade"],"id":2}"#));
    match r {
        Reaction::Resolved(resp, Some(PendingRequest::ListServer)) => {
            assert!(!resp.failed);
            assert_eq!(resp.listed, vec!["ethusdt@trade".to_string(), "btcusdt@trade".to_string()]);
        },
        other => panic!("unexpected {:?}", other),
    }
    assert!(active(&c).is_empty());
}

#[test]
fn unknown_response_id_is_ignored() {
    let mut c = connected_eth();
    let r = c.handle_message(text(r#"{"result":null,"id":99}"#));
    assert!(matches!(r, Reaction::Resolved(_, None)));
    let r = c.handle_message(text(r#"{"result":null,"id":"abc"}"#));
    match r {
        Reaction::Resolved(resp, None) => assert_eq!(resp.id, None),
        other => panic!("unexpected {:?}", other),
    }
    assert!(active(&c).is_empty());
}

#[test]
fn malformed_and_event_frames() {
    let mut c = connected_eth();
    assert!(matches!(c.handle_message(text("not json")), Reaction::Malformed));
    assert!(matches!(c.handle_message(text(r#"{"e":"trade","s":"ETHUSDT"}"#)), Reaction::Event));
    assert_eq!(c.message_count(), 2);
}

#[test]
fn control_frames() {
    let mut c = connected_eth();
    match c.handle_message(Some(InboundFrame::Ping(vec![1, 2, 3]))) {
        Reaction::Pong(p) => assert_eq!(p, vec![1, 2, 3]),
        other => panic!("unexpected {:?}", other),
    }
    assert!(matches!(c.handle_message(Some(InboundFrame::Pong(vec![]))), Reaction::Idle));
    assert!(matches!(c.handle_message(Some(InboundFrame::Close)), Reaction::Stop));
    assert!(matches!(c.handle_message(None), Reaction::Stop));
    assert!(!c.shutdown_requested());
    assert_eq!(c.message_count(), 0);
}

#[test]
fn quit_and_closed_command_source_request_shutdown() {
    let mut c = connected_eth();
    assert!(matches!(c.handle_command(Some(WebSocketCommand::Help)), Reaction::ShowHelp));
    assert!(matches!(c.handle_command(Some(WebSocketCommand::ListLocal)), Reaction::ShowLocal));
    assert!(!c.shutdown_requested());
    assert!(matches!(c.handle_command(Some(WebSocketCommand::Quit)), Reaction::Close));
    assert!(c.shutdown_requested());
    let mut d = connected_eth();
    assert!(matches!(d.handle_command(None), Reaction::Stop));
    assert!(d.shutdown_requested());
}

#[test]
fn stats_of_dynamic_client() {
    let mut c = connected_eth();
    c.handle_message(text("{}"));
    c.handle_message(text("{}"));
    let s = c.print_stats(4000);
    assert_eq!(s.message_count, 2);
    assert_eq!(s.rate_centi, Some(50));
    assert_eq!(c.print_stats(0).rate_centi, None);
}

#[test]
fn late_subscribe_confirmation_after_unsubscribe_stays_inactive() {
    let mut c = DynamicWebSocket::new(false, vec![]);
    let s = sent(c.handle_command(Some(WebSocketCommand::Subscribe("x@trade".to_string()))));
    let u = sent(c.handle_command(Some(WebSocketCommand::Unsubscribe("x@trade".to_string()))));
    assert_eq!((s.id, u.id), (1, 2));
    c.handle_message(text(r#"{"result":null,"id":2}"#));
    c.handle_message(text(r#"{"result":null,"id":1}"#));
    assert!(desired(&c).is_empty());
    assert!(active(&c).is_empty());
}

#[test]
fn rejected_resubscribe_keeps_active_topic_desired() {
    let mut c = connected_eth();
    c.handle_message(text(r#"{"result":null,"id":1}"#));
    sent(c.handle_command(Some(WebSocketCommand::Unsubscribe("ethusdt@trade".to_string()))));
    sent(c.handle_command(Some(WebSocketCommand::Subscribe("ethusdt@trade".to_string()))));
    c.handle_message(text(r#"{"error":{"code":-1,"msg":"no"},"id":2}"#));
    c.handle_message(text(r#"{"error":{"code":-1,"msg":"no"},"id":3}"#));
    assert_eq!(desired(&c), vec!["ethusdt@trade".to_string()]);
    assert_eq!(active(&c), vec!["ethusdt@trade".to_string()]);
}

#[test]
fn text_frame_entry_point() {
    let mut c = connected_eth();
    let r = c.handle_text_message(r#"{"result":null,"id":1}"#);
    assert!(matches!(r, Reaction::Resolved(_, Some(PendingRequest::Subscribe(_)))));
    assert_eq!(active(&c), vec!["ethusdt@trade".to_string()]);
    assert!(matches!(c.handle_text_message(r#"[1,2]"#), Reaction::Event));
    assert_eq!(c.message_count(), 2);
}
