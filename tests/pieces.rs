use public_data_streaming::client::WebSocketCommand;
use public_data_streaming::command::{parse_command, print_dynamic_help, CommandLine};
use public_data_streaming::endpoints::{BinancePublicWebSocket, BinanceWebSocketClient};
use public_data_streaming::normalize_stream;
use public_data_streaming::stats::{rate_centi, stats_report};
use public_data_streaming::wire::{classify_text, Inbound, Method, OutboundRequest};

#[test]
fn normalize_trims_and_lowercases() {
    assert_eq!(normalize_stream("  BTCUSDT@Trade \t"), "btcusdt@trade");
    assert_eq!(normalize_stream(""), "");
}

#[test]
fn request_text_escapes_topics() {
    let q = OutboundRequest {
        method: Method::Unsubscribe,
        topics: vec!["a\"b".to_string(), "c".to_string()],
        id: 1234567890,
    };
    assert_eq!(q.text(), r#"{"method":"UNSUBSCRIBE","params":["a\"b","c"],"id":1234567890}"#);
}

#[test]
fn request_text_with_largest_id() {
    let q = OutboundRequest { method: Method::ListSubscriptions, topics: vec![], id: u64::MAX };
    assert_eq!(q.text(), format!(r#"{{"method":"LIST_SUBSCRIPTIONS","id":{}}}"#, u64::MAX));
    let e = OutboundRequest { method: Method::Subscribe, topics: vec![], id: 0 };
    assert_eq!(e.text(), r#"{"method":"SUBSCRIBE","params":[],"id":0}"#);
}

#[test]
fn classify_inbound_text() {
    assert!(matches!(classify_text("{"), Inbound::Malformed));
    assert!(matches!(classify_text(r#"{"e":"trade"}"#), Inbound::Event));
    match classify_text(r#"{"error":{"code":-1},"id":5}"#) {
        Inbound::Response(r) => {
            assert_eq!(r.id, Some(5));
            assert!(r.failed);
            assert!(r.listed.is_empty());
        },
        other => panic!("unexpected {:?}", other),
    }
}

#[test]
fn parse_command_lines() {
    match parse_command("addsub BTCUSDT@trade") {
        CommandLine::Command(WebSocketCommand::Subscribe(s)) => assert_eq!(s, "BTCUSDT@trade"),
        other => panic!("unexpected {:?}", other),
    }
    match parse_command("  delsub   x@trade ") {
        CommandLine::Command(WebSocketCommand::Unsubscribe(s)) => assert_eq!(s, "x@trade"),
        other => panic!("unexpected {:?}", other),
    }
    assert!(matches!(parse_command("list"), CommandLine::Command(WebSocketCommand::ListLocal)));
    assert!(matches!(parse_command("listserver"), CommandLine::Command(WebSocketCommand::ListServer)));
    assert!(matches!(parse_command("help"), CommandLine::Command(WebSocketCommand::Help)));
    assert!(matches!(parse_command("quit"), CommandLine::Command(WebSocketCommand::Quit)));
    assert!(matches!(parse_command("   "), CommandLine::Empty));
    assert!(matches!(parse_command("addsub"), CommandLine::Unknown));
    assert!(matches!(parse_command("list all"), CommandLine::Unknown));
    assert!(matches!(parse_command("bogus"), CommandLine::Unknown));
}

#[test]
fn help_has_seven_lines() {
    let h = print_dynamic_help();
    assert_eq!(h.len(), 7);
    assert_eq!(h[0], "Dynamic mode commands:");
    assert_eq!(h[6], "  quit               - close websocket and exit");
}

#[test]
fn throughput_in_hundredths() {
    assert_eq!(rate_centi(10, 2000), Some(500));
    assert_eq!(rate_centi(1, 3000), Some(33));
    assert_eq!(rate_centi(5, 0), None);
    assert_eq!(rate_centi(u64::MAX, 1), Some(u64::MAX as u128 * 100000));
    assert_eq!(stats_report(7, 1000).rate_centi, Some(700));
}

#[test]
fn public_stream_endpoint() {
    let c = BinancePublicWebSocket::new("ETHUSDT", false);
    assert_eq!(c.stream_name(), "ethusdt@trade");
    assert_eq!(c.stream_url(), "wss://stream.binance.com:9443/ws/ethusdt@trade");
    let t = BinancePublicWebSocket::new("btcusdt", true);
    assert_eq!(t.stream_url(), "wss://testnet.binance.vision/ws/btcusdt@trade");
    let s = t.print_stats(2000, 4);
    assert_eq!(s.message_count, 4);
    assert_eq!(s.rate_centi, Some(200));
}

#[test]
fn user_data_endpoint() {
    let c = BinanceWebSocketClient::new("abc123".to_string());
    assert_eq!(c.ws_url(), "wss://fstream.binancefuture.com/ws/abc123");
}

#[test]
fn request_text_escapes_control_characters() {
    let q = OutboundRequest {
        method: Method::Subscribe,
        topics: vec!["a\\b\n\t\u{1}\u{1f}é".to_string()],
        id: 9,
    };
    assert_eq!(q.text(), "{\"method\":\"SUBSCRIBE\",\"params\":[\"a\\\\b\\n\\t\\u0001\\u001fé\"],\"id\":9}");
}
