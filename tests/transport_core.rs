use mcp_daemon::error::{TransportError, TransportErrorCode};
use mcp_daemon::fanout::{ChannelRecv, CursorAction, FanoutCursor};
use mcp_daemon::framing::{decode_line, encode_line};
use mcp_daemon::json::JsonValue;
use mcp_daemon::memory::{InMemoryTransport, Side};
use mcp_daemon::message::{Message, RequestId};
use mcp_daemon::sse::{sse_event, SseTransport};
use mcp_daemon::transport::{LineRead, StdioCore, TransportState};
use mcp_daemon::websocket::{
    frame_action, session_result, ClientWsTransportBuilder, ConnectOutcome, FrameAction,
    InboundFrame, SessionEnd, WsServerState,
};

fn hello_params() -> JsonValue {
    JsonValue::Object(vec![("hello".to_string(), JsonValue::Str("world".to_string()))])
}

fn test_request() -> Message {
    Message::Request {
        id: RequestId::Number(1),
        method: "test".to_string(),
        params: Some(hello_params()),
    }
}

fn field<'a>(v: &'a JsonValue, key: &str) -> Option<&'a JsonValue> {
    match v {
        JsonValue::Object(fields) => fields.iter().find(|(k, _)| k == key).map(|(_, v)| v),
        _ => None,
    }
}

#[test]
fn request_round_trips_through_its_wire_value() {
    let wire = test_request().to_json();
    assert_eq!(field(&wire, "jsonrpc"), Some(&JsonValue::Str("2.0".to_string())));
    assert_eq!(field(&wire, "id"), Some(&JsonValue::Int(1)));
    assert_eq!(field(&wire, "method"), Some(&JsonValue::Str("test".to_string())));
    assert_eq!(Message::from_json(wire).unwrap(), test_request());
}

#[test]
fn every_shape_round_trips() {
    let shapes = vec![
        Message::Notification { method: "notifications/cancelled".to_string(), params: None },
        Message::Response { id: RequestId::Text("a".to_string()), result: JsonValue::Bool(true) },
        Message::Error {
            id: RequestId::Number(7),
            code: -32601,
            message: "Method not found".to_string(),
            data: Some(JsonValue::Null),
        },
    ];
    for m in shapes {
        let expected = format!("{:?}", m);
        let back = Message::from_json(m.to_json()).unwrap();
        assert_eq!(format!("{:?}", back), expected);
    }
}

#[test]
fn notification_has_no_id_on_the_wire() {
    let wire = Message::Notification { method: "ping".to_string(), params: None }.to_json();
    assert!(field(&wire, "id").is_none());
    assert!(field(&wire, "params").is_none());
}

#[test]
fn mixed_shapes_are_invalid() {
    let v = JsonValue::Object(vec![
        ("id".to_string(), JsonValue::Int(1)),
        ("method".to_string(), JsonValue::Str("x".to_string())),
        ("result".to_string(), JsonValue::Null),
    ]);
    let err = Message::from_json(v).unwrap_err();
    assert_eq!(err.code, TransportErrorCode::InvalidMessage);
    let not_object = JsonValue::Array(vec![]);
    assert_eq!(Message::from_json(not_object).unwrap_err().code, TransportErrorCode::InvalidMessage);
    let bad_id = JsonValue::Object(vec![
        ("id".to_string(), JsonValue::Bool(true)),
        ("result".to_string(), JsonValue::Null),
    ]);
    assert_eq!(Message::from_json(bad_id).unwrap_err().code, TransportErrorCode::InvalidMessage);
}

#[test]
fn line_framing_round_trips() {
    let payload = br#"{"jsonrpc":"2.0","id":1,"method":"test"}"#;
    let line = encode_line(payload);
    assert_eq!(line.last(), Some(&b'\n'));
    assert_eq!(line.len(), payload.len() + 1);
    assert_eq!(decode_line(&line), payload.to_vec());
}

#[test]
fn decode_line_trims_whitespace() {
    assert_eq!(decode_line(b"  \t{}\r\n"), b"{}".to_vec());
    assert_eq!(decode_line(b" \n"), Vec::<u8>::new());
    assert_eq!(decode_line(b""), Vec::<u8>::new());
}

#[test]
fn stdio_close_is_idempotent_and_final() {
    let mut core = StdioCore::new();
    assert!(core.is_open());
    core.close();
    core.close();
    assert_eq!(core.state, TransportState::Closed);
    assert_eq!(core.prepare_send(b"{}").unwrap_err().code, TransportErrorCode::ConnectionClosed);
    assert_eq!(core.begin_receive().unwrap_err().code, TransportErrorCode::ConnectionClosed);
    let r = core.complete_receive(LineRead::Line(b"{}\n".to_vec()));
    assert_eq!(r.unwrap_err().code, TransportErrorCode::ConnectionClosed);
}

#[test]
fn stdio_write_failure_is_fail_stop() {
    let mut core = StdioCore::with_buffer_size(16);
    assert_eq!(core.prepare_send(b"{}").unwrap(), b"{}\n".to_vec());
    let err = core.complete_send(false).unwrap_err();
    assert_eq!(err.code, TransportErrorCode::MessageSendFailed);
    assert!(!core.is_open());
    assert_eq!(core.prepare_send(b"{}").unwrap_err().code, TransportErrorCode::ConnectionClosed);
}

#[test]
fn stdio_end_of_stream_closes_and_lines_are_trimmed() {
    let mut core = StdioCore::new();
    let got = core.complete_receive(LineRead::Line(b"{\"a\":1}\n".to_vec())).unwrap();
    assert_eq!(got, Some(b"{\"a\":1}".to_vec()));
    assert!(core.is_open());
    assert!(core.complete_receive(LineRead::EndOfStream).unwrap().is_none());
    assert!(!core.is_open());
    let mut broken = StdioCore::new();
    let err = broken.complete_receive(LineRead::Failed).unwrap_err();
    assert_eq!(err.code, TransportErrorCode::MessageReceiveFailed);
    assert!(!broken.is_open());
}

#[test]
fn in_memory_echo_returns_the_request() {
    let mut pair = InMemoryTransport::new();
    pair.send(Side::Client, test_request()).unwrap();
    while let Ok(Some(m)) = pair.receive(Side::Server) {
        pair.send(Side::Server, m).unwrap();
    }
    let got = pair.receive(Side::Client).unwrap();
    assert_eq!(got, Some(test_request()));
    match got.unwrap() {
        Message::Request { id, method, params } => {
            assert_eq!(id, RequestId::Number(1));
            assert_eq!(method, "test");
            assert_eq!(params, Some(hello_params()));
        }
        _ => panic!("expected a request"),
    }
}

#[test]
fn in_memory_closed_sides() {
    let mut pair = InMemoryTransport::new();
    pair.close(Side::Server);
    pair.close(Side::Server);
    let err = pair.send(Side::Client, test_request()).unwrap_err();
    assert_eq!(err.code, TransportErrorCode::MessageSendFailed);
    assert_eq!(pair.receive(Side::Server).unwrap_err().code, TransportErrorCode::ConnectionClosed);
    assert!(pair.receive(Side::Client).unwrap().is_none());
    pair.close(Side::Client);
    assert_eq!(
        pair.send(Side::Client, test_request()).unwrap_err().code,
        TransportErrorCode::ConnectionClosed
    );
}

#[test]
fn lagging_consumer_gets_one_none_per_lag() {
    let mut cursor = FanoutCursor::subscribed_open();
    let (a, m) = cursor.on_recv(ChannelRecv::Lagged(5));
    assert_eq!(a, CursorAction::Resubscribe);
    assert!(m.is_none());
    let (a, m) = cursor.on_recv(ChannelRecv::Item(test_request()));
    assert_eq!(a, CursorAction::Keep);
    assert_eq!(m, Some(test_request()));
    let (a, m) = cursor.on_recv(ChannelRecv::Lagged(1));
    assert_eq!(a, CursorAction::Resubscribe);
    assert!(m.is_none());
    assert!(cursor.should_wait());
    assert_eq!(cursor.state, TransportState::Open);
}

#[test]
fn closed_channel_ends_the_stream() {
    let mut cursor = FanoutCursor::subscribed_open();
    let (a, m) = cursor.on_recv(ChannelRecv::Closed);
    assert_eq!(a, CursorAction::Drop);
    assert!(m.is_none());
    assert!(!cursor.should_wait());
    assert_eq!(cursor.state, TransportState::Closed);
    let mut orphan = FanoutCursor { subscribed: true, sender_alive: false, state: TransportState::Open };
    assert_eq!(orphan.on_recv(ChannelRecv::Lagged(3)).0, CursorAction::Drop);
    assert!(!orphan.should_wait());
    let mut closing = FanoutCursor::subscribed_open();
    closing.close();
    assert!(!closing.should_wait());
    assert!(!FanoutCursor::detached().should_wait());
}

#[test]
fn ws_builder_headers_replace_on_repeat() {
    let b = ClientWsTransportBuilder::new("ws://127.0.0.1:9000/ws".to_string())
        .with_header("Authorization".to_string(), "a".to_string())
        .with_header("X-Trace".to_string(), "1".to_string())
        .with_header("Authorization".to_string(), "b".to_string());
    assert_eq!(
        b.headers,
        vec![
            ("Authorization".to_string(), "b".to_string()),
            ("X-Trace".to_string(), "1".to_string())
        ]
    );
    let client = b.build();
    assert_eq!(client.url, "ws://127.0.0.1:9000/ws");
    assert_eq!(client.state, TransportState::Closed);
}

#[test]
fn ws_client_open_errors_are_distinguished() {
    let mut c = ClientWsTransportBuilder::new("ws://x".to_string()).build();
    assert!(c.needs_connect());
    assert_eq!(c.begin_send().unwrap_err().code, TransportErrorCode::ConnectionClosed);
    assert_eq!(
        c.complete_connect(ConnectOutcome::TimedOut).unwrap_err().code,
        TransportErrorCode::ConnectionTimeout
    );
    assert_eq!(
        c.complete_connect(ConnectOutcome::Failed).unwrap_err().code,
        TransportErrorCode::ConnectionFailed
    );
    assert_eq!(
        c.complete_connect(ConnectOutcome::InvalidRequest).unwrap_err().code,
        TransportErrorCode::ConnectionFailed
    );
    c.complete_connect(ConnectOutcome::Connected).unwrap();
    assert!(!c.needs_connect());
    assert!(c.begin_send().is_ok());
    assert_eq!(c.complete_send(false).unwrap_err().code, TransportErrorCode::MessageSendFailed);
    assert!(c.needs_connect());
    c.close();
    c.close();
    assert_eq!(c.state, TransportState::Closed);
}

#[test]
fn ws_frames_are_isolated() {
    match frame_action(InboundFrame::Text(Some(test_request().to_json()))) {
        FrameAction::Publish(m) => assert_eq!(m, test_request()),
        other => panic!("unexpected {:?}", other),
    }
    assert!(matches!(frame_action(InboundFrame::Text(None)), FrameAction::Skip));
    assert!(matches!(frame_action(InboundFrame::Text(Some(JsonValue::Null))), FrameAction::Skip));
    assert!(matches!(frame_action(InboundFrame::Binary), FrameAction::Skip));
    assert!(matches!(frame_action(InboundFrame::Ping), FrameAction::Skip));
    assert!(matches!(frame_action(InboundFrame::Pong), FrameAction::Skip));
    assert!(matches!(frame_action(InboundFrame::Other), FrameAction::Skip));
    assert!(matches!(frame_action(InboundFrame::Close), FrameAction::Stop));
    assert!(matches!(frame_action(InboundFrame::Failed), FrameAction::Stop));
}

#[test]
fn ws_session_end_results() {
    assert!(session_result(SessionEnd::OutboundDone).is_ok());
    assert!(session_result(SessionEnd::InboundDone).is_ok());
    assert_eq!(
        session_result(SessionEnd::OutboundAborted).unwrap_err().code,
        TransportErrorCode::MessageSendFailed
    );
    assert_eq!(
        session_result(SessionEnd::InboundAborted).unwrap_err().code,
        TransportErrorCode::MessageReceiveFailed
    );
    let mut server = WsServerState::new();
    assert!(server.begin_send().is_ok());
    assert!(server.close());
    assert!(!server.close());
    assert_eq!(server.begin_send().unwrap_err().code, TransportErrorCode::ConnectionClosed);
}

#[test]
fn sse_event_prefixes_each_line() {
    assert_eq!(sse_event(b"{}"), b"data: {}\n\n".to_vec());
    assert_eq!(sse_event(b"a\nb"), b"data: a\ndata: b\n\n".to_vec());
    let mut t = SseTransport::new();
    assert!(t.receive().unwrap().is_none());
    assert_eq!(t.perform_auth().unwrap_err().code, TransportErrorCode::AuthenticationError);
    assert_eq!(t.prepare_send(b"x").unwrap(), b"data: x\n\n".to_vec());
    assert!(t.complete_send(false).is_err());
    assert_eq!(t.prepare_send(b"x").unwrap_err().code, TransportErrorCode::ConnectionClosed);
}

#[test]
fn error_accessors() {
    let e = TransportError::new(TransportErrorCode::ConfigurationError, "bad key".to_string());
    assert_eq!(e.code(), TransportErrorCode::ConfigurationError);
    assert_eq!(e.message(), "bad key");
}

fn to_text(v: JsonValue) -> Vec<u8> {
    fn conv(v: JsonValue) -> serde_json::Value {
        match v {
            JsonValue::Null => serde_json::Value::Null,
            JsonValue::Bool(b) => serde_json::Value::Bool(b),
            JsonValue::Int(n) => serde_json::Value::from(n),
            JsonValue::Num(t) => serde_json::Value::String(t),
            JsonValue::Str(s) => serde_json::Value::String(s),
            JsonValue::Array(items) => serde_json::Value::Array(items.into_iter().map(conv).collect()),
            JsonValue::Object(fields) => {
                serde_json::Value::Object(fields.into_iter().map(|(k, v)| (k, conv(v))).collect())
            }
        }
    }
    serde_json::to_vec(&conv(v)).unwrap()
}

fn from_text(bytes: &[u8]) -> Option<JsonValue> {
    fn conv(v: serde_json::Value) -> JsonValue {
        match v {
            serde_json::Value::Null => JsonValue::Null,
            serde_json::Value::Bool(b) => JsonValue::Bool(b),
            serde_json::Value::Number(n) => match n.as_i64() {
                Some(i) => JsonValue::Int(i),
                None => JsonValue::Num(n.to_string()),
            },
            serde_json::Value::String(s) => JsonValue::Str(s),
            serde_json::Value::Array(items) => JsonValue::Array(items.into_iter().map(conv).collect()),
            serde_json::Value::Object(map) => {
                JsonValue::Object(map.into_iter().map(|(k, v)| (k, conv(v))).collect())
            }
        }
    }
    serde_json::from_slice::<serde_json::Value>(bytes).ok().map(conv)
}

#[test]
fn stdio_echoed_line_gives_back_the_message() {
    let mut core = StdioCore::new();
    let line = core.prepare_send(&to_text(test_request().to_json())).unwrap();
    let echoed = line.clone();
    let payload = core.complete_receive(LineRead::Line(echoed)).unwrap().unwrap();
    let back = Message::from_json(from_text(&payload).unwrap()).unwrap();
    match back {
        Message::Request { id, method, .. } => {
            assert_eq!(id, RequestId::Number(1));
            assert_eq!(method, "test");
        }
        other => panic!("unexpected {:?}", other),
    }
}

#[test]
fn stdio_malformed_line_does_not_close() {
    let mut core = StdioCore::new();
    let payload = core.complete_receive(LineRead::Line(b"not json\n".to_vec())).unwrap().unwrap();
    assert!(from_text(&payload).is_none());
    let not_a_message = Message::from_json(from_text(b"{\"x\":1}").unwrap()).unwrap_err();
    assert_eq!(not_a_message.code, TransportErrorCode::InvalidMessage);
    assert!(core.is_open());
}

#[test]
fn websocket_echoed_frame_gives_back_the_request() {
    let frame = to_text(test_request().to_json());
    match frame_action(InboundFrame::Text(from_text(&frame))) {
        FrameAction::Publish(m) => assert_eq!(m, test_request()),
        other => panic!("unexpected {:?}", other),
    }
}

#[test]
fn text_round_trip_keeps_the_message() {
    let text = to_text(test_request().to_json());
    let text_str = String::from_utf8(text.clone()).unwrap();
    assert!(text_str.contains(r#""jsonrpc":"2.0""#));
    assert!(text_str.contains(r#""id":1"#));
    assert!(text_str.contains(r#""params":{"hello":"world"}"#));
    assert!(!text_str.contains('\n'));
    assert_eq!(Message::from_json(from_text(&text).unwrap()).unwrap(), test_request());
}

#[test]
fn first_of_repeated_members_wins() {
    let v = JsonValue::Object(vec![
        ("method".to_string(), JsonValue::Str("first".to_string())),
        ("method".to_string(), JsonValue::Str("second".to_string())),
    ]);
    match Message::from_json(v).unwrap() {
        Message::Notification { method, params } => {
            assert_eq!(method, "first");
            assert!(params.is_none());
        }
        other => panic!("unexpected {:?}", other),
    }
}
