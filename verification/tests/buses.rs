use tchatchers_front::chat::WsMessage;
use tchatchers_front::ws::{chat_frame_step, chat_ws_address_prefix, ChatFrameStep};
use tchatchers_front::bus::{
    EventBus, RelayBus, Request, Subscribers, WsBusMessage, WsBusMessageType,
};
use tchatchers_front::ws::{request_for, ws_protocol, ws_room_address, ws_room_address_prefix, WsFrame};

#[test]
fn subscribers_connect_and_disconnect() {
    let mut s = Subscribers::new();
    s.connected(3);
    s.connected(7);
    s.connected(3);
    assert_eq!(s.len(), 2);
    assert!(s.contains(3));
    s.disconnected(3);
    assert!(!s.contains(3));
    let mut r = s.recipients();
    r.sort();
    assert_eq!(r, vec![7]);
}

#[test]
fn broadcast_reaches_every_subscriber_once() {
    let mut bus = RelayBus::create();
    for id in [5u64, 1, 9, 1] {
        bus.connected(id);
    }
    let (mut ids, msg) = bus.handle_input("hello".to_string());
    ids.sort();
    assert_eq!(ids, vec![1, 5, 9]);
    assert_eq!(msg, "hello");
}

#[test]
fn event_bus_notices() {
    let mut bus = EventBus::create();
    bus.connected(1);
    let (ids, text) = bus.handle_input(Request::EventBusMsg("hi \"you\"\n".to_string()));
    assert_eq!(ids, vec![1]);
    assert_eq!(text, "{\"messageType\":\"reply\",\"content\":\"hi \\\"you\\\"\\n\"}");
    assert_eq!(
        EventBus::output_for(Request::EventBusKeepAlive),
        "{\"messageType\":\"pong\",\"content\":\"Pong\"}"
    );
    assert_eq!(EventBus::output_for(Request::EventBusErr("boom".to_string())), "boom");
    assert_eq!(
        EventBus::output_for(Request::EventBusNotConnected),
        "{\"messageType\":\"notConnected\",\"content\":\"Error on connection\"}"
    );
    assert_eq!(
        EventBus::output_for(Request::EventBusClosed),
        "{\"messageType\":\"closed\",\"content\":\"Connection closed\"}"
    );
}

#[test]
fn notice_escapes_control_characters() {
    let m = WsBusMessage { message_type: WsBusMessageType::KeepAlive, content: "a\u{1}\t\\".to_string() };
    assert_eq!(m.to_json(), "{\"messageType\":\"keepAlive\",\"content\":\"a\\u0001\\t\\\\\"}");
}

#[test]
fn socket_addresses() {
    assert_eq!(ws_protocol("https:"), "wss:");
    assert_eq!(ws_protocol("http:"), "ws:");
    assert_eq!(ws_room_address("https:", "tchatche.rs", "rust"), "wss://tchatche.rs/ws/rust");
    assert_eq!(ws_room_address_prefix("http:", "localhost:8080", "a"), "ws://localhost:8080/ws/a?_=");
}

#[test]
fn frames_become_requests() {
    assert!(matches!(request_for(WsFrame::Text("Pong".to_string())), Some(Request::EventBusKeepAlive)));
    match request_for(WsFrame::Text("hello".to_string())) {
        Some(Request::EventBusMsg(s)) => assert_eq!(s, "hello"),
        _ => panic!("expected a message"),
    }
    match request_for(WsFrame::Bytes("héllo".as_bytes().to_vec())) {
        Some(Request::EventBusMsg(s)) => assert_eq!(s, "héllo"),
        _ => panic!("expected a message"),
    }
    assert!(request_for(WsFrame::Bytes(vec![0xff, 0xfe])).is_none());
    assert!(matches!(request_for(WsFrame::ConnectionError), Some(Request::EventBusNotConnected)));
    assert!(matches!(request_for(WsFrame::ConnectionClose(1000)), Some(Request::EventBusClosed)));
    match request_for(WsFrame::MessageSendError("broken".to_string())) {
        Some(Request::EventBusErr(s)) => assert_eq!(s, "broken"),
        _ => panic!("expected an error"),
    }
    assert!(request_for(WsFrame::OtherError).is_none());
}

#[test]
fn chat_frames() {
    assert_eq!(chat_ws_address_prefix("https:", "rust"), "wss://localhost:8080/ws/rust?_=");
    assert!(matches!(chat_frame_step(WsFrame::Text("{}".to_string())), ChatFrameStep::Decode(t) if t == "{}"));
    assert!(matches!(chat_frame_step(WsFrame::Bytes(b"ok".to_vec())), ChatFrameStep::Decode(t) if t == "ok"));
    assert!(matches!(chat_frame_step(WsFrame::Bytes(vec![0xff])), ChatFrameStep::Ignore));
    assert!(matches!(chat_frame_step(WsFrame::ConnectionError), ChatFrameStep::Deliver(WsMessage::ClientDisconnected)));
    assert!(matches!(chat_frame_step(WsFrame::ConnectionClose(1006)), ChatFrameStep::Deliver(WsMessage::ConnectionClosed)));
    assert!(matches!(chat_frame_step(WsFrame::MessageSendError("x".to_string())), ChatFrameStep::Deliver(WsMessage::ErrorOnMessage(e)) if e == "x"));
    assert!(matches!(chat_frame_step(WsFrame::OtherError), ChatFrameStep::Ignore));
}
