//! The websocket side of the chat: the address of a room's socket, and how
//! the frames that the socket yields become chat messages for the chat bus
//! (or requests to the chat event bus).

use vstd::prelude::*;
use crate::bus::Request;
use crate::chat::WsMessage;
use crate::text::{str_eq, utf8_str};

verus! {

/// The websocket scheme that matches the page's scheme: `wss:` under
/// `https:`, `ws:` under anything else.
pub open spec fn spec_ws_protocol(protocol: Seq<char>) -> Seq<char> {
    if protocol == "https:"@ {
        "wss:"@
    } else {
        "ws:"@
    }
}

/// The websocket scheme that matches the page's scheme.
pub fn ws_protocol(protocol: &str) -> (r: &'static str)
    ensures
        r@ == spec_ws_protocol(protocol@),
{
    if str_eq(protocol, "https:") {
        "wss:"
    } else {
        "ws:"
    }
}

/// The address of a room's socket on the page's host.
pub open spec fn spec_ws_room_address(protocol: Seq<char>, host: Seq<char>, room: Seq<char>) -> Seq<char> {
    spec_ws_protocol(protocol) + "//"@ + host + "/ws/"@ + room
}

/// The address of a room's socket on the page's host: scheme, host, then
/// `/ws/` and the room.
pub fn ws_room_address(protocol: &str, host: &str, room: &str) -> (r: String)
    ensures
        r@ == spec_ws_room_address(protocol@, host@, room@),
{
    let mut out = ws_protocol(protocol).to_owned();
    out.append("//");
    out.append(host);
    out.append("/ws/");
    out.append(room);
    out
}

/// The address of a room's socket up to the cache-busting query value: the
/// room address followed by `?_=`, to which the caller appends the time.
pub fn ws_room_address_prefix(protocol: &str, host: &str, room: &str) -> (r: String)
    ensures
        r@ == spec_ws_room_address(protocol@, host@, room@) + "?_="@,
{
    let mut out = ws_room_address(protocol, host, room);
    out.append("?_=");
    out
}

/// What the socket's stream yields.
pub enum WsFrame {
    /// A text frame.
    Text(String),
    /// A binary frame.
    Bytes(Vec<u8>),
    /// The connection could not be made.
    ConnectionError,
    /// The connection was closed, with its close code.
    ConnectionClose(u16),
    /// Sending failed, with the error's text.
    MessageSendError(String),
    /// Any other error.
    OtherError,
}

/// The request that a frame becomes, if any: the text `Pong` keeps the
/// connection alive, other texts and binary frames that hold UTF-8 are
/// messages, binary frames that do not are dropped, and errors become the
/// matching notices (other errors are only logged).
pub open spec fn spec_request_for(frame: WsFrame) -> Option<Request> {
    match frame {
        WsFrame::Text(data) => if data@ == "Pong"@ {
            Some(Request::EventBusKeepAlive)
        } else {
            Some(Request::EventBusMsg(data))
        },
        WsFrame::Bytes(_) => None,  // stated on views in `request_for`
        WsFrame::ConnectionError => Some(Request::EventBusNotConnected),
        WsFrame::ConnectionClose(_) => Some(Request::EventBusClosed),
        WsFrame::MessageSendError(e) => Some(Request::EventBusErr(e)),
        WsFrame::OtherError => None,
    }
}

/// The request that a frame becomes, if any.
pub fn request_for(frame: WsFrame) -> (r: Option<Request>)
    ensures
        !(frame is Bytes) ==> r == spec_request_for(frame),
        frame matches WsFrame::Bytes(b) ==> (match r {
            Some(Request::EventBusMsg(s)) => vstd::utf8::valid_utf8(b@) && s@ == vstd::utf8::decode_utf8(b@),
            None => !vstd::utf8::valid_utf8(b@),
            _ => false,
        }),
{
    match frame {
        WsFrame::Text(data) => {
            if str_eq(data.as_str(), "Pong") {
                Some(Request::EventBusKeepAlive)
            } else {
                Some(Request::EventBusMsg(data))
            }
        },
        WsFrame::Bytes(b) => match utf8_str(b.as_slice()) {
            Some(val) => Some(Request::EventBusMsg(val.to_owned())),
            None => None,
        },
        WsFrame::ConnectionError => Some(Request::EventBusNotConnected),
        WsFrame::ConnectionClose(_) => Some(Request::EventBusClosed),
        WsFrame::MessageSendError(e) => Some(Request::EventBusErr(e)),
        WsFrame::OtherError => None,
    }
}

/// The host that the chat socket connects to.
pub const CHAT_WS_HOST: &'static str = "localhost:8080";

/// The address of a room's chat socket up to the cache-busting value: the
/// room address on `CHAT_WS_HOST`, followed by `?_=`. The socket is opened
/// with the bearer token as its subprotocol.
pub fn chat_ws_address_prefix(protocol: &str, room: &str) -> (r: String)
    ensures
        r@ == spec_ws_room_address(protocol@, CHAT_WS_HOST@, room@) + "?_="@,
{
    ws_room_address_prefix(protocol, CHAT_WS_HOST, room)
}

/// What the chat service does with a frame of its socket.
pub enum ChatFrameStep {
    /// Decode the text as a chat message (with the messages' JSON form) and,
    /// when it decodes, hand it to the chat bus; drop it otherwise.
    Decode(String),
    /// Hand this message to the chat bus.
    Deliver(WsMessage),
    /// Drop the frame (only logged).
    Ignore,
}

/// What the chat service does with a frame: texts, and binary frames that
/// hold UTF-8, are decoded; other binary frames are dropped; a failed
/// connection, a closed one and a failed send become the chat messages
/// `ClientDisconnected`, `ConnectionClosed` and `ErrorOnMessage` with the
/// error's text; other errors are dropped.
pub fn chat_frame_step(frame: WsFrame) -> (r: ChatFrameStep)
    ensures
        match frame {
            WsFrame::Text(data) => r matches ChatFrameStep::Decode(t) && t@ == data@,
            WsFrame::Bytes(b) => if vstd::utf8::valid_utf8(b@) {
                r matches ChatFrameStep::Decode(t) && t@ == vstd::utf8::decode_utf8(b@)
            } else {
                r is Ignore
            },
            WsFrame::ConnectionError => r matches ChatFrameStep::Deliver(WsMessage::ClientDisconnected),
            WsFrame::ConnectionClose(_) => r matches ChatFrameStep::Deliver(WsMessage::ConnectionClosed),
            WsFrame::MessageSendError(e) => r matches ChatFrameStep::Deliver(WsMessage::ErrorOnMessage(m)) && m@
                == e@,
            WsFrame::OtherError => r is Ignore,
        },
{
    match frame {
        WsFrame::Text(data) => ChatFrameStep::Decode(data),
        WsFrame::Bytes(b) => match utf8_str(b.as_slice()) {
            Some(val) => ChatFrameStep::Decode(val.to_owned()),
            None => ChatFrameStep::Ignore,
        },
        WsFrame::ConnectionError => ChatFrameStep::Deliver(WsMessage::ClientDisconnected),
        WsFrame::ConnectionClose(_) => ChatFrameStep::Deliver(WsMessage::ConnectionClosed),
        WsFrame::MessageSendError(e) => ChatFrameStep::Deliver(WsMessage::ErrorOnMessage(e)),
        WsFrame::OtherError => ChatFrameStep::Ignore,
    }
}

} // verus!
