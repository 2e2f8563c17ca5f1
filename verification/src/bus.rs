//! The message buses that connect the client's components: the subscriber
//! bookkeeping that every bus shares, the messages they carry, and the chat
//! event bus that turns websocket events into JSON notices.

use vstd::prelude::*;
use std::collections::HashSet;

verus! {

broadcast use vstd::std_specs::hash::group_hash_axioms;

/// The handlers subscribed to a bus, by their numeric handler id.
pub struct Subscribers {
    ids: HashSet<u64>,
}

impl View for Subscribers {
    type V = Set<u64>;

    closed spec fn view(&self) -> Set<u64> {
        self.ids@
    }
}

impl Subscribers {
    /// A bus with nobody subscribed.
    pub fn new() -> (r: Subscribers)
        ensures
            r@ == Set::<u64>::empty(),
    {
        Subscribers { ids: HashSet::new() }
    }

    /// A handler connects: it is subscribed from now on.
    pub fn connected(&mut self, id: u64)
        ensures
            final(self)@ == old(self)@.insert(id),
    {
        self.ids.insert(id);
    }

    /// A handler disconnects: it is no longer subscribed.
    pub fn disconnected(&mut self, id: u64)
        ensures
            final(self)@ == old(self)@.remove(id),
    {
        self.ids.remove(&id);
    }

    /// Whether a handler is subscribed.
    pub fn contains(&self, id: u64) -> (r: bool)
        ensures
            r == self@.contains(id),
    {
        self.ids.contains(&id)
    }

    /// The number of subscribed handlers.
    pub fn len(&self) -> (r: usize)
        ensures
            r == self@.len(),
    {
        self.ids.len()
    }

    /// The handlers that a message sent on the bus reaches: every subscriber,
    /// each exactly once, in no particular order.
    pub fn recipients(&self) -> (r: Vec<u64>)
        ensures
            r@.to_set() == self@,
            r@.no_duplicates(),
            r@.len() == self@.len(),
    {
        let mut out: Vec<u64> = Vec::new();
        let ghost ks = self.ids@;
        for id in it: self.ids.iter()
            invariant
                ks == self.ids@,
                it.seq().unref().to_set() == ks,
                it.seq().unref().no_duplicates(),
                it.seq().len() == ks.len(),
                out@ == it.seq().unref().subrange(0, it.index() as int),
                it.index() == it.seq().len() ==> (out@.to_set() == ks && out@.no_duplicates() && out@.len()
                    == ks.len()),
        {
            out.push(*id);
            proof {
                let all = it.seq().unref();
                assert(all.subrange(0, it.index() + 1) =~= all.subrange(0, it.index() as int).push(*id));
                assert(all.subrange(0, all.len() as int) =~= all);
            }
        }
        out
    }
}

// ---------------------------------------------------------------------------
// Messages
// ---------------------------------------------------------------------------

/// The kinds of notice that the chat event bus publishes.
#[derive(PartialEq, Eq, Structural, Clone, Copy, Debug)]
pub enum WsBusMessageType {
    Error,
    NotConnected,
    Reply,
    KeepAlive,
    Ping,
    Pong,
    Closed,
}

/// A notice of the chat event bus: its kind and a text.
pub struct WsBusMessage {
    pub message_type: WsBusMessageType,
    pub content: String,
}

/// What the websocket service hands the chat event bus.
pub enum Request {
    /// A text that the server sent.
    EventBusMsg(String),
    /// The text of an error met while sending.
    EventBusErr(String),
    /// The server answered a ping.
    EventBusKeepAlive,
    /// The connection could not be made.
    EventBusNotConnected,
    /// The connection was closed.
    EventBusClosed,
}

/// An alert shown as a toast: whether it reports a success, the label of its
/// translation and the text to show when no translation exists.
pub struct Alert {
    pub is_success: bool,
    pub label: String,
    pub default: String,
}

/// An alert as plain values.
pub struct AlertView {
    pub is_success: bool,
    pub label: Seq<char>,
    pub default: Seq<char>,
}

impl DeepView for Alert {
    type V = AlertView;

    open spec fn deep_view(&self) -> AlertView {
        AlertView { is_success: self.is_success, label: self.label@, default: self.default@ }
    }
}

/// What opening the context menu of a profile needs.
#[derive(PartialEq, Eq, Structural, Clone, Copy, Debug)]
pub struct ProfileRMenuProps {
    pub user_id: i32,
}

/// What opening the context menu of a message needs.
#[derive(PartialEq, Eq, Structural, Clone, Copy, Debug)]
pub struct MessageRMenuProps {
    pub message_id: u128,
    pub is_self: bool,
}

/// The two context menus.
#[derive(PartialEq, Eq, Structural, Clone, Copy, Debug)]
pub enum RMenuKind {
    MessageRMenu(MessageRMenuProps),
    ProfileRMenu(ProfileRMenuProps),
}

/// The events of the context-menu bus.
#[derive(PartialEq, Eq, Structural, Clone, Copy, Debug)]
pub enum RMenusBusEvents {
    /// Open a menu at a position of the page.
    OpenRMenu(i32, i32, RMenuKind),
    /// Close the open menu.
    CloseRMenu,
}

// ---------------------------------------------------------------------------
// JSON
// ---------------------------------------------------------------------------

/// The lowercase hexadecimal digit of a value below sixteen.
pub open spec fn hex_digit(d: nat) -> char {
    if d < 10 {
        (('0' as int) + d) as char
    } else {
        (('a' as int) + d - 10) as char
    }
}

/// How `serde_json` writes one character inside a JSON string: quote and
/// backslash escaped with a backslash, the usual short escapes for
/// backspace, tab, line feed, form feed and carriage return, other control
/// characters as `\u00XX`, everything else as it is.
pub open spec fn json_escape(c: char) -> Seq<char> {
    if c == '"' {
        seq!['\\', '"']
    } else if c == '\\' {
        seq!['\\', '\\']
    } else if c == '\u{8}' {
        seq!['\\', 'b']
    } else if c == '\t' {
        seq!['\\', 't']
    } else if c == '\n' {
        seq!['\\', 'n']
    } else if c == '\u{c}' {
        seq!['\\', 'f']
    } else if c == '\r' {
        seq!['\\', 'r']
    } else if (c as u32) < 0x20 {
        seq!['\\', 'u', '0', '0', hex_digit((c as u32 / 16) as nat), hex_digit((c as u32 % 16) as nat)]
    } else {
        seq![c]
    }
}

/// The escaped characters of a string, in order.
pub open spec fn json_escaped(s: Seq<char>) -> Seq<char>
    decreases s.len(),
{
    if s.len() == 0 {
        Seq::empty()
    } else {
        json_escaped(s.drop_last()) + json_escape(s.last())
    }
}

/// A string written as a JSON string literal.
pub open spec fn json_string_literal(s: Seq<char>) -> Seq<char> {
    seq!['"'] + json_escaped(s) + seq!['"']
}

/// `serde_json::to_string` on a string slice: the JSON string literal of
/// the text, escaped as `json_escape` says. Serialising a string into a
/// `Vec` cannot fail, so the result is always `Ok`.
#[verifier::external_body]
fn json_quote(s: &str) -> (r: String)
    ensures
        r@ == json_string_literal(s@),
{
    serde_json::to_string(s).unwrap()
}

impl WsBusMessageType {
    /// The name under which the kind is serialised (camel case).
    pub open spec fn spec_wire_name(self) -> Seq<char> {
        match self {
            WsBusMessageType::Error => "error"@,
            WsBusMessageType::NotConnected => "notConnected"@,
            WsBusMessageType::Reply => "reply"@,
            WsBusMessageType::KeepAlive => "keepAlive"@,
            WsBusMessageType::Ping => "ping"@,
            WsBusMessageType::Pong => "pong"@,
            WsBusMessageType::Closed => "closed"@,
        }
    }

    /// The name under which the kind is serialised (camel case).
    pub fn wire_name(&self) -> (r: &'static str)
        ensures
            r@ == self.spec_wire_name(),
    {
        match self {
            WsBusMessageType::Error => "error",
            WsBusMessageType::NotConnected => "notConnected",
            WsBusMessageType::Reply => "reply",
            WsBusMessageType::KeepAlive => "keepAlive",
            WsBusMessageType::Ping => "ping",
            WsBusMessageType::Pong => "pong",
            WsBusMessageType::Closed => "closed",
        }
    }
}

/// The JSON object of a notice, as its serde form writes it: the fields
/// `messageType` and `content`, in that order, without spaces.
pub open spec fn notice_json(t: WsBusMessageType, content: Seq<char>) -> Seq<char> {
    "{\"messageType\":\""@ + t.spec_wire_name() + "\",\"content\":"@ + json_string_literal(content)
        + "}"@
}

impl WsBusMessage {
    /// The notice as JSON.
    pub fn to_json(&self) -> (r: String)
        ensures
            r@ == notice_json(self.message_type, self.content@),
    {
        let mut out = String::new();
        out.append("{\"messageType\":\"");
        out.append(self.message_type.wire_name());
        out.append("\",\"content\":");
        let quoted = json_quote(self.content.as_str());
        out.append(quoted.as_str());
        out.append("}");
        out
    }
}

// ---------------------------------------------------------------------------
// The chat event bus
// ---------------------------------------------------------------------------

/// What the chat event bus publishes for a request.
pub open spec fn event_bus_output(msg: Request) -> Seq<char> {
    match msg {
        Request::EventBusMsg(s) => notice_json(WsBusMessageType::Reply, s@),
        Request::EventBusKeepAlive => notice_json(WsBusMessageType::Pong, "Pong"@),
        Request::EventBusErr(s) => s@,
        Request::EventBusNotConnected => notice_json(WsBusMessageType::NotConnected, "Error on connection"@),
        Request::EventBusClosed => notice_json(WsBusMessageType::Closed, "Connection closed"@),
    }
}

/// The chat event bus: relays what the websocket service sees to every
/// subscribed component, as a JSON notice or, for a send error, as the bare
/// error text.
pub struct EventBus {
    pub subscribers: Subscribers,
}

impl EventBus {
    /// A bus with nobody subscribed.
    pub fn create() -> (r: EventBus)
        ensures
            r.subscribers@ == Set::<u64>::empty(),
    {
        EventBus { subscribers: Subscribers::new() }
    }

    /// The text that a request publishes.
    pub fn output_for(msg: Request) -> (r: String)
        ensures
            r@ == event_bus_output(msg),
    {
        match msg {
            Request::EventBusMsg(s) => WsBusMessage { message_type: WsBusMessageType::Reply, content: s }.to_json(),
            Request::EventBusKeepAlive => WsBusMessage {
                message_type: WsBusMessageType::Pong,
                content: "Pong".to_owned(),
            }.to_json(),
            Request::EventBusErr(s) => s,
            Request::EventBusNotConnected => WsBusMessage {
                message_type: WsBusMessageType::NotConnected,
                content: "Error on connection".to_owned(),
            }.to_json(),
            Request::EventBusClosed => WsBusMessage {
                message_type: WsBusMessageType::Closed,
                content: "Connection closed".to_owned(),
            }.to_json(),
        }
    }

    /// Handles a request: the handlers to answer, each once, and the text
    /// that each of them receives.
    pub fn handle_input(&self, msg: Request) -> (r: (Vec<u64>, String))
        ensures
            r.0@.to_set() == self.subscribers@,
            r.0@.no_duplicates(),
            r.1@ == event_bus_output(msg),
    {
        (self.subscribers.recipients(), Self::output_for(msg))
    }

    /// A component subscribes.
    pub fn connected(&mut self, id: u64)
        ensures
            final(self).subscribers@ == old(self).subscribers@.insert(id),
    {
        self.subscribers.connected(id);
    }

    /// A component unsubscribes.
    pub fn disconnected(&mut self, id: u64)
        ensures
            final(self).subscribers@ == old(self).subscribers@.remove(id),
    {
        self.subscribers.disconnected(id);
    }
}

// ---------------------------------------------------------------------------
// Relaying buses
// ---------------------------------------------------------------------------

/// A bus that hands each message, unchanged, to every subscriber: the chat
/// bus, the context-menu bus, the toast bus and the authentication bus.
pub struct RelayBus {
    pub subscribers: Subscribers,
}

/// The bus of chat messages.
pub type ChatBus = RelayBus;

/// The bus of context-menu events.
pub type RMenuBus = RelayBus;

/// The bus of alerts.
pub type ToastBus = RelayBus;

/// The bus that tells whether the session is valid.
pub type AuthBus = RelayBus;

impl RelayBus {
    /// A bus with nobody subscribed.
    pub fn create() -> (r: RelayBus)
        ensures
            r.subscribers@ == Set::<u64>::empty(),
    {
        RelayBus { subscribers: Subscribers::new() }
    }

    /// Handles a message: the handlers to answer, each once, and the message
    /// that each of them receives (a copy of the one given).
    pub fn handle_input<M>(&self, msg: M) -> (r: (Vec<u64>, M))
        ensures
            r.0@.to_set() == self.subscribers@,
            r.0@.no_duplicates(),
            r.1 == msg,
    {
        (self.subscribers.recipients(), msg)
    }

    /// A component subscribes.
    pub fn connected(&mut self, id: u64)
        ensures
            final(self).subscribers@ == old(self).subscribers@.insert(id),
    {
        self.subscribers.connected(id);
    }

    /// A component unsubscribes.
    pub fn disconnected(&mut self, id: u64)
        ensures
            final(self).subscribers@ == old(self).subscribers@.remove(id),
    {
        self.subscribers.disconnected(id);
    }
}

/// The script of the worker that runs the chat buses.
pub const CHAT_WORKER: &'static str = "chat_worker.js";

/// The script of the worker that runs the context-menu bus.
pub const RMENU_WORKER: &'static str = "rmenu_worker.js";

/// The script of the worker that runs the authentication bus.
pub const AUTH_WORKER: &'static str = "auth_worker.js";

/// A handler that connects and then disconnects is no longer reached, and
/// the other subscriptions are as they were before it disconnected.
pub proof fn law_connect_then_disconnect(subscribers: Set<u64>, id: u64)
    ensures
        subscribers.insert(id).remove(id) == subscribers.remove(id),
        !subscribers.insert(id).remove(id).contains(id),
{
    assert(subscribers.insert(id).remove(id) =~= subscribers.remove(id));
}

} // verus!
