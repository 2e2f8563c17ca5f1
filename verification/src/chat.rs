//! The chat's data: messages, the websocket protocol between client and
//! server, and how a list of messages is laid out on screen.

use vstd::prelude::*;
use crate::text::{pad2, int_decimal, nat_digits, push_digits, push_pad2};

verus! {

/// How far a message has gone.
#[derive(PartialEq, Eq, Structural, Clone, Copy, Debug)]
pub enum WsReceptionStatus {
    NotSent,
    Sent,
    Seen,
}

/// The author of a message.
pub struct Author {
    pub id: i32,
    pub name: String,
    pub pfp: Option<String>,
}

/// A chat message.
pub struct WsMessageContent {
    /// The message's identifier (a UUID, as its 128-bit value).
    pub uuid: u128,
    pub content: String,
    pub author: Author,
    /// When the message was sent, in milliseconds since the Unix epoch.
    pub timestamp: i64,
    pub room: String,
    pub reception_status: WsReceptionStatus,
}

/// The messages of the websocket protocol, in both directions.
pub enum WsMessage {
    /// The client sends a message.
    Send(WsMessageContent),
    /// The server relays a message.
    Receive(WsMessageContent),
    Ping,
    Pong,
    ClientKeepAlive,
    ClientDisconnected,
    ConnectionClosed,
    ErrorOnMessage(String),
    /// The client asks for the room's history, for a session.
    RetrieveMessages(u128),
    /// The server answers with the room's history, for a session.
    MessagesRetrieved { messages: Vec<WsMessageContent>, session_id: u128 },
    /// The client reports that it has seen messages.
    Seen(Vec<u128>),
    /// The server reports that messages have been seen.
    MessagesSeen(Vec<u128>),
    /// A message is deleted.
    Delete(u128),
    /// The client authenticates with its bearer token.
    Authenticate(String),
    AuthenticationRequired,
    AuthenticationValidated,
    AuthenticationExpired,
}

// ---------------------------------------------------------------------------
// Views
// ---------------------------------------------------------------------------

pub struct AuthorView {
    pub id: i32,
    pub name: Seq<char>,
    pub pfp: Option<Seq<char>>,
}

pub struct ContentView {
    pub uuid: u128,
    pub content: Seq<char>,
    pub author: AuthorView,
    pub timestamp: i64,
    pub room: Seq<char>,
    pub reception_status: WsReceptionStatus,
}

pub enum WsMessageView {
    Send(ContentView),
    Receive(ContentView),
    Ping,
    Pong,
    ClientKeepAlive,
    ClientDisconnected,
    ConnectionClosed,
    ErrorOnMessage(Seq<char>),
    RetrieveMessages(u128),
    MessagesRetrieved { messages: Seq<ContentView>, session_id: u128 },
    Seen(Seq<u128>),
    MessagesSeen(Seq<u128>),
    Delete(u128),
    Authenticate(Seq<char>),
    AuthenticationRequired,
    AuthenticationValidated,
    AuthenticationExpired,
}

impl DeepView for Author {
    type V = AuthorView;

    open spec fn deep_view(&self) -> AuthorView {
        AuthorView { id: self.id, name: self.name@, pfp: self.pfp.deep_view() }
    }
}

impl DeepView for WsMessageContent {
    type V = ContentView;

    open spec fn deep_view(&self) -> ContentView {
        ContentView {
            uuid: self.uuid,
            content: self.content@,
            author: self.author.deep_view(),
            timestamp: self.timestamp,
            room: self.room@,
            reception_status: self.reception_status,
        }
    }
}

impl DeepView for WsMessage {
    type V = WsMessageView;

    open spec fn deep_view(&self) -> WsMessageView {
        match self {
            WsMessage::Send(c) => WsMessageView::Send(c.deep_view()),
            WsMessage::Receive(c) => WsMessageView::Receive(c.deep_view()),
            WsMessage::Ping => WsMessageView::Ping,
            WsMessage::Pong => WsMessageView::Pong,
            WsMessage::ClientKeepAlive => WsMessageView::ClientKeepAlive,
            WsMessage::ClientDisconnected => WsMessageView::ClientDisconnected,
            WsMessage::ConnectionClosed => WsMessageView::ConnectionClosed,
            WsMessage::ErrorOnMessage(s) => WsMessageView::ErrorOnMessage(s@),
            WsMessage::RetrieveMessages(u) => WsMessageView::RetrieveMessages(*u),
            WsMessage::MessagesRetrieved { messages, session_id } => WsMessageView::MessagesRetrieved {
                messages: messages.deep_view(),
                session_id: *session_id,
            },
            WsMessage::Seen(v) => WsMessageView::Seen(v@),
            WsMessage::MessagesSeen(v) => WsMessageView::MessagesSeen(v@),
            WsMessage::Delete(u) => WsMessageView::Delete(*u),
            WsMessage::Authenticate(s) => WsMessageView::Authenticate(s@),
            WsMessage::AuthenticationRequired => WsMessageView::AuthenticationRequired,
            WsMessage::AuthenticationValidated => WsMessageView::AuthenticationValidated,
            WsMessage::AuthenticationExpired => WsMessageView::AuthenticationExpired,
        }
    }
}

// ---------------------------------------------------------------------------
// Laying out the messages
// ---------------------------------------------------------------------------

/// The picture shown for an author without one.
pub const DEFAULT_PFP: &'static str = "/assets/no_pfp.webp";

/// How one message is shown.
#[derive(PartialEq, Eq, Structural, Clone, Copy, Debug)]
pub struct ChatEntry {
    /// The message is the user's own (shown on the other side, without
    /// picture).
    pub is_user: bool,
    /// The author's picture is shown next to the message.
    pub display_pfp: bool,
}

/// How the message at `i` of a list is shown to the user `user_id`. The list
/// is newest first, so the message after `i` is the one sent before it: the
/// picture of another author is shown on the first message of each run of
/// messages by that author.
pub open spec fn spec_chat_entry(msgs: Seq<ContentView>, user_id: i32, i: int) -> ChatEntry {
    let author = msgs[i].author.id;
    ChatEntry {
        is_user: author == user_id,
        display_pfp: user_id != author && (i + 1 >= msgs.len() || msgs[i + 1].author.id != author),
    }
}

/// The messages of a room, as the chat view lays them out.
pub struct Chat;

impl Chat {
    /// How each message of the list (newest first) is shown to the user
    /// `user_id`.
    pub fn entries(messages: &Vec<WsMessageContent>, user_id: i32) -> (r: Vec<ChatEntry>)
        ensures
            r.len() == messages.len(),
            forall|i: int| 0 <= i < r.len() ==> r[i] == #[trigger] spec_chat_entry(messages.deep_view(), user_id, i),
    {
        let ghost mv = messages.deep_view();
        let n = messages.len();
        let mut out: Vec<ChatEntry> = Vec::new();
        let mut i: usize = 0;
        while i < n
            invariant
                n == messages.len(),
                mv == messages.deep_view(),
                i <= n,
                out.len() == i,
                forall|j: int| 0 <= j < i ==> out[j] == #[trigger] spec_chat_entry(mv, user_id, j),
            decreases n - i,
        {
            let author = messages[i].author.id;
            assert(mv[i as int].author.id == author);
            let next_differs = if i + 1 < n {
                assert(mv[i + 1].author.id == messages[i + 1].author.id);
                messages[i + 1].author.id != author
            } else {
                true
            };
            out.push(ChatEntry { is_user: author == user_id, display_pfp: user_id != author && next_differs });
            i = i + 1;
        }
        out
    }

    /// The picture shown for an author.
    pub fn pfp_or_default(pfp: &Option<String>) -> (r: String)
        ensures
            r@ == match pfp {
                Some(p) => p@,
                None => DEFAULT_PFP@,
            },
    {
        match pfp {
            Some(p) => p.clone(),
            None => DEFAULT_PFP.to_owned(),
        }
    }
}

/// The check mark drawn on one's own messages: a tick once sent, a circled
/// tick once seen, nothing on others' messages or unsent ones.
pub open spec fn spec_reception_checkmark(status: WsReceptionStatus, is_user: bool) -> Option<Seq<char>> {
    if is_user && status == WsReceptionStatus::Sent {
        Some("M4.5 12.75l6 6 9-13.5"@)
    } else if is_user && status == WsReceptionStatus::Seen {
        Some("M9 12.75L11.25 15 15 9.75M21 12a9 9 0 11-18 0 9 9 0 0118 0z"@)
    } else {
        None
    }
}

/// The path of the check mark drawn on a message.
pub fn reception_checkmark(status: WsReceptionStatus, is_user: bool) -> (r: Option<&'static str>)
    ensures
        match r {
            Some(p) => spec_reception_checkmark(status, is_user) == Some(p@),
            None => spec_reception_checkmark(status, is_user) is None,
        },
{
    match status {
        WsReceptionStatus::Sent if is_user => Some("M4.5 12.75l6 6 9-13.5"),
        WsReceptionStatus::Seen if is_user => Some("M9 12.75L11.25 15 15 9.75M21 12a9 9 0 11-18 0 9 9 0 0118 0z"),
        _ => None,
    }
}

/// The class of a message's bubble: the user's own messages and the others'
/// are drawn apart.
pub fn message_class(is_user: bool) -> (r: &'static str)
    ensures
        is_user ==> r@ == "message-user"@,
        !is_user ==> r@ == "message-other"@,
{
    if is_user {
        "message-user"
    } else {
        "message-other"
    }
}

/// The time at which a message is shown, in milliseconds: its timestamp
/// moved to the browser's time zone, whose offset (`timezone_offset`, in
/// minutes, as the browser gives it: UTC minus local time) is taken off.
pub fn local_timestamp(timestamp: i64, timezone_offset: i64) -> (r: i64)
    requires
        i64::MIN <= timestamp - timezone_offset * 60000 <= i64::MAX,
    ensures
        r == timestamp - timezone_offset * 60000,
{
    let t: i128 = timestamp as i128 - (timezone_offset as i128) * 60000;
    t as i64
}

/// The tooltip of a message: `on DD/MM/YYYY at H:MM`.
pub open spec fn spec_message_title(day: nat, month: nat, year: int, hour: nat, minute: nat) -> Seq<char> {
    "on "@ + pad2(day) + "/"@ + pad2(month) + "/"@ + int_decimal(year) + " at "@ + nat_digits(hour)
        + ":"@ + pad2(minute)
}

/// The tooltip of a message, from the calendar fields of its local time.
pub fn message_title(day: u32, month: u32, year: i32, hour: u32, minute: u32) -> (r: String)
    ensures
        r@ == spec_message_title(day as nat, month as nat, year as int, hour as nat, minute as nat),
{
    let mut out = "on ".to_owned();
    push_pad2(&mut out, day as u64);
    out.append("/");
    push_pad2(&mut out, month as u64);
    out.append("/");
    let y = crate::text::i64_to_decimal(year as i64);
    out.append(y.as_str());
    out.append(" at ");
    push_digits(&mut out, hour as u64);
    out.append(":");
    push_pad2(&mut out, minute as u64);
    out
}

/// One's own messages never show the author's picture.
pub proof fn law_own_messages_without_picture(msgs: Seq<ContentView>, user_id: i32, i: int)
    ensures
        spec_chat_entry(msgs, user_id, i).display_pfp ==> !spec_chat_entry(msgs, user_id, i).is_user,
{
}

} // verus!
