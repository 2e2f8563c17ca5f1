//! The feed of a room: the state of the chat view and how it reacts to what
//! the websocket yields and to its own timers, as a state machine whose
//! effects the page performs.

use vstd::prelude::*;
use crate::bus::{Alert, AlertView};
use crate::chat::{ContentView, WsMessage, WsMessageContent, WsMessageView, WsReceptionStatus};
use crate::requester::{Method, Requester, UNAUTHORIZED};
use crate::router::{Route, RouteView};

verus! {

/// An effect that the feed asks its page to perform.
pub enum FeedAction {
    /// Open the room's socket at an address.
    OpenWs(String),
    /// Send a message on the socket.
    SendWs(WsMessage),
    /// Close the socket.
    CloseWs,
    /// Check the socket's state in a moment.
    ScheduleStateCheck,
    /// Ask the server whether the session is still valid, by the request of
    /// `Feed::session_check_request`: on `401` go to the
    /// sign-in page; otherwise authenticate again if `authenticate_if_valid`.
    CheckSession { authenticate_if_valid: bool },
    /// Show an alert.
    Toast(Alert),
    /// Go to a route.
    Navigate(Route),
    /// Send a keep-alive every 30 seconds (replacing any such timer).
    StartKeepAlive,
    /// Stop sending keep-alives.
    StopKeepAlive,
    /// Authenticate on the socket (the feed's own `Authenticate` message).
    Authenticate,
}

pub enum FeedActionView {
    OpenWs(Seq<char>),
    SendWs(WsMessageView),
    CloseWs,
    ScheduleStateCheck,
    CheckSession { authenticate_if_valid: bool },
    Toast(AlertView),
    Navigate(RouteView),
    StartKeepAlive,
    StopKeepAlive,
    Authenticate,
}

impl DeepView for FeedAction {
    type V = FeedActionView;

    open spec fn deep_view(&self) -> FeedActionView {
        match self {
            FeedAction::OpenWs(a) => FeedActionView::OpenWs(a@),
            FeedAction::SendWs(m) => FeedActionView::SendWs(m.deep_view()),
            FeedAction::CloseWs => FeedActionView::CloseWs,
            FeedAction::ScheduleStateCheck => FeedActionView::ScheduleStateCheck,
            FeedAction::CheckSession { authenticate_if_valid } => FeedActionView::CheckSession {
                authenticate_if_valid: *authenticate_if_valid,
            },
            FeedAction::Toast(a) => FeedActionView::Toast(a.deep_view()),
            FeedAction::Navigate(r) => FeedActionView::Navigate(r.deep_view()),
            FeedAction::StartKeepAlive => FeedActionView::StartKeepAlive,
            FeedAction::StopKeepAlive => FeedActionView::StopKeepAlive,
            FeedAction::Authenticate => FeedActionView::Authenticate,
        }
    }
}

/// The messages that the feed's own page sends it.
pub enum FeedMsg {
    /// The first state check after opening the socket.
    CheckWsState,
    /// The page closes the socket for good.
    CutWs,
    /// Authenticate on the socket with the current bearer token.
    Authenticate,
}

/// The feed of a room, for the signed-in user `user_id`.
pub struct Feed {
    /// The messages shown, newest first.
    pub received_messages: Vec<WsMessageContent>,
    /// The first state check is still pending.
    pub check_pending: bool,
    /// The socket has answered at least once.
    pub called_back: bool,
    /// The socket is connected.
    pub is_connected: bool,
    /// Keep-alives are being sent.
    pub keep_alive_running: bool,
    /// The page closed the socket for good.
    pub is_closed: bool,
    /// The session under which the room's history is asked for.
    pub session_id: u128,
    /// The room's name was found valid.
    pub room_name_checked: bool,
    /// The signed-in user.
    pub user_id: i32,
}

/// The feed's state as plain values.
pub struct FeedView {
    pub messages: Seq<ContentView>,
    pub check_pending: bool,
    pub called_back: bool,
    pub is_connected: bool,
    pub keep_alive_running: bool,
    pub is_closed: bool,
    pub session_id: u128,
    pub room_name_checked: bool,
    pub user_id: i32,
}

impl DeepView for Feed {
    type V = FeedView;

    open spec fn deep_view(&self) -> FeedView {
        FeedView {
            messages: self.received_messages.deep_view(),
            check_pending: self.check_pending,
            called_back: self.called_back,
            is_connected: self.is_connected,
            keep_alive_running: self.keep_alive_running,
            is_closed: self.is_closed,
            session_id: self.session_id,
            room_name_checked: self.room_name_checked,
            user_id: self.user_id,
        }
    }
}

/// A message that the user has not seen yet: sent by somebody else and not
/// marked seen.
pub open spec fn awaits_seen(m: ContentView, user_id: i32) -> bool {
    m.reception_status == WsReceptionStatus::Sent && m.author.id != user_id
}

/// The identifiers of the messages that the user has not seen yet, in order.
pub open spec fn unseen_uuids(msgs: Seq<ContentView>, user_id: i32) -> Seq<u128>
    decreases msgs.len(),
{
    if msgs.len() == 0 {
        Seq::empty()
    } else {
        unseen_uuids(msgs.drop_last(), user_id) + if awaits_seen(msgs.last(), user_id) {
            seq![msgs.last().uuid]
        } else {
            Seq::<u128>::empty()
        }
    }
}

/// The messages, with those whose identifier is listed marked seen.
pub open spec fn mark_seen(msgs: Seq<ContentView>, uuids: Seq<u128>) -> Seq<ContentView> {
    msgs.map_values(
        |m: ContentView|
            if uuids.contains(m.uuid) {
                ContentView { reception_status: WsReceptionStatus::Seen, ..m }
            } else {
                m
            },
    )
}

/// The messages without those that carry an identifier.
pub open spec fn without_uuid(msgs: Seq<ContentView>, uuid: u128) -> Seq<ContentView>
    decreases msgs.len(),
{
    if msgs.len() == 0 {
        Seq::empty()
    } else {
        without_uuid(msgs.drop_last(), uuid) + if msgs.last().uuid == uuid {
            Seq::<ContentView>::empty()
        } else {
            seq![msgs.last()]
        }
    }
}

/// The alert raised for a room whose name is not valid.
pub open spec fn room_name_alert() -> AlertView {
    AlertView {
        is_success: false,
        label: "room_name_incorrect"@,
        default: "The room name you tried to join is not valid, please select one within this screen."@,
    }
}

/// How the feed reacts to a message from the socket: its next state and the
/// effects to perform. `room_name_valid` says whether the room's name passes
/// the room-name rules.
pub open spec fn spec_on_message(s: FeedView, m: WsMessageView, room_name_valid: bool) -> (
    FeedView,
    Seq<FeedActionView>,
) {
    let s = FeedView { called_back: true, ..s };
    match m {
        WsMessageView::ClientDisconnected | WsMessageView::ConnectionClosed => {
            if s.is_closed {
                (s, Seq::empty())
            } else {
                let check = seq![FeedActionView::CheckSession { authenticate_if_valid: false }];
                let (checked, room) = if s.room_name_checked {
                    (true, Seq::<FeedActionView>::empty())
                } else if room_name_valid {
                    (true, Seq::<FeedActionView>::empty())
                } else {
                    (
                        false,
                        seq![
                            FeedActionView::Toast(room_name_alert()),
                            FeedActionView::Navigate(RouteView::JoinRoom),
                        ],
                    )
                };
                (
                    FeedView {
                        room_name_checked: checked,
                        keep_alive_running: false,
                        is_connected: false,
                        ..s
                    },
                    check + room + seq![FeedActionView::StopKeepAlive],
                )
            }
        },
        WsMessageView::Receive(c) => (
            FeedView { messages: seq![c] + s.messages, ..s },
            if awaits_seen(c, s.user_id) {
                seq![FeedActionView::SendWs(WsMessageView::Seen(seq![c.uuid]))]
            } else {
                Seq::empty()
            },
        ),
        WsMessageView::MessagesRetrieved { messages, session_id } => {
            if session_id == s.session_id {
                let seen = unseen_uuids(messages, s.user_id);
                (
                    FeedView { messages: s.messages + messages, ..s },
                    if seen.len() > 0 {
                        seq![FeedActionView::SendWs(WsMessageView::Seen(seen))]
                    } else {
                        Seq::empty()
                    },
                )
            } else {
                (FeedView { is_connected: true, ..s }, Seq::empty())
            }
        },
        WsMessageView::Pong => (FeedView { is_connected: true, ..s }, seq![FeedActionView::Authenticate]),
        WsMessageView::MessagesSeen(uuids) => (
            FeedView { messages: mark_seen(s.messages, uuids), ..s },
            Seq::empty(),
        ),
        WsMessageView::Delete(uuid) => (
            FeedView { messages: without_uuid(s.messages, uuid), ..s },
            seq![FeedActionView::SendWs(WsMessageView::Delete(uuid))],
        ),
        WsMessageView::AuthenticationRequired => (s, seq![FeedActionView::Authenticate]),
        WsMessageView::AuthenticationValidated => {
            if s.messages.len() == 0 {
                (
                    FeedView { keep_alive_running: true, ..s },
                    seq![
                        FeedActionView::SendWs(WsMessageView::RetrieveMessages(s.session_id)),
                        FeedActionView::StartKeepAlive,
                    ],
                )
            } else {
                (s, Seq::empty())
            }
        },
        WsMessageView::AuthenticationExpired => (
            s,
            seq![FeedActionView::CheckSession { authenticate_if_valid: true }],
        ),
        _ => (FeedView { is_connected: true, ..s }, Seq::empty()),
    }
}

/// How the feed reacts to its own messages; `bearer` is the current bearer
/// token, if any.
pub open spec fn spec_update(s: FeedView, msg: FeedMsg, bearer: Option<Seq<char>>) -> (
    FeedView,
    Seq<FeedActionView>,
    bool,
) {
    match msg {
        FeedMsg::CheckWsState => (
            FeedView { check_pending: false, ..s },
            seq![FeedActionView::SendWs(WsMessageView::Ping)],
            false,
        ),
        FeedMsg::CutWs => (FeedView { is_closed: true, ..s }, seq![FeedActionView::CloseWs], true),
        FeedMsg::Authenticate => (
            s,
            match bearer {
                Some(b) => seq![FeedActionView::SendWs(WsMessageView::Authenticate(b))],
                None => Seq::empty(),
            },
            false,
        ),
    }
}

/// A fresh session identifier (`uuid::Uuid::new_v4`, as its 128-bit value).
/// It is random: nothing is stated of it.
#[verifier::external_body]
fn new_session_id() -> u128 {
    uuid::Uuid::new_v4().as_u128()
}

fn message_uuids_contains(v: &Vec<u128>, x: u128) -> (r: bool)
    ensures
        r == v@.contains(x),
{
    let mut i: usize = 0;
    while i < v.len()
        invariant
            i <= v.len(),
            forall|j: int| 0 <= j < i ==> v@[j] != x,
        decreases v.len() - i,
    {
        if v[i] == x {
            assert(v@[i as int] == x);
            return true;
        }
        i = i + 1;
    }
    false
}

proof fn lemma_unseen_push(msgs: Seq<ContentView>, m: ContentView, user_id: i32)
    ensures
        unseen_uuids(msgs.push(m), user_id) == unseen_uuids(msgs, user_id) + if awaits_seen(m, user_id) {
            seq![m.uuid]
        } else {
            Seq::<u128>::empty()
        },
{
    assert(msgs.push(m).drop_last() =~= msgs);
}

proof fn lemma_without_push(msgs: Seq<ContentView>, m: ContentView, uuid: u128)
    ensures
        without_uuid(msgs.push(m), uuid) == without_uuid(msgs, uuid) + if m.uuid == uuid {
            Seq::<ContentView>::empty()
        } else {
            seq![m]
        },
{
    assert(msgs.push(m).drop_last() =~= msgs);
}

fn unseen_of(messages: &Vec<WsMessageContent>, user_id: i32) -> (r: Vec<u128>)
    ensures
        r@ == unseen_uuids(messages.deep_view(), user_id),
{
    let ghost mv = messages.deep_view();
    let mut out: Vec<u128> = Vec::new();
    let mut i: usize = 0;
    while i < messages.len()
        invariant
            mv == messages.deep_view(),
            i <= messages.len(),
            out@ == unseen_uuids(mv.subrange(0, i as int), user_id),
        decreases messages.len() - i,
    {
        let m = &messages[i];
        proof {
            assert(mv.subrange(0, i + 1) =~= mv.subrange(0, i as int).push(m.deep_view()));
            lemma_unseen_push(mv.subrange(0, i as int), m.deep_view(), user_id);
        }
        if m.reception_status == WsReceptionStatus::Sent && m.author.id != user_id {
            out.push(m.uuid);
        }
        i = i + 1;
    }
    assert(mv.subrange(0, messages.len() as int) =~= mv);
    out
}

impl Feed {
    /// A new feed for the room whose socket address is `address`, opened by
    /// the signed-in user `user_id`, under a fresh random session: it opens
    /// the socket and schedules the first state check.
    pub fn create(address: String, user_id: i32) -> (r: (Feed, Vec<FeedAction>))
        ensures
            r.0.received_messages@.len() == 0,
            r.0.check_pending,
            !r.0.called_back,
            !r.0.is_connected,
            !r.0.keep_alive_running,
            !r.0.is_closed,
            !r.0.room_name_checked,
            r.0.user_id == user_id,
            r.1.deep_view() == seq![FeedActionView::OpenWs(address@), FeedActionView::ScheduleStateCheck],
    {
        let session_id = new_session_id();
        let feed = Feed {
            received_messages: Vec::new(),
            check_pending: true,
            called_back: false,
            is_connected: false,
            keep_alive_running: false,
            is_closed: false,
            session_id,
            room_name_checked: false,
            user_id,
        };
        let ghost av = address@;
        let mut actions: Vec<FeedAction> = Vec::new();
        actions.push(FeedAction::OpenWs(address));
        actions.push(FeedAction::ScheduleStateCheck);
        assert(actions.deep_view() =~= seq![FeedActionView::OpenWs(av), FeedActionView::ScheduleStateCheck]);
        (feed, actions)
    }

    fn mark_seen_in_place(&mut self, uuids: &Vec<u128>)
        ensures
            final(self).deep_view() == (FeedView {
                messages: mark_seen(old(self).deep_view().messages, uuids@),
                ..old(self).deep_view()
            }),
    {
        let ghost before = self.received_messages.deep_view();
        let mut rest: Vec<WsMessageContent> = Vec::new();
        std::mem::swap(&mut rest, &mut self.received_messages);
        let n = rest.len();
        let mut i: usize = 0;
        while i < n
            invariant
                n == before.len(),
                i <= n,
                rest.deep_view() =~= before.subrange(i as int, n as int),
                rest.len() == n - i,
                self.check_pending == old(self).check_pending,
                self.called_back == old(self).called_back,
                self.is_connected == old(self).is_connected,
                self.keep_alive_running == old(self).keep_alive_running,
                self.is_closed == old(self).is_closed,
                self.session_id == old(self).session_id,
                self.room_name_checked == old(self).room_name_checked,
                self.user_id == old(self).user_id,
                self.received_messages.deep_view() =~= mark_seen(before.subrange(0, i as int), uuids@),
            decreases n - i,
        {
            let ghost rv = rest.deep_view();
            let mut m = rest.remove(0);
            proof {
                assert(rv[0] == m.deep_view());
                assert(rest.deep_view() =~= rv.subrange(1, rv.len() as int));
                assert(before.subrange(i as int, n as int)[0] == before[i as int]);
            }
            if message_uuids_contains(uuids, m.uuid) {
                m.reception_status = WsReceptionStatus::Seen;
            }
            let ghost prev = self.received_messages.deep_view();
            self.received_messages.push(m);
            proof {
                assert(before.subrange(0, i + 1) =~= before.subrange(0, i as int).push(before[i as int]));
                assert(self.received_messages.deep_view() =~= prev.push(m.deep_view()));
            }
            i = i + 1;
        }
        assert(before.subrange(0, n as int) =~= before);
    }

    fn remove_uuid(&mut self, uuid: u128)
        ensures
            final(self).deep_view() == (FeedView {
                messages: without_uuid(old(self).deep_view().messages, uuid),
                ..old(self).deep_view()
            }),
    {
        let ghost before = self.received_messages.deep_view();
        let mut rest: Vec<WsMessageContent> = Vec::new();
        std::mem::swap(&mut rest, &mut self.received_messages);
        let n = rest.len();
        let mut i: usize = 0;
        while i < n
            invariant
                n == before.len(),
                i <= n,
                rest.deep_view() =~= before.subrange(i as int, n as int),
                rest.len() == n - i,
                self.check_pending == old(self).check_pending,
                self.called_back == old(self).called_back,
                self.is_connected == old(self).is_connected,
                self.keep_alive_running == old(self).keep_alive_running,
                self.is_closed == old(self).is_closed,
                self.session_id == old(self).session_id,
                self.room_name_checked == old(self).room_name_checked,
                self.user_id == old(self).user_id,
                self.received_messages.deep_view() =~= without_uuid(before.subrange(0, i as int), uuid),
            decreases n - i,
        {
            let ghost rv = rest.deep_view();
            let m = rest.remove(0);
            proof {
                assert(rv[0] == m.deep_view());
                assert(rest.deep_view() =~= rv.subrange(1, rv.len() as int));
                assert(before.subrange(i as int, n as int)[0] == before[i as int]);
            }
            proof {
                assert(before.subrange(0, i + 1) =~= before.subrange(0, i as int).push(before[i as int]));
                lemma_without_push(before.subrange(0, i as int), before[i as int], uuid);
            }
            if m.uuid != uuid {
                let ghost prev = self.received_messages.deep_view();
                self.received_messages.push(m);
                assert(self.received_messages.deep_view() =~= prev.push(before[i as int]));
            }
            i = i + 1;
        }
        assert(before.subrange(0, n as int) =~= before);
    }

    /// How the feed reacts to a message from the socket: it updates its
    /// state and returns the effects to perform (the view is redrawn).
    pub fn on_message(&mut self, message: WsMessage, room_name_valid: bool) -> (r: Vec<FeedAction>)
        ensures
            (final(self).deep_view(), r.deep_view()) == spec_on_message(
                old(self).deep_view(),
                message.deep_view(),
                room_name_valid,
            ),
    {
        let ghost mv = message.deep_view();
        self.called_back = true;
        let mut actions: Vec<FeedAction> = Vec::new();
        match message {
            WsMessage::ClientDisconnected | WsMessage::ConnectionClosed => {
                if !self.is_closed {
                    actions.push(FeedAction::CheckSession { authenticate_if_valid: false });
                    if !self.room_name_checked {
                        if !room_name_valid {
                            actions.push(
                                FeedAction::Toast(
                                    Alert {
                                        is_success: false,
                                        label: "room_name_incorrect".to_owned(),
                                        default: "The room name you tried to join is not valid, please select one within this screen.".to_owned(),
                                    },
                                ),
                            );
                            actions.push(FeedAction::Navigate(Route::JoinRoom));
                        } else {
                            self.room_name_checked = true;
                        }
                    }
                    self.keep_alive_running = false;
                    actions.push(FeedAction::StopKeepAlive);
                    self.is_connected = false;
                }
            },
            WsMessage::Receive(content) => {
                let seen = content.reception_status == WsReceptionStatus::Sent && content.author.id != self.user_id;
                let uuid = content.uuid;
                let ghost before = self.received_messages.deep_view();
                let ghost cv = content.deep_view();
                self.received_messages.insert(0, content);
                assert(self.received_messages.deep_view() =~= seq![cv] + before);
                if seen {
                    let mut v: Vec<u128> = Vec::new();
                    v.push(uuid);
                    actions.push(FeedAction::SendWs(WsMessage::Seen(v)));
                }
            },
            WsMessage::MessagesRetrieved { mut messages, session_id } => {
                if session_id == self.session_id {
                    let seen = unseen_of(&messages, self.user_id);
                    let ghost before = self.received_messages.deep_view();
                    let ghost added = messages.deep_view();
                    self.received_messages.append(&mut messages);
                    assert(self.received_messages.deep_view() =~= before + added);
                    if seen.len() > 0 {
                        actions.push(FeedAction::SendWs(WsMessage::Seen(seen)));
                    }
                } else {
                    self.is_connected = true;
                }
            },
            WsMessage::Pong => {
                self.is_connected = true;
                actions.push(FeedAction::Authenticate);
            },
            WsMessage::MessagesSeen(uuids) => {
                self.mark_seen_in_place(&uuids);
            },
            WsMessage::Delete(uuid) => {
                actions.push(FeedAction::SendWs(WsMessage::Delete(uuid)));
                self.remove_uuid(uuid);
            },
            WsMessage::AuthenticationRequired => {
                actions.push(FeedAction::Authenticate);
            },
            WsMessage::AuthenticationValidated => {
                if self.received_messages.len() == 0 {
                    actions.push(FeedAction::SendWs(WsMessage::RetrieveMessages(self.session_id)));
                    self.keep_alive_running = true;
                    actions.push(FeedAction::StartKeepAlive);
                }
            },
            WsMessage::AuthenticationExpired => {
                actions.push(FeedAction::CheckSession { authenticate_if_valid: true });
            },
            _ => {
                self.is_connected = true;
            },
        }
        proof {
            let (sv, av) = spec_on_message(old(self).deep_view(), mv, room_name_valid);
            assert(self.deep_view() =~= sv);
            assert(actions.deep_view() =~= av);
        }
        actions
    }

    /// The reaction to a change of the page's properties: when the socket's
    /// message list has grown (from `old_len` to `new_len` messages), the
    /// feed reacts to the last message and is redrawn; otherwise nothing
    /// happens.
    pub fn changed(&mut self, old_len: usize, new_len: usize, last: Option<WsMessage>, room_name_valid: bool) -> (r: (
        bool,
        Vec<FeedAction>,
    ))
        requires
            old_len < new_len ==> last is Some,
        ensures
            old_len < new_len ==> r.0 && (final(self).deep_view(), r.1.deep_view()) == spec_on_message(
                old(self).deep_view(),
                last->0.deep_view(),
                room_name_valid,
            ),
            old_len >= new_len ==> !r.0 && r.1@.len() == 0 && final(self).deep_view() == old(self).deep_view(),
    {
        if old_len < new_len {
            match last {
                Some(m) => (true, self.on_message(m, room_name_valid)),
                None => (true, Vec::new()),
            }
        } else {
            (false, Vec::new())
        }
    }

    /// How the feed reacts to its own messages: its next state, the effects
    /// to perform, and whether to redraw. `bearer` is the current bearer
    /// token.
    pub fn update(&mut self, msg: FeedMsg, bearer: Option<String>) -> (r: (Vec<FeedAction>, bool))
        ensures
            (final(self).deep_view(), r.0.deep_view(), r.1) == spec_update(old(self).deep_view(), msg, bearer.deep_view()),
    {
        let ghost bv = bearer.deep_view();
        let mut actions: Vec<FeedAction> = Vec::new();
        let redraw = match msg {
            FeedMsg::CheckWsState => {
                actions.push(FeedAction::SendWs(WsMessage::Ping));
                self.check_pending = false;
                false
            },
            FeedMsg::CutWs => {
                self.is_closed = true;
                actions.push(FeedAction::CloseWs);
                true
            },
            FeedMsg::Authenticate => {
                match bearer {
                    Some(b) => {
                        actions.push(FeedAction::SendWs(WsMessage::Authenticate(b)));
                    },
                    None => {},
                }
                false
            },
        };
        proof {
            let (sv, av, rv) = spec_update(old(self).deep_view(), msg, bv);
            assert(actions.deep_view() =~= av);
        }
        (actions, redraw)
    }

    /// The request of a `CheckSession` effect: the `GET /api/validate` of
    /// the session, with the bearer token and its setter.
    pub fn session_check_request<P, S>(current: Option<String>, setter: S) -> (r: Requester<P, S>)
        ensures
            r.spec_fields() == (Some("/api/validate"@), Some(Method::GET), false, false, current.deep_view()),
            r.payload is None,
            r.bearer_setter == Some(setter),
    {
        Requester::session_check(current, setter)
    }

    /// What follows the server's answer to a session check: the sign-in
    /// page when the session is over (`401`); otherwise a new authentication
    /// on the socket if the check asked for one, and nothing else.
    pub fn session_checked(status: u16, authenticate_if_valid: bool) -> (r: Option<FeedAction>)
        ensures
            status == UNAUTHORIZED ==> r matches Some(FeedAction::Navigate(Route::SignIn)),
            status != UNAUTHORIZED && authenticate_if_valid ==> r matches Some(FeedAction::Authenticate),
            status != UNAUTHORIZED && !authenticate_if_valid ==> r is None,
    {
        if status == UNAUTHORIZED {
            Some(FeedAction::Navigate(Route::SignIn))
        } else if authenticate_if_valid {
            Some(FeedAction::Authenticate)
        } else {
            None
        }
    }

    /// What the feed shows below the messages: the typing bar when
    /// connected, the disconnection bar otherwise.
    pub fn shows_type_bar(&self) -> (r: bool)
        ensures
            r == self.is_connected,
    {
        self.is_connected
    }

    /// What the feed does when its page goes away: close the socket.
    pub fn destroy(&self) -> (r: Vec<FeedAction>)
        ensures
            r.deep_view() == seq![FeedActionView::CloseWs],
    {
        let mut v = Vec::new();
        v.push(FeedAction::CloseWs);
        assert(v.deep_view() =~= seq![FeedActionView::CloseWs]);
        v
    }
}

// ---------------------------------------------------------------------------
// Laws
// ---------------------------------------------------------------------------

proof fn lemma_without_uuid_facts(msgs: Seq<ContentView>, uuid: u128)
    ensures
        without_uuid(msgs, uuid).len() <= msgs.len(),
        forall|i: int| 0 <= i < without_uuid(msgs, uuid).len() ==> (#[trigger] without_uuid(msgs, uuid)[i]).uuid != uuid,
        forall|i: int|
            0 <= i < without_uuid(msgs, uuid).len() ==> msgs.contains(#[trigger] without_uuid(msgs, uuid)[i]),
    decreases msgs.len(),
{
    if msgs.len() > 0 {
        lemma_without_uuid_facts(msgs.drop_last(), uuid);
        let w = without_uuid(msgs, uuid);
        let p = without_uuid(msgs.drop_last(), uuid);
        assert forall|i: int| 0 <= i < w.len() implies msgs.contains(#[trigger] w[i]) by {
            if i < p.len() {
                assert(w[i] == p[i]);
                let k = choose|k: int| 0 <= k < msgs.drop_last().len() && msgs.drop_last()[k] == p[i];
                assert(msgs[k] == p[i]);
            } else {
                assert(w[i] == msgs.last());
                assert(msgs[msgs.len() - 1] == msgs.last());
            }
        }
        assert forall|i: int| 0 <= i < w.len() implies (#[trigger] w[i]).uuid != uuid by {
            if i < p.len() {
                assert(w[i] == p[i]);
            }
        }
    }
}

/// Deleting a message: afterwards no message of the feed carries its
/// identifier, the others are kept (each remaining message was there
/// before), and the deletion is passed on to the server.
pub proof fn law_delete_removes_message(s: FeedView, uuid: u128, room_name_valid: bool)
    ensures
        ({
            let (t, actions) = spec_on_message(s, WsMessageView::Delete(uuid), room_name_valid);
            &&& forall|i: int| 0 <= i < t.messages.len() ==> (#[trigger] t.messages[i]).uuid != uuid
            &&& forall|i: int| 0 <= i < t.messages.len() ==> s.messages.contains(#[trigger] t.messages[i])
            &&& t.messages.len() <= s.messages.len()
            &&& actions == seq![FeedActionView::SendWs(WsMessageView::Delete(uuid))]
        }),
{
    lemma_without_uuid_facts(s.messages, uuid);
}

/// Marking messages seen changes nothing but their status: the feed keeps
/// its messages, in order, and exactly the listed ones become seen.
pub proof fn law_seen_marks_only_listed(s: FeedView, uuids: Seq<u128>, room_name_valid: bool)
    ensures
        ({
            let (t, actions) = spec_on_message(s, WsMessageView::MessagesSeen(uuids), room_name_valid);
            &&& t.messages.len() == s.messages.len()
            &&& forall|i: int|
                0 <= i < s.messages.len() ==> {
                    let (a, b) = (#[trigger] s.messages[i], t.messages[i]);
                    &&& b.uuid == a.uuid && b.content == a.content && b.author == a.author
                    &&& b.reception_status == if uuids.contains(a.uuid) {
                        WsReceptionStatus::Seen
                    } else {
                        a.reception_status
                    }
                }
            &&& actions.len() == 0
        }),
{
}

/// A message received goes first in the feed (which is newest first), and
/// the user reports it seen when it awaits that.
pub proof fn law_received_goes_first(s: FeedView, c: ContentView, room_name_valid: bool)
    ensures
        ({
            let (t, actions) = spec_on_message(s, WsMessageView::Receive(c), room_name_valid);
            &&& t.messages.len() == s.messages.len() + 1
            &&& t.messages[0] == c
            &&& t.messages.subrange(1, t.messages.len() as int) == s.messages
            &&& awaits_seen(c, s.user_id) <==> actions.len() == 1
        }),
{
    let t = seq![c] + s.messages;
    assert(t.subrange(1, t.len() as int) =~= s.messages);
}

/// Once the page has closed the socket for good, losing the connection
/// changes nothing but the fact that the socket has answered, and asks for
/// nothing.
pub proof fn law_closed_feed_ignores_disconnection(s: FeedView, room_name_valid: bool)
    requires
        s.is_closed,
    ensures
        spec_on_message(s, WsMessageView::ClientDisconnected, room_name_valid) == (
            FeedView { called_back: true, ..s },
            Seq::<FeedActionView>::empty(),
        ),
        spec_on_message(s, WsMessageView::ConnectionClosed, room_name_valid) == (
            FeedView { called_back: true, ..s },
            Seq::<FeedActionView>::empty(),
        ),
{
}

/// The history of the room is asked for only while the feed is empty:
/// a validated authentication on a feed that shows messages asks for
/// nothing.
pub proof fn law_history_asked_once(s: FeedView, room_name_valid: bool)
    requires
        s.messages.len() > 0,
    ensures
        spec_on_message(s, WsMessageView::AuthenticationValidated, room_name_valid).1.len() == 0,
{
}

/// Losing the socket disconnects the feed: after `ClientDisconnected` or
/// `ConnectionClosed` on a feed that the page has not closed, the feed is
/// not connected (the disconnected bar shows) and sends no more
/// keep-alives, whatever the room name; it asks whether the session is
/// still valid first and stops the keep-alive timer last.
pub proof fn law_disconnection_disconnects(s: FeedView, room_name_valid: bool)
    requires
        !s.is_closed,
    ensures
        ({
            let (t, a) = spec_on_message(s, WsMessageView::ClientDisconnected, room_name_valid);
            &&& !t.is_connected && !t.keep_alive_running && t.called_back
            &&& a.len() >= 2 && a[0] == FeedActionView::CheckSession { authenticate_if_valid: false }
            &&& a[a.len() - 1] == FeedActionView::StopKeepAlive
            &&& t.messages == s.messages
        }),
        ({
            let (t, a) = spec_on_message(s, WsMessageView::ConnectionClosed, room_name_valid);
            &&& !t.is_connected && !t.keep_alive_running && t.called_back
            &&& a.len() >= 2 && a[0] == FeedActionView::CheckSession { authenticate_if_valid: false }
            &&& a[a.len() - 1] == FeedActionView::StopKeepAlive
            &&& t.messages == s.messages
        }),
{
}

} // verus!
