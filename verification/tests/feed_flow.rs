use tchatchers_front::requester::{Method, Requester};
use tchatchers_front::chat::{Author, WsMessage, WsMessageContent, WsReceptionStatus};
use tchatchers_front::feed::{Feed, FeedAction, FeedMsg};
use tchatchers_front::router::Route;

fn content(uuid: u128, author: i32, status: WsReceptionStatus) -> WsMessageContent {
    WsMessageContent {
        uuid,
        content: "hi".to_string(),
        author: Author { id: author, name: "someone".to_string(), pfp: None },
        timestamp: 1_700_000_000_000,
        room: "rust".to_string(),
        reception_status: status,
    }
}

fn new_feed(user: i32) -> Feed {
    let (feed, actions) = Feed::create("ws://localhost/ws/rust".to_string(), user);
    assert_eq!(actions.len(), 2);
    match &actions[0] {
        FeedAction::OpenWs(a) => assert_eq!(a, "ws://localhost/ws/rust"),
        _ => panic!("the feed opens its socket first"),
    }
    assert!(matches!(actions[1], FeedAction::ScheduleStateCheck));
    feed
}

fn uuids(feed: &Feed) -> Vec<u128> {
    feed.received_messages.iter().map(|m| m.uuid).collect()
}

#[test]
fn a_new_feed_is_empty_and_waiting() {
    let feed = new_feed(1);
    assert!(feed.received_messages.is_empty());
    assert!(feed.check_pending);
    assert!(!feed.called_back);
    assert!(!feed.is_connected);
    assert!(!feed.is_closed);
    assert!(!feed.shows_type_bar());
    assert_eq!(feed.user_id, 1);
}

#[test]
fn two_feeds_get_different_sessions() {
    let a = new_feed(1);
    let b = new_feed(1);
    assert_ne!(a.session_id, b.session_id);
}

#[test]
fn received_messages_go_first_and_are_reported_seen() {
    let mut feed = new_feed(1);
    let actions = feed.on_message(WsMessage::Receive(content(10, 2, WsReceptionStatus::Sent)), true);
    assert!(feed.called_back);
    assert_eq!(actions.len(), 1);
    match &actions[0] {
        FeedAction::SendWs(WsMessage::Seen(v)) => assert_eq!(v, &vec![10]),
        _ => panic!("a message of another user is reported seen"),
    }
    let actions = feed.on_message(WsMessage::Receive(content(11, 1, WsReceptionStatus::Sent)), true);
    assert!(actions.is_empty());
    assert_eq!(uuids(&feed), vec![11, 10]);
}

#[test]
fn history_of_the_session_is_appended() {
    let mut feed = new_feed(1);
    let session = feed.session_id;
    feed.on_message(WsMessage::Receive(content(1, 1, WsReceptionStatus::Seen)), true);
    let history = vec![
        content(2, 3, WsReceptionStatus::Sent),
        content(3, 1, WsReceptionStatus::Sent),
        content(4, 3, WsReceptionStatus::Seen),
        content(5, 4, WsReceptionStatus::Sent),
    ];
    let actions = feed.on_message(WsMessage::MessagesRetrieved { messages: history, session_id: session }, true);
    assert_eq!(uuids(&feed), vec![1, 2, 3, 4, 5]);
    assert_eq!(actions.len(), 1);
    match &actions[0] {
        FeedAction::SendWs(WsMessage::Seen(v)) => assert_eq!(v, &vec![2, 5]),
        _ => panic!("unseen messages of others are reported"),
    }
}

#[test]
fn history_of_another_session_is_ignored() {
    let mut feed = new_feed(1);
    let other = feed.session_id.wrapping_add(1);
    let actions = feed.on_message(
        WsMessage::MessagesRetrieved { messages: vec![content(2, 3, WsReceptionStatus::Sent)], session_id: other },
        true,
    );
    assert!(actions.is_empty());
    assert!(feed.received_messages.is_empty());
    assert!(feed.is_connected);
}

#[test]
fn seen_and_delete() {
    let mut feed = new_feed(1);
    for (u, s) in [(1, WsReceptionStatus::Sent), (2, WsReceptionStatus::Sent), (3, WsReceptionStatus::NotSent)] {
        feed.on_message(WsMessage::Receive(content(u, 1, s)), true);
    }
    let actions = feed.on_message(WsMessage::MessagesSeen(vec![1, 3, 99]), true);
    assert!(actions.is_empty());
    let statuses: Vec<WsReceptionStatus> = feed.received_messages.iter().map(|m| m.reception_status).collect();
    assert_eq!(statuses, vec![WsReceptionStatus::Seen, WsReceptionStatus::Sent, WsReceptionStatus::Seen]);
    let actions = feed.on_message(WsMessage::Delete(2), true);
    assert_eq!(uuids(&feed), vec![3, 1]);
    assert_eq!(actions.len(), 1);
    assert!(matches!(actions[0], FeedAction::SendWs(WsMessage::Delete(2))));
}

#[test]
fn pong_connects_and_authenticates() {
    let mut feed = new_feed(1);
    let actions = feed.on_message(WsMessage::Pong, true);
    assert!(feed.is_connected);
    assert!(feed.shows_type_bar());
    assert_eq!(actions.len(), 1);
    assert!(matches!(actions[0], FeedAction::Authenticate));
    let actions = feed.on_message(WsMessage::AuthenticationRequired, true);
    assert!(matches!(actions[..], [FeedAction::Authenticate]));
}

#[test]
fn validated_authentication_asks_history_once() {
    let mut feed = new_feed(1);
    let session = feed.session_id;
    let actions = feed.on_message(WsMessage::AuthenticationValidated, true);
    assert!(feed.keep_alive_running);
    assert_eq!(actions.len(), 2);
    match &actions[0] {
        FeedAction::SendWs(WsMessage::RetrieveMessages(s)) => assert_eq!(*s, session),
        _ => panic!("the history of the session is asked"),
    }
    assert!(matches!(actions[1], FeedAction::StartKeepAlive));
    feed.on_message(WsMessage::Receive(content(1, 2, WsReceptionStatus::Seen)), true);
    assert!(feed.on_message(WsMessage::AuthenticationValidated, true).is_empty());
}

#[test]
fn expired_authentication_checks_the_session() {
    let mut feed = new_feed(1);
    let actions = feed.on_message(WsMessage::AuthenticationExpired, true);
    assert!(matches!(actions[..], [FeedAction::CheckSession { authenticate_if_valid: true }]));
}

#[test]
fn disconnection_with_an_invalid_room_name() {
    let mut feed = new_feed(1);
    feed.on_message(WsMessage::Pong, true);
    let actions = feed.on_message(WsMessage::ClientDisconnected, false);
    assert!(!feed.is_connected);
    assert!(!feed.room_name_checked);
    assert_eq!(actions.len(), 4);
    assert!(matches!(actions[0], FeedAction::CheckSession { authenticate_if_valid: false }));
    match &actions[1] {
        FeedAction::Toast(alert) => {
            assert!(!alert.is_success);
            assert_eq!(alert.label, "room_name_incorrect");
        }
        _ => panic!("an invalid room name raises an alert"),
    }
    assert!(matches!(actions[2], FeedAction::Navigate(Route::JoinRoom)));
    assert!(matches!(actions[3], FeedAction::StopKeepAlive));
}

#[test]
fn disconnection_with_a_valid_room_name() {
    let mut feed = new_feed(1);
    let actions = feed.on_message(WsMessage::ConnectionClosed, true);
    assert!(feed.room_name_checked);
    assert_eq!(actions.len(), 2);
    assert!(matches!(actions[0], FeedAction::CheckSession { authenticate_if_valid: false }));
    assert!(matches!(actions[1], FeedAction::StopKeepAlive));
}

#[test]
fn a_closed_feed_ignores_disconnection() {
    let mut feed = new_feed(1);
    let (actions, redraw) = feed.update(FeedMsg::CutWs, None);
    assert!(redraw);
    assert!(matches!(actions[..], [FeedAction::CloseWs]));
    assert!(feed.on_message(WsMessage::ClientDisconnected, false).is_empty());
    assert!(feed.on_message(WsMessage::ConnectionClosed, false).is_empty());
}

#[test]
fn own_messages_of_the_feed() {
    let mut feed = new_feed(1);
    let (actions, redraw) = feed.update(FeedMsg::CheckWsState, None);
    assert!(!redraw);
    assert!(!feed.check_pending);
    assert!(matches!(actions[..], [FeedAction::SendWs(WsMessage::Ping)]));
    let (actions, _) = feed.update(FeedMsg::Authenticate, Some("tok".to_string()));
    match &actions[..] {
        [FeedAction::SendWs(WsMessage::Authenticate(t))] => assert_eq!(t, "tok"),
        _ => panic!("the bearer is sent"),
    }
    let (actions, _) = feed.update(FeedMsg::Authenticate, None);
    assert!(actions.is_empty());
    assert!(matches!(feed.destroy()[..], [FeedAction::CloseWs]));
}

#[test]
fn properties_change_only_when_messages_grow() {
    let mut feed = new_feed(1);
    let (redraw, actions) = feed.changed(3, 3, None, true);
    assert!(!redraw);
    assert!(actions.is_empty());
    let (redraw, actions) = feed.changed(3, 4, Some(WsMessage::Pong), true);
    assert!(redraw);
    assert!(matches!(actions[..], [FeedAction::Authenticate]));
}

#[test]
fn answers_to_session_checks() {
    assert!(matches!(Feed::session_checked(401, true), Some(FeedAction::Navigate(Route::SignIn))));
    assert!(matches!(Feed::session_checked(401, false), Some(FeedAction::Navigate(Route::SignIn))));
    assert!(matches!(Feed::session_checked(200, true), Some(FeedAction::Authenticate)));
    assert!(Feed::session_checked(200, false).is_none());
    assert!(Feed::session_checked(500, false).is_none());
}

#[test]
fn session_check_request() {
    let r: Requester<(), u8> = Feed::session_check_request(Some("tok".to_string()), 4);
    assert_eq!(r.method, Some(Method::GET));
    assert_eq!(r.endpoint.as_deref(), Some("/api/validate"));
    assert_eq!(r.bearer_value.as_deref(), Some("tok"));
}
