//! The overlays of the page: toasts, the confirmation modal, and the
//! context menus of messages and profiles.

use vstd::prelude::*;
use crate::chat::WsMessage;
use crate::requester::{Method, Requester};
use crate::bus::{Alert, AlertView, MessageRMenuProps, RMenuKind, RMenusBusEvents, hex_digit};
use crate::i18n::TranslationMap;
use crate::text::{int_decimal, i64_to_decimal, lookup};

verus! {

// ---------------------------------------------------------------------------
// Toasts
// ---------------------------------------------------------------------------

/// How long a toast stays, in milliseconds.
pub const TOAST_COOLDOWN_MS: u32 = 3000u32;

/// How long a new toast or modal bounces, in milliseconds.
pub const BOUNCE_MS: u32 = 500u32;

/// The messages of the toast.
pub enum ToastMsg {
    /// Show an alert.
    NewToast(Alert),
    /// Hide the toast.
    Hide,
    /// Stop the toast's bouncing.
    StopBounce,
}

/// A timer that the toast asks its page to start, replacing the pending
/// timer of the same kind (so a new alert also cancels an earlier `Hide`).
#[derive(PartialEq, Eq, Structural, Clone, Copy, Debug)]
pub enum ToastTimer {
    /// Send `Hide` after `TOAST_COOLDOWN_MS`.
    Hide,
    /// Send `StopBounce` after `BOUNCE_MS`.
    StopBounce,
}

/// The toast in the corner of the page.
pub struct Toast {
    /// The text shown.
    pub msg: String,
    pub is_success: bool,
    pub visible: bool,
    /// The toast bounces (it was just shown).
    pub bouncing: bool,
}

impl Toast {
    /// A hidden toast without text.
    pub fn create() -> (r: Toast)
        ensures
            r.msg@ == Seq::<char>::empty(),
            !r.is_success,
            !r.visible,
            !r.bouncing,
    {
        Toast { msg: String::new(), is_success: false, visible: false, bouncing: false }
    }

    /// Handles a message; the toast is redrawn after each (the second value),
    /// and the timers returned are started, each replacing the pending timer
    /// of its kind. A new alert is shown in the user's language:
    /// the translation of its label, or "Message unknown".
    pub fn update(&mut self, msg: ToastMsg, translation: &TranslationMap) -> (r: (Vec<ToastTimer>, bool))
        ensures
            r.1,
            match msg {
                ToastMsg::NewToast(alert) => {
                    &&& final(self).msg@ == match lookup(translation.spec_entries(), alert.label@) {
                        Some(t) => t,
                        None => "Message unknown"@,
                    }
                    &&& final(self).is_success == alert.is_success
                    &&& final(self).visible
                    &&& final(self).bouncing
                    &&& r.0@ == seq![ToastTimer::Hide, ToastTimer::StopBounce]
                },
                ToastMsg::Hide => {
                    &&& final(self).msg == old(self).msg
                    &&& final(self).is_success == old(self).is_success
                    &&& !final(self).visible
                    &&& final(self).bouncing == old(self).bouncing
                    &&& r.0@.len() == 0
                },
                ToastMsg::StopBounce => {
                    &&& final(self).msg == old(self).msg
                    &&& final(self).is_success == old(self).is_success
                    &&& final(self).visible == old(self).visible
                    &&& !final(self).bouncing
                    &&& r.0@.len() == 0
                },
            },
    {
        let mut timers: Vec<ToastTimer> = Vec::new();
        match msg {
            ToastMsg::NewToast(alert) => {
                self.msg = translation.get_or_default(alert.label.as_str(), "Message unknown");
                self.is_success = alert.is_success;
                self.visible = true;
                self.bouncing = true;
                timers.push(ToastTimer::Hide);
                timers.push(ToastTimer::StopBounce);
                assert(timers@ =~= seq![ToastTimer::Hide, ToastTimer::StopBounce]);
            },
            ToastMsg::Hide => {
                self.visible = false;
            },
            ToastMsg::StopBounce => {
                self.bouncing = false;
            },
        }
        (timers, true)
    }

    /// The classes of the toast's container: its placement, and the bounce
    /// animation while it bounces.
    pub fn container_class(&self) -> (r: String)
        ensures
            r@ == "z-50 absolute right-3 bottom-5 md:bottom-10 md:right-10 "@ + if self.bouncing {
                "animate-bounce"@
            } else {
                Seq::<char>::empty()
            },
    {
        let mut out = "z-50 absolute right-3 bottom-5 md:bottom-10 md:right-10 ".to_owned();
        if self.bouncing {
            out.append("animate-bounce");
        } else {
            assert(out@ + Seq::<char>::empty() =~= out@);
        }
        out
    }
}

// ---------------------------------------------------------------------------
// The modal
// ---------------------------------------------------------------------------

/// The id of the modal's element.
pub const MODAL_ID: &'static str = "modal";

/// The class of the elements that open the modal (a click on them does not
/// close it).
pub const MODAL_OPENER_CLASS: &'static str = "modal-opener";

/// What a modal asks.
pub struct ModalContent {
    pub title: String,
    pub msg: String,
    pub decline_text: Option<String>,
    pub accept_text: Option<String>,
}

impl ModalContent {
    /// An empty question, with the default buttons.
    pub fn default() -> (r: ModalContent)
        ensures
            r.title@ == Seq::<char>::empty(),
            r.msg@ == Seq::<char>::empty(),
            r.decline_text is None,
            r.accept_text is None,
    {
        ModalContent { title: String::new(), msg: String::new(), decline_text: None, accept_text: None }
    }
}

/// The messages of the modal bus.
pub enum ModalBusContent {
    /// Open the modal with a question.
    PopModal(ModalContent),
    /// The user's answer: accepted or declined.
    Outcome(bool),
}

/// The messages of the modal.
pub enum ModalMsg {
    /// Close the modal, publishing an answer if one is given.
    CloseSelf(Option<ModalBusContent>),
    /// Open the modal with a question.
    PopModal(ModalContent),
    /// Stop the modal's bouncing.
    StopBounce,
}

/// What the modal asks its page to do.
pub enum ModalAction {
    /// Publish on the modal bus.
    Publish(ModalBusContent),
    /// Send `StopBounce` after `BOUNCE_MS`, replacing the pending bounce
    /// timer.
    ScheduleStopBounce,
}

/// The confirmation modal.
pub struct Modal {
    pub content: ModalContent,
    pub visible: bool,
    pub bouncing: bool,
}

impl Modal {
    /// A hidden modal with an empty question.
    pub fn create() -> (r: Modal)
        ensures
            !r.visible,
            !r.bouncing,
            r.content.title@ == Seq::<char>::empty(),
            r.content.msg@ == Seq::<char>::empty(),
    {
        Modal { content: ModalContent::default(), visible: false, bouncing: false }
    }

    /// What the modal does with a message of the bus: it opens for a
    /// question and ignores answers.
    pub fn from_bus(m: ModalBusContent) -> (r: Option<ModalMsg>)
        ensures
            match m {
                ModalBusContent::PopModal(c) => r == Some(ModalMsg::PopModal(c)),
                ModalBusContent::Outcome(_) => r is None,
            },
    {
        match m {
            ModalBusContent::PopModal(c) => Some(ModalMsg::PopModal(c)),
            ModalBusContent::Outcome(_) => None,
        }
    }

    /// Handles a message; the modal is redrawn after each (the second
    /// value). `ScheduleStopBounce` replaces the pending bounce timer.
    pub fn update(&mut self, msg: ModalMsg) -> (r: (Vec<ModalAction>, bool))
        ensures
            r.1,
            match msg {
                ModalMsg::CloseSelf(answer) => {
                    &&& !final(self).visible
                    &&& final(self).content == old(self).content
                    &&& final(self).bouncing == old(self).bouncing
                    &&& match answer {
                        Some(a) => r.0@ == seq![ModalAction::Publish(a)],
                        None => r.0@.len() == 0,
                    }
                },
                ModalMsg::PopModal(c) => {
                    &&& final(self).visible
                    &&& final(self).content == c
                    &&& final(self).bouncing
                    &&& r.0@.len() == 1 && r.0@[0] is ScheduleStopBounce
                },
                ModalMsg::StopBounce => {
                    &&& final(self).visible == old(self).visible
                    &&& final(self).content == old(self).content
                    &&& !final(self).bouncing
                    &&& r.0@.len() == 0
                },
            },
    {
        let mut actions: Vec<ModalAction> = Vec::new();
        match msg {
            ModalMsg::CloseSelf(answer) => {
                match answer {
                    Some(a) => {
                        actions.push(ModalAction::Publish(a));
                    },
                    None => {},
                }
                self.visible = false;
            },
            ModalMsg::PopModal(c) => {
                actions.push(ModalAction::ScheduleStopBounce);
                self.content = c;
                self.visible = true;
                self.bouncing = true;
            },
            ModalMsg::StopBounce => {
                self.bouncing = false;
            },
        }
        (actions, true)
    }

    /// Whether the modal is hidden: whenever it is not visible.
    pub fn hidden(&self) -> (r: bool)
        ensures
            r == !self.visible,
    {
        !self.visible
    }

    /// The classes of the modal's box: `default-modal`, and the bounce
    /// animation while it bounces.
    pub fn content_class(&self) -> (r: String)
        ensures
            r@ == "default-modal"@ + if self.bouncing {
                " animate-bounce"@
            } else {
                Seq::<char>::empty()
            },
    {
        let mut c = "default-modal".to_owned();
        if self.bouncing {
            c.append(" animate-bounce");
        }
        c
    }

    /// The text of the declining button: the question's, or "Cancel".
    pub fn decline_text(&self) -> (r: String)
        ensures
            r@ == match self.content.decline_text {
                Some(t) => t@,
                None => "Cancel"@,
            },
    {
        match &self.content.decline_text {
            Some(t) => t.clone(),
            None => "Cancel".to_owned(),
        }
    }

    /// The text of the accepting button: the question's, or "Ok".
    pub fn accept_text(&self) -> (r: String)
        ensures
            r@ == match self.content.accept_text {
                Some(t) => t@,
                None => "Ok"@,
            },
    {
        match &self.content.accept_text {
            Some(t) => t.clone(),
            None => "Ok".to_owned(),
        }
    }

    /// The answer that a click on a button gives: accepted or declined.
    pub fn button_answer(accept: bool) -> (r: ModalMsg)
        ensures
            r matches ModalMsg::CloseSelf(Some(ModalBusContent::Outcome(a))) && a == accept,
    {
        ModalMsg::CloseSelf(Some(ModalBusContent::Outcome(accept)))
    }

    /// The selector of the elements inside which a click does not close the
    /// modal: the modal itself and its openers.
    pub fn keep_open_selector() -> (r: String)
        ensures
            r@ == "#"@ + MODAL_ID@ + ","@ + "."@ + MODAL_OPENER_CLASS@,
    {
        let mut out = "#".to_owned();
        out.append(MODAL_ID);
        out.append(",");
        out.append(".");
        out.append(MODAL_OPENER_CLASS);
        out
    }

    /// What a click on the page does: a click outside the modal and its
    /// openers closes the modal without an answer.
    pub fn on_page_click(inside_kept: bool) -> (r: Option<ModalMsg>)
        ensures
            inside_kept ==> r is None,
            !inside_kept ==> r matches Some(ModalMsg::CloseSelf(None)),
    {
        if inside_kept {
            None
        } else {
            Some(ModalMsg::CloseSelf(None))
        }
    }
}

// ---------------------------------------------------------------------------
// Context menus
// ---------------------------------------------------------------------------

/// The page events that close an open context menu.
pub const JS_EVENTS_TO_CANCEL: [&'static str; 2] = ["click", "contextmenu"];

/// The messages of the context menu.
pub enum RightMenuMsg {
    /// An event of the context-menu bus.
    HandleBusMessage(RMenusBusEvents),
    /// Keep the open menu inside the window, given the window's size and the
    /// menu's.
    RepositionMenu { window_width: i32, window_height: i32, menu_width: i32, menu_height: i32 },
}

/// What the context menu asks its page to do with the listeners that close
/// it.
#[derive(PartialEq, Eq, Structural, Clone, Copy, Debug)]
pub enum RightMenuAction {
    /// Remove every closing listener registered so far from the page.
    RemoveCloseListeners,
    /// Register one more closing listener for the events to cancel.
    AddCloseListener,
}

/// The context menu.
pub struct RightMenu {
    pub visible: bool,
    pub pos_x: i32,
    pub pos_y: i32,
    /// How many closing listeners have been registered.
    pub close_listeners: usize,
    /// The menu shown, if any.
    pub content: Option<RMenuKind>,
    /// The menu was moved inside the window since it was opened.
    pub menu_repositionned: bool,
}

/// Where a menu edge lands: unchanged when the menu fits before the window's
/// edge, against that edge otherwise.
pub open spec fn clamp_pos(pos: int, size: int, window: int) -> int {
    if window < pos + size {
        window - size
    } else {
        pos
    }
}

impl RightMenu {
    /// A closed menu at the page's corner.
    pub fn create() -> (r: RightMenu)
        ensures
            !r.visible,
            r.pos_x == 0,
            r.pos_y == 0,
            r.close_listeners == 0,
            r.content is None,
            !r.menu_repositionned,
    {
        RightMenu { visible: false, pos_x: 0, pos_y: 0, close_listeners: 0, content: None, menu_repositionned: false }
    }

    /// Handles a message; the menu is redrawn after each (the second
    /// value). Opening a menu
    /// removes the closing listeners and registers a new one; closing it
    /// removes them.
    pub fn update(&mut self, msg: RightMenuMsg) -> (r: (Vec<RightMenuAction>, bool))
        requires
            old(self).close_listeners < usize::MAX,
            msg matches RightMenuMsg::RepositionMenu { window_width, window_height, menu_width, menu_height } ==> (
            i32::MIN <= window_width - menu_width <= i32::MAX && i32::MIN <= window_height - menu_height
                <= i32::MAX && i32::MIN <= old(self).pos_x + menu_width <= i32::MAX && i32::MIN <= old(
                self,
            ).pos_y + menu_height <= i32::MAX),
        ensures
            r.1,
            match msg {
                RightMenuMsg::HandleBusMessage(RMenusBusEvents::OpenRMenu(x, y, kind)) => {
                    &&& final(self).pos_x == x && final(self).pos_y == y
                    &&& final(self).content == Some(kind)
                    &&& final(self).visible
                    &&& final(self).menu_repositionned == old(self).menu_repositionned
                    &&& final(self).close_listeners == old(self).close_listeners + 1
                    &&& r.0@ == if old(self).close_listeners > 0 {
                        seq![RightMenuAction::RemoveCloseListeners, RightMenuAction::AddCloseListener]
                    } else {
                        seq![RightMenuAction::AddCloseListener]
                    }
                },
                RightMenuMsg::HandleBusMessage(RMenusBusEvents::CloseRMenu) => {
                    &&& final(self).pos_x == old(self).pos_x && final(self).pos_y == old(self).pos_y
                    &&& final(self).content is None
                    &&& !final(self).visible
                    &&& !final(self).menu_repositionned
                    &&& final(self).close_listeners == old(self).close_listeners
                    &&& r.0@ == if old(self).close_listeners > 0 {
                        seq![RightMenuAction::RemoveCloseListeners]
                    } else {
                        Seq::<RightMenuAction>::empty()
                    }
                },
                RightMenuMsg::RepositionMenu { window_width, window_height, menu_width, menu_height } => {
                    &&& final(self).pos_x == clamp_pos(old(self).pos_x as int, menu_width as int, window_width as int)
                    &&& final(self).pos_y == clamp_pos(old(self).pos_y as int, menu_height as int, window_height as int)
                    &&& final(self).menu_repositionned
                    &&& final(self).visible == old(self).visible
                    &&& final(self).content == old(self).content
                    &&& final(self).close_listeners == old(self).close_listeners
                    &&& r.0@.len() == 0
                },
            },
    {
        let mut actions: Vec<RightMenuAction> = Vec::new();
        match msg {
            RightMenuMsg::HandleBusMessage(RMenusBusEvents::OpenRMenu(x, y, kind)) => {
                if self.close_listeners > 0 {
                    actions.push(RightMenuAction::RemoveCloseListeners);
                }
                self.pos_x = x;
                self.pos_y = y;
                actions.push(RightMenuAction::AddCloseListener);
                self.content = Some(kind);
                self.visible = true;
                self.close_listeners = self.close_listeners + 1;
            },
            RightMenuMsg::HandleBusMessage(RMenusBusEvents::CloseRMenu) => {
                if self.close_listeners > 0 {
                    actions.push(RightMenuAction::RemoveCloseListeners);
                }
                self.content = None;
                self.visible = false;
                self.menu_repositionned = false;
            },
            RightMenuMsg::RepositionMenu { window_width, window_height, menu_width, menu_height } => {
                if window_width < self.pos_x + menu_width {
                    self.pos_x = window_width - menu_width;
                }
                if window_height < self.pos_y + menu_height {
                    self.pos_y = window_height - menu_height;
                }
                self.menu_repositionned = true;
            },
        }
        if actions.len() == 2 {
            assert(actions@ =~= seq![RightMenuAction::RemoveCloseListeners, RightMenuAction::AddCloseListener]);
        }
        if actions.len() == 1 {
            assert(actions@ =~= seq![actions@[0]]);
        }
        (actions, true)
    }

    /// What the menu does when its bus has a new event (the bus's event
    /// count grew from `old_len` to `new_len`): it handles the last one.
    pub fn changed(old_len: usize, new_len: usize, last: Option<RMenusBusEvents>) -> (r: Option<RightMenuMsg>)
        requires
            old_len < new_len ==> last is Some,
        ensures
            old_len < new_len ==> r == Some(RightMenuMsg::HandleBusMessage(last->0)),
            old_len >= new_len ==> r is None,
    {
        if old_len < new_len {
            match last {
                Some(e) => Some(RightMenuMsg::HandleBusMessage(e)),
                None => None,
            }
        } else {
            None
        }
    }

    /// Whether the menu must be moved inside the window after it is drawn:
    /// it is open and has not been moved yet.
    pub fn needs_reposition(&self) -> (r: bool)
        ensures
            r == (self.visible && !self.menu_repositionned),
    {
        self.visible && !self.menu_repositionned
    }

    /// The inline style that places the menu.
    pub fn style(&self) -> (r: String)
        ensures
            r@ == "left: "@ + int_decimal(self.pos_x as int) + "px; top : "@ + int_decimal(self.pos_y as int) + "px;"@,
    {
        let mut out = "left: ".to_owned();
        let x = i64_to_decimal(self.pos_x as i64);
        out.append(x.as_str());
        out.append("px; top : ");
        let y = i64_to_decimal(self.pos_y as i64);
        out.append(y.as_str());
        out.append("px;");
        out
    }
}

/// The role of a user.
#[derive(PartialEq, Eq, Structural, Clone, Copy, Debug)]
pub enum Profile {
    User,
    Moderator,
    Admin,
}

/// The entry of a message's context menu.
#[derive(PartialEq, Eq, Structural, Clone, Copy, Debug)]
pub enum MessageMenuEntry {
    /// Delete the message.
    Delete,
    /// Report the message to the moderators.
    Report,
}

/// The entry that a message's context menu offers to a user: moderators and
/// administrators delete any message; a user deletes their own messages and
/// reports the others'.
pub fn message_rmenu(profile: Profile, props: MessageRMenuProps) -> (r: MessageMenuEntry)
    ensures
        r == if profile == Profile::User && !props.is_self {
            MessageMenuEntry::Report
        } else {
            MessageMenuEntry::Delete
        },
{
    match profile {
        Profile::Moderator | Profile::Admin => MessageMenuEntry::Delete,
        Profile::User => if props.is_self {
            MessageMenuEntry::Delete
        } else {
            MessageMenuEntry::Report
        },
    }
}

/// Whether a profile's context menu offers to revoke the user: only to
/// moderators and administrators.
pub fn profile_rmenu(profile: Profile) -> (r: bool)
    ensures
        r == (profile == Profile::Moderator || profile == Profile::Admin),
{
    match profile {
        Profile::Moderator | Profile::Admin => true,
        Profile::User => false,
    }
}

/// The `n` lowest hexadecimal digits of a number, most significant first.
pub open spec fn hex_fixed(v: nat, n: nat) -> Seq<char>
    decreases n,
{
    if n == 0 {
        Seq::empty()
    } else {
        hex_fixed(v / 16, (n - 1) as nat).push(hex_digit(v % 16))
    }
}

/// A UUID written as text: 32 lowercase hexadecimal digits in groups of
/// 8, 4, 4, 4 and 12, joined by hyphens.
pub open spec fn uuid_text(id: u128) -> Seq<char> {
    let h = hex_fixed(id as nat, 32);
    h.subrange(0, 8) + "-"@ + h.subrange(8, 12) + "-"@ + h.subrange(12, 16) + "-"@ + h.subrange(16, 20) + "-"@
        + h.subrange(20, 32)
}

/// `uuid::Uuid::from_u128(id).to_string()`: the hyphenated lowercase text of
/// the UUID, as `uuid_text` states it (the `Display` of a UUID writes its
/// `LowerHex` hyphenated form; `from_u128` takes the value big-endian).
#[verifier::external_body]
fn uuid_string(id: u128) -> (r: String)
    ensures
        r@ == uuid_text(id),
{
    uuid::Uuid::from_u128(id).to_string()
}

/// The endpoint that deletes a message.
pub fn message_delete_endpoint(message_id: u128) -> (r: String)
    ensures
        r@ == "/api/message/"@ + uuid_text(message_id),
{
    let mut out = "/api/message/".to_owned();
    let id = uuid_string(message_id);
    out.append(id.as_str());
    out
}

/// The endpoint that reports a message.
pub fn message_report_endpoint(message_id: u128) -> (r: String)
    ensures
        r@ == "/api/message/"@ + uuid_text(message_id) + "/report"@,
{
    let mut out = message_delete_endpoint(message_id);
    out.append("/report");
    out
}

/// The endpoint that revokes a user.
pub fn revoke_user_endpoint(user_id: i32) -> (r: String)
    ensures
        r@ == "/api/user/revoke/"@ + int_decimal(user_id as int),
{
    let mut out = "/api/user/revoke/".to_owned();
    let id = i64_to_decimal(user_id as i64);
    out.append(id.as_str());
    out
}

/// The alert that answers an action of a message's menu: the server's
/// response label, and its text or "Unknown response"; a success when the
/// response was.
pub fn menu_action_alert(ok: bool, label: String, text: Option<String>) -> (r: Alert)
    ensures
        r.deep_view() == (AlertView {
            is_success: ok,
            label: label@,
            default: match text {
                Some(t) => t@,
                None => "Unknown response"@,
            },
        }),
{
    let default = match text {
        Some(t) => t,
        None => "Unknown response".to_owned(),
    };
    Alert { is_success: ok, label, default }
}

/// The request that deletes a message: a `DELETE` of its endpoint, with the
/// bearer token and its setter.
pub fn message_delete_request<P, S>(message_id: u128, current: Option<String>, setter: S) -> (r: Requester<P, S>)
    ensures
        r.spec_fields() == (Some("/api/message/"@ + uuid_text(message_id)), Some(Method::DELETE), false, false,
            current.deep_view()),
        r.payload is None,
        r.bearer_setter == Some(setter),
{
    let e = message_delete_endpoint(message_id);
    Requester::with_bearer(Method::DELETE, e.as_str(), current, setter)
}

/// The request that reports a message: a `POST` to its report endpoint,
/// with the bearer token and its setter.
pub fn message_report_request<P, S>(message_id: u128, current: Option<String>, setter: S) -> (r: Requester<P, S>)
    ensures
        r.spec_fields() == (Some("/api/message/"@ + uuid_text(message_id) + "/report"@), Some(Method::POST), false,
            false, current.deep_view()),
        r.payload is None,
        r.bearer_setter == Some(setter),
{
    let e = message_report_endpoint(message_id);
    Requester::with_bearer(Method::POST, e.as_str(), current, setter)
}

/// The request that revokes a user: a `DELETE` of its endpoint, with the
/// bearer token and its setter (its answer is not used).
pub fn revoke_user_request<P, S>(user_id: i32, current: Option<String>, setter: S) -> (r: Requester<P, S>)
    ensures
        r.spec_fields() == (Some("/api/user/revoke/"@ + int_decimal(user_id as int)), Some(Method::DELETE), false,
            false, current.deep_view()),
        r.payload is None,
        r.bearer_setter == Some(setter),
{
    let e = revoke_user_endpoint(user_id);
    Requester::with_bearer(Method::DELETE, e.as_str(), current, setter)
}

/// The answer to deleting a message: the alert to raise, and the deletion to
/// publish on the chat bus, only when the server succeeded (`ok`).
pub fn message_deleted(ok: bool, message_id: u128, label: String, text: Option<String>) -> (r: (Alert, Option<WsMessage>))
    ensures
        r.0.deep_view() == (AlertView {
            is_success: ok,
            label: label@,
            default: match text {
                Some(t) => t@,
                None => "Unknown response"@,
            },
        }),
        ok ==> r.1 == Some(WsMessage::Delete(message_id)),
        !ok ==> r.1 is None,
{
    let a = menu_action_alert(ok, label, text);
    if ok {
        (a, Some(WsMessage::Delete(message_id)))
    } else {
        (a, None)
    }
}

/// After the menu is moved inside the window, its far edge lies within the
/// window.
pub proof fn law_reposition_fits(pos: int, size: int, window: int)
    ensures
        clamp_pos(pos, size, window) + size <= window,
{
}

} // verus!
