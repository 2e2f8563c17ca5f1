use tchatchers_front::chat::WsMessage;
use tchatchers_front::menus::{message_deleted, message_delete_request, message_report_request, revoke_user_request};
use tchatchers_front::requester::{Method, Requester};
use tchatchers_front::bus::{Alert, MessageRMenuProps, ProfileRMenuProps, RMenuKind, RMenusBusEvents};
use tchatchers_front::i18n::TranslationMap;
use tchatchers_front::menus::{
    menu_action_alert, message_delete_endpoint, message_rmenu, message_report_endpoint, profile_rmenu,
    revoke_user_endpoint, MessageMenuEntry, Modal, ModalAction, ModalBusContent, ModalContent, ModalMsg, Profile,
    RightMenu, RightMenuAction, RightMenuMsg, Toast, ToastMsg, ToastTimer,
};

fn translations() -> TranslationMap {
    TranslationMap { entries: vec![("login_success".to_string(), "Connecté".to_string())] }
}

#[test]
fn toast_shows_translated_alerts_then_hides() {
    let mut toast = Toast::create();
    assert!(!toast.visible);
    let (timers, redraw) = toast.update(
        ToastMsg::NewToast(Alert { is_success: true, label: "login_success".to_string(), default: "ok".to_string() }),
        &translations(),
    );
    assert!(redraw);
    assert_eq!(timers, vec![ToastTimer::Hide, ToastTimer::StopBounce]);
    assert_eq!(toast.msg, "Connecté");
    assert!(toast.visible && toast.bouncing && toast.is_success);
    assert_eq!(toast.container_class(), "z-50 absolute right-3 bottom-5 md:bottom-10 md:right-10 animate-bounce");
    assert_eq!(toast.update(ToastMsg::StopBounce, &translations()), (vec![], true));
    assert!(!toast.bouncing);
    assert_eq!(toast.container_class(), "z-50 absolute right-3 bottom-5 md:bottom-10 md:right-10 ");
    assert_eq!(toast.update(ToastMsg::Hide, &translations()), (vec![], true));
    assert!(!toast.visible);
    assert_eq!(toast.msg, "Connecté");
}

#[test]
fn toast_of_an_unknown_label() {
    let mut toast = Toast::create();
    toast.update(
        ToastMsg::NewToast(Alert { is_success: false, label: "nope".to_string(), default: "Default".to_string() }),
        &translations(),
    );
    assert_eq!(toast.msg, "Message unknown");
    assert!(!toast.is_success);
}

#[test]
fn modal_opens_and_answers() {
    let mut modal = Modal::create();
    assert!(!modal.visible);
    assert_eq!(modal.decline_text(), "Cancel");
    assert_eq!(modal.accept_text(), "Ok");
    let content = ModalContent {
        title: "Sure?".to_string(),
        msg: "Really".to_string(),
        decline_text: Some("No".to_string()),
        accept_text: None,
    };
    let msg = Modal::from_bus(ModalBusContent::PopModal(content)).expect("a question opens the modal");
    let (actions, redraw) = modal.update(msg);
    assert!(redraw);
    assert!(!modal.hidden());
    assert_eq!(modal.content_class(), "default-modal animate-bounce");
    assert!(matches!(actions[..], [ModalAction::ScheduleStopBounce]));
    assert!(modal.visible && modal.bouncing);
    assert_eq!(modal.content.title, "Sure?");
    assert_eq!(modal.decline_text(), "No");
    assert_eq!(modal.accept_text(), "Ok");
    assert!(Modal::from_bus(ModalBusContent::Outcome(true)).is_none());
    let (actions, _) = modal.update(Modal::button_answer(false));
    assert!(modal.hidden());
    assert!(!modal.visible);
    assert!(matches!(actions[..], [ModalAction::Publish(ModalBusContent::Outcome(false))]));
    assert!(modal.update(ModalMsg::CloseSelf(None)).0.is_empty());
    assert!(modal.update(ModalMsg::StopBounce).0.is_empty());
    assert!(!modal.bouncing);
    assert_eq!(modal.content_class(), "default-modal");
}

#[test]
fn modal_closes_on_outside_clicks() {
    assert!(Modal::on_page_click(true).is_none());
    assert!(matches!(Modal::on_page_click(false), Some(ModalMsg::CloseSelf(None))));
    assert_eq!(Modal::keep_open_selector(), "#modal,.modal-opener");
    let d = ModalContent::default();
    assert!(d.title.is_empty() && d.msg.is_empty() && d.decline_text.is_none() && d.accept_text.is_none());
}

#[test]
fn right_menu_opens_and_closes() {
    let mut menu = RightMenu::create();
    let kind = RMenuKind::ProfileRMenu(ProfileRMenuProps { user_id: 3 });
    let (a, _) = menu.update(RightMenuMsg::HandleBusMessage(RMenusBusEvents::OpenRMenu(10, 20, kind)));
    assert_eq!(a, vec![RightMenuAction::AddCloseListener]);
    assert!(menu.visible);
    assert_eq!((menu.pos_x, menu.pos_y), (10, 20));
    assert_eq!(menu.content, Some(kind));
    assert!(menu.needs_reposition());
    assert_eq!(menu.style(), "left: 10px; top : 20px;");
    let (a, _) = menu.update(RightMenuMsg::HandleBusMessage(RMenusBusEvents::OpenRMenu(1, 2, kind)));
    assert_eq!(a, vec![RightMenuAction::RemoveCloseListeners, RightMenuAction::AddCloseListener]);
    let (a, _) = menu.update(RightMenuMsg::HandleBusMessage(RMenusBusEvents::CloseRMenu));
    assert_eq!(a, vec![RightMenuAction::RemoveCloseListeners]);
    assert!(!menu.visible);
    assert!(menu.content.is_none());
    assert!(!menu.needs_reposition());
}

#[test]
fn right_menu_stays_inside_the_window() {
    let mut menu = RightMenu::create();
    let kind = RMenuKind::MessageRMenu(MessageRMenuProps { message_id: 9, is_self: true });
    menu.update(RightMenuMsg::HandleBusMessage(RMenusBusEvents::OpenRMenu(950, 100, kind)));
    let (a, _) = menu.update(RightMenuMsg::RepositionMenu {
        window_width: 1000,
        window_height: 800,
        menu_width: 120,
        menu_height: 60,
    });
    let a: Vec<RightMenuAction> = a;
    assert!(a.is_empty());
    assert_eq!((menu.pos_x, menu.pos_y), (880, 100));
    assert!(menu.menu_repositionned);
    assert!(!menu.needs_reposition());
    assert_eq!(menu.style(), "left: 880px; top : 100px;");
}

#[test]
fn right_menu_reacts_to_new_bus_events_only() {
    assert!(RightMenu::changed(2, 2, None).is_none());
    assert!(matches!(
        RightMenu::changed(2, 3, Some(RMenusBusEvents::CloseRMenu)),
        Some(RightMenuMsg::HandleBusMessage(RMenusBusEvents::CloseRMenu))
    ));
}

#[test]
fn menu_entries_by_profile() {
    let own = MessageRMenuProps { message_id: 1, is_self: true };
    let other = MessageRMenuProps { message_id: 1, is_self: false };
    assert_eq!(message_rmenu(Profile::User, own), MessageMenuEntry::Delete);
    assert_eq!(message_rmenu(Profile::User, other), MessageMenuEntry::Report);
    assert_eq!(message_rmenu(Profile::Moderator, other), MessageMenuEntry::Delete);
    assert_eq!(message_rmenu(Profile::Admin, other), MessageMenuEntry::Delete);
    assert!(!profile_rmenu(Profile::User));
    assert!(profile_rmenu(Profile::Moderator));
    assert!(profile_rmenu(Profile::Admin));
}

#[test]
fn endpoints_of_the_menus() {
    let id: u128 = 0x67e55044_10b1_426f_9247_bb680e5fe0c8;
    assert_eq!(message_delete_endpoint(id), "/api/message/67e55044-10b1-426f-9247-bb680e5fe0c8");
    assert_eq!(message_report_endpoint(id), "/api/message/67e55044-10b1-426f-9247-bb680e5fe0c8/report");
    assert_eq!(message_delete_endpoint(0), "/api/message/00000000-0000-0000-0000-000000000000");
    assert_eq!(revoke_user_endpoint(12), "/api/user/revoke/12");
    assert_eq!(revoke_user_endpoint(-1), "/api/user/revoke/-1");
}

#[test]
fn answers_of_the_menus() {
    let a = menu_action_alert(true, "message_deleted".to_string(), Some("Deleted".to_string()));
    assert!(a.is_success);
    assert_eq!(a.label, "message_deleted");
    assert_eq!(a.default, "Deleted");
    let b = menu_action_alert(false, "x".to_string(), None);
    assert!(!b.is_success);
    assert_eq!(b.default, "Unknown response");
}

#[test]
fn requests_of_the_menus() {
    let id: u128 = 0x67e55044_10b1_426f_9247_bb680e5fe0c8;
    let d: Requester<(), u8> = message_delete_request(id, Some("tok".to_string()), 1);
    assert_eq!(d.method, Some(Method::DELETE));
    assert_eq!(d.endpoint.as_deref(), Some("/api/message/67e55044-10b1-426f-9247-bb680e5fe0c8"));
    assert_eq!(d.bearer_value.as_deref(), Some("tok"));
    let r: Requester<(), u8> = message_report_request(id, None, 1);
    assert_eq!(r.method, Some(Method::POST));
    assert_eq!(r.endpoint.as_deref(), Some("/api/message/67e55044-10b1-426f-9247-bb680e5fe0c8/report"));
    let v: Requester<(), u8> = revoke_user_request(5, Some("t".to_string()), 1);
    assert_eq!(v.method, Some(Method::DELETE));
    assert_eq!(v.endpoint.as_deref(), Some("/api/user/revoke/5"));
    assert_eq!(v.bearer_setter, Some(1));
    let (alert, bus) = message_deleted(true, id, "deleted".to_string(), None);
    assert!(alert.is_success);
    assert_eq!(alert.default, "Unknown response");
    assert!(matches!(bus, Some(WsMessage::Delete(x)) if x == id));
    let (alert, bus) = message_deleted(false, id, "refused".to_string(), Some("No".to_string()));
    assert!(!alert.is_success);
    assert_eq!(alert.default, "No");
    assert!(bus.is_none());
}
