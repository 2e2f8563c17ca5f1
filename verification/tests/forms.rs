use tchatchers_front::chat::{Author, WsMessage, WsReceptionStatus};
use tchatchers_front::forms::{
    button_classes, button_type, logged_out_alert, server_error, verification_route, ApiResponse, AuthChecker,
    DisconnectedBar, Filters, JoinRoom, Navbar, Navlink, NotFound, PasswordField, SecuredRoute, Settings,
    SettingsSubmit, SharedEffect, SignIn, SignInInputs, SignUp, SignUpCheck, TypeBar, FILE_PART, PAYLOAD_PART,
};
use tchatchers_front::i18n::TranslationMap;
use tchatchers_front::menus::{ModalBusContent, ModalContent};
use tchatchers_front::requester::{Method, Requester};
use tchatchers_front::router::Route;

fn fr() -> TranslationMap {
    TranslationMap {
        entries: vec![
            ("bad_credentials".to_string(), "Identifiants invalides".to_string()),
            ("passwords_dont_match".to_string(), "Les mots de passe diffèrent".to_string()),
            ("profile_updated".to_string(), "Profil mis à jour".to_string()),
            ("modal_delete_profile_yes".to_string(), "Adieu".to_string()),
        ],
    }
}

fn empty() -> TranslationMap {
    TranslationMap { entries: Vec::new() }
}

#[test]
fn server_errors_are_translated() {
    let r = ApiResponse { label: "bad_credentials".to_string(), text: Some("Bad credentials".to_string()) };
    assert_eq!(server_error(&fr(), r), "Identifiants invalides");
    let r = ApiResponse { label: "unknown".to_string(), text: Some("Plain text".to_string()) };
    assert_eq!(server_error(&fr(), r), "Plain text");
    let r = ApiResponse { label: "unknown".to_string(), text: None };
    assert_eq!(server_error(&fr(), r), "A server error has been met");
}

#[test]
fn sign_in_flow() {
    let mut form = SignIn::create();
    let (creds, redraw) = form.submit(None);
    assert!(creds.is_none() && redraw);
    assert!(!form.wait_for_api);
    let invalid = SignInInputs {
        fields_valid: false,
        login: "ana".to_string(),
        password: "pw".to_string(),
        remember_me: false,
    };
    assert!(form.submit(Some(invalid)).0.is_none());
    assert!(!form.wait_for_api);
    let valid = SignInInputs { fields_valid: true, login: "ana".to_string(), password: "pw".to_string(), remember_me: false };
    match form.submit(Some(valid)) {
        (Some(u), true) => {
            assert_eq!(u.login, "ana");
            assert_eq!(u.password, "pw");
            assert!(u.session_only);
        }
        _ => panic!("valid fields are sent"),
    }
    assert!(form.wait_for_api);
    let (clear, redraw) = form.error_from_server(&fr(), ApiResponse { label: "bad_credentials".to_string(), text: None });
    assert!(clear.focus && redraw);
    assert_eq!(form.server_error.as_deref(), Some("Identifiants invalides"));
    assert!(!form.wait_for_api);
    let (clear, redraw) = form.local_error("Network".to_string());
    assert!(!clear.focus && redraw);
    assert_eq!(form.server_error.as_deref(), Some("Network"));
    let (effects, redraw) = form.logged_in(42u32);
    assert!(!redraw);
    assert_eq!(effects.len(), 3);
    assert!(matches!(effects[0], SharedEffect::SetUser(42)));
    match &effects[1] {
        SharedEffect::Toast(alert) => {
            assert!(alert.is_success);
            assert_eq!(alert.label, "login_success");
            assert_eq!(alert.default, "You logged in with success");
        }
        _ => panic!("the success is announced"),
    }
    assert!(matches!(effects[2], SharedEffect::Navigate(Route::JoinRoom)));
    assert!(SignIn::too_many_requests(429));
    assert!(!SignIn::too_many_requests(401));
    assert_eq!(SignIn::whoami_refused(429), (true, true));
    assert_eq!(SignIn::whoami_refused(500), (false, true));
}

#[test]
fn sign_in_requests() {
    let auth: Requester<Vec<u8>, u8> = SignIn::authentication_request(vec![1, 2, 3]);
    assert_eq!(auth.method, Some(Method::POST));
    assert_eq!(auth.endpoint.as_deref(), Some("/api/authenticate"));
    assert!(auth.is_bincode);
    assert_eq!(auth.payload, Some(vec![1, 2, 3]));
    let (token, whoami): (String, Requester<(), u8>) = SignIn::authenticated("tok".to_string(), None, 9);
    assert_eq!(token, "tok");
    assert_eq!(whoami.method, Some(Method::GET));
    assert_eq!(whoami.endpoint.as_deref(), Some("/api/whoami"));
    assert!(whoami.bearer_value.is_none());
    assert_eq!(whoami.bearer_setter, Some(9));
}

#[test]
fn remember_me_keeps_the_session() {
    let mut form = SignIn::create();
    let valid = SignInInputs { fields_valid: true, login: "a".to_string(), password: "b".to_string(), remember_me: true };
    match form.submit(Some(valid)) {
        (Some(u), _) => assert!(!u.session_only),
        _ => panic!("valid fields are sent"),
    }
}

#[test]
fn sign_up_checks() {
    let mut form = SignUp::create();
    assert_eq!(form.submit(false), (false, true));
    assert!(!form.wait_for_api);
    assert_eq!(form.submit(true), (true, true));
    assert!(form.wait_for_api);
    assert_eq!(SignUp::email_of(String::new()), None);
    assert_eq!(SignUp::email_of("a@b.c".to_string()), Some("a@b.c".to_string()));
    match SignUp::check(Some("Name too short".to_string()), "a", "b", &fr()) {
        SignUpCheck::Invalid(m) => assert_eq!(m, "Name too short"),
        _ => panic!("rule violations come first"),
    }
    match SignUp::check(None, "secret1", "secret2", &fr()) {
        SignUpCheck::PasswordMismatch { clear, message } => {
            assert_eq!(message, "Les mots de passe diffèrent");
            assert_eq!(clear, vec![PasswordField::Password, PasswordField::Confirmation]);
        }
        _ => panic!("different passwords are refused"),
    }
    match SignUp::check(None, "secret1", "secret2", &empty()) {
        SignUpCheck::PasswordMismatch { message, .. } => assert_eq!(message, "The passwords do not match"),
        _ => panic!("different passwords are refused"),
    }
    assert!(matches!(SignUp::check(None, "same", "same", &fr()), SignUpCheck::Send));
    let (alert, route) = SignUp::created(ApiResponse { label: "user_created".to_string(), text: None });
    assert!(alert.is_success);
    assert_eq!(alert.label, "user_created");
    assert_eq!(alert.default, "User created with success");
    assert!(matches!(route, Route::SignIn));
    assert!(form.error_from_server(&empty(), ApiResponse { label: "taken".to_string(), text: Some("Taken".to_string()) }));
    assert_eq!(form.server_error.as_deref(), Some("Taken"));
    assert!(!form.wait_for_api);
    assert!(form.local_error("Offline".to_string()));
    assert_eq!(form.server_error.as_deref(), Some("Offline"));
}

#[test]
fn sign_up_account_and_request() {
    let u = SignUp::insertable_user("ana".into(), "Ana".into(), "secret12".into(), String::new(), None, 1);
    assert_eq!((u.login.as_str(), u.name.as_str(), u.password.as_str()), ("ana", "Ana", "secret12"));
    assert!(u.email.is_none());
    assert_eq!(u.locale, 1);
    let u = SignUp::insertable_user("a".into(), "b".into(), "c".into(), "a@b.c".into(), Some(3), 1);
    assert_eq!(u.email.as_deref(), Some("a@b.c"));
    assert_eq!(u.locale, 3);
    let r: Requester<Vec<u8>, ()> = SignUp::creation_request(vec![7]);
    assert_eq!(r.method, Some(Method::POST));
    assert_eq!(r.endpoint.as_deref(), Some("/api/user"));
    assert_eq!(r.payload, Some(vec![7]));
}

#[test]
fn settings_submit_and_locale() {
    let mut s = Settings::create();
    assert!(matches!(s.submit(false, "1"), (SettingsSubmit::Stop, false)));
    assert!(s.wait_for_api);
    assert!(matches!(s.submit(true, "2"), (SettingsSubmit::Proceed(2), false)));
    match s.submit(true, "fr") {
        (SettingsSubmit::InvalidLocale(m), true) => assert_eq!(m, "The given locale isn't valid"),
        _ => panic!("a locale must be a number"),
    }
    assert!(s.error_from_server(&empty(), ApiResponse { label: "x".to_string(), text: None }));
    assert_eq!(s.server_error.as_deref(), Some("A server error has been met"));
    assert!(!s.wait_for_api);
    assert!(s.local_error("oops".to_string()));
    assert_eq!(s.server_error.as_deref(), Some("oops"));
}

#[test]
fn settings_requests() {
    let p = Settings::updatable_user(4, 2, "Ana".to_string());
    assert_eq!((p.id, p.locale_id, p.name.as_str()), (4, 2, "Ana"));
    assert_eq!((PAYLOAD_PART, FILE_PART), ("payload", "file"));
    let saved: Result<Requester<String, u8>, String> =
        Settings::save_request(None, "form".to_string(), Some("tok".to_string()), 5);
    let saved = saved.expect("a valid profile is saved");
    assert_eq!(saved.method, Some(Method::PUT));
    assert_eq!(saved.endpoint.as_deref(), Some("/api/user"));
    assert!(saved.is_multipart);
    assert_eq!(saved.bearer_value.as_deref(), Some("tok"));
    assert_eq!(saved.payload.as_deref(), Some("form"));
    let refused: Result<Requester<String, u8>, String> =
        Settings::save_request(Some("Name too short".to_string()), "form".to_string(), None, 5);
    assert_eq!(refused.err().as_deref(), Some("Name too short"));
    let next: Option<Requester<(), u8>> = Settings::after_save(true, Some("tok".to_string()), 5);
    let next = next.expect("the user is read back");
    assert_eq!(next.endpoint.as_deref(), Some("/api/whoami"));
    assert_eq!(next.bearer_value.as_deref(), Some("tok"));
    assert!(Settings::after_save::<(), u8>(false, None, 5).is_none());
}

#[test]
fn settings_profile_update_and_deletion() {
    let mut s = Settings::create();
    let (effects, redraw) = s.profile_updated("user".to_string(), &fr());
    assert!(redraw);
    assert!(matches!(&effects[0], SharedEffect::SetUser(u) if u == "user"));
    match &effects[1] {
        SharedEffect::Toast(a) => {
            assert!(a.is_success);
            assert_eq!(a.label, "profile_updated");
            assert_eq!(a.default, "Your profile has been updated with success");
        }
        _ => panic!("the update is announced"),
    }
    assert!(matches!(effects[2], SharedEffect::ClearPictureInput));
    assert_eq!(s.ok_msg.as_deref(), Some("Profil mis à jour"));
    match Settings::confirm_deletion(&fr()) {
        (ModalBusContent::PopModal(ModalContent { title, accept_text, decline_text, .. }), false) => {
            assert_eq!(title, "You are about to delete your account");
            assert_eq!(accept_text.as_deref(), Some("Adieu"));
            assert_eq!(decline_text.as_deref(), Some("I changed, my mind, don't delete my account"));
        }
        _ => panic!("the deletion is confirmed first"),
    }
    assert!(Settings::confirms_deletion(&ModalBusContent::Outcome(true)));
    assert!(!Settings::confirms_deletion(&ModalBusContent::Outcome(false)));
    let (req, redraw): (Requester<(), ()>, bool) = s.deletion_confirmed();
    assert!(redraw && s.wait_for_api);
    assert_eq!(req.method, Some(Method::DELETE));
    assert_eq!(req.endpoint.as_deref(), Some("/api/user"));
    assert!(req.bearer_value.is_none());
    assert!(matches!(Settings::deletion_answered(true), Some(Route::LogOut)));
    assert!(Settings::deletion_answered(false).is_none());
}

#[test]
fn settings_bridge_changes() {
    assert_eq!(Settings::changed(1, 1, None), (false, false));
    assert_eq!(Settings::changed(1, 2, Some(ModalBusContent::Outcome(true))), (true, true));
    assert_eq!(Settings::changed(1, 2, Some(ModalBusContent::Outcome(false))), (true, false));
}

#[test]
fn joining_a_room_lowercases_its_name() {
    let mut j = JoinRoom::create();
    assert_eq!(j.submit(None, None).1, true);
    assert!(j.verification_error.is_none());
    assert!(j.submit(Some("bad name"), Some("Invalid room".to_string())).0.is_none());
    assert_eq!(j.verification_error.as_deref(), Some("Invalid room"));
    match j.submit(Some("RustFR"), None) {
        (Some(Route::Room { room }), true) => assert_eq!(room, "rustfr"),
        _ => panic!("a valid name leads to its room"),
    }
    assert!(j.verification_error.is_none());
    match j.submit(Some("ÉTÉ"), None) {
        (Some(Route::Room { room }), _) => assert_eq!(room, "été"),
        _ => panic!("a valid name leads to its room"),
    }
}

#[test]
fn type_bar_messages() {
    let me = || Author { id: 3, name: "Ana".to_string(), pfp: None };
    assert!(matches!(TypeBar::submit(None, "rust", me()), (true, None)));
    assert!(matches!(TypeBar::submit(Some((true, String::new())), "rust", me()), (false, None)));
    assert!(matches!(TypeBar::submit(Some((false, "hi".to_string())), "rust", me()), (false, None)));
    match TypeBar::submit(Some((true, "hello".to_string())), "rust", me()) {
        (true, Some(WsMessage::Send(c))) => {
            assert_eq!(c.content, "hello");
            assert_eq!(c.room, "rust");
            assert_eq!(c.author.id, 3);
            assert_eq!(c.author.name, "Ana");
            assert_eq!(c.uuid, 0);
            assert_eq!(c.timestamp, 0);
            assert_eq!(c.reception_status, WsReceptionStatus::NotSent);
        }
        _ => panic!("a valid text is sent"),
    }
}

#[test]
fn small_components() {
    assert!(DisconnectedBar::offers_reconnect(true));
    assert!(!DisconnectedBar::offers_reconnect(false));
    assert!(matches!(Navbar::logo_route(true), Route::JoinRoom));
    assert!(matches!(Navbar::logo_route(false), Route::SignIn));
    assert_eq!(button_type(true), "button");
    assert_eq!(button_type(false), "submit");
    assert_eq!(button_classes(true), "common-button modal-opener");
    assert_eq!(button_classes(false), "common-button");
    assert!(matches!(verification_route(true), Route::VerificationSucceeded));
    assert!(matches!(verification_route(false), Route::VerificationFailed));
    let a = logged_out_alert();
    assert!(a.is_success);
    assert_eq!(a.label, "logged_out");
    assert_eq!(a.default, "You logged out with success, see you !");
}

#[test]
fn navbar_links() {
    let hrefs = vec!["/".to_string(), "/settings".to_string(), "/logout".to_string()];
    let routes = Navbar::link_routes(&hrefs).expect("known links");
    assert_eq!(routes.len(), 3);
    assert!(matches!(routes[0], Route::JoinRoom));
    assert!(matches!(routes[1], Route::Settings));
    assert!(matches!(routes[2], Route::LogOut));
    assert!(Navbar::link_routes(&vec!["/nowhere".to_string()]).is_none());
}

#[test]
fn secured_route_access() {
    let mut s = SecuredRoute { verified: false };
    assert!(matches!(s.access_verified(false), Some(Route::SignIn)));
    assert!(!s.verified);
    assert!(s.access_verified(true).is_none());
    assert!(s.verified);
}

#[test]
fn static_components() {
    let link = Navlink { label: "Settings".to_string(), link: Route::Settings };
    assert_eq!(link.href(), "/settings");
    let room = Navlink { label: "Rust".to_string(), link: Route::Room { room: "rust".to_string() } };
    assert_eq!(room.href(), "/r/rust");
    assert_eq!(NotFound::lines(), ("404 ( ˘︹˘ )", "This route doesn't exist"));
    assert_eq!(Filters::names(), vec!["All", "Male", "Female"]);
    assert_eq!(AuthChecker::endpoint(), "/api/validate");
    assert!(AuthChecker::published(200));
    assert!(AuthChecker::published(299));
    assert!(!AuthChecker::published(199));
    assert!(!AuthChecker::published(300));
    assert!(!AuthChecker::published(401));
}
