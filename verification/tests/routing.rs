use tchatchers_front::router::{already_logged_in, auth_guard, switch, GuardOutcome, GuardedPage, Page, Route};

fn no_params() -> Vec<(String, String)> {
    Vec::new()
}

#[test]
fn paths_of_routes() {
    assert_eq!(Route::JoinRoom.to_path(), "/");
    assert_eq!(Route::Room { room: "rust".to_string() }.to_path(), "/r/rust");
    assert_eq!(Route::SignIn.to_path(), "/signin");
    assert_eq!(Route::SignUp.to_path(), "/signup");
    assert_eq!(Route::Settings.to_path(), "/settings");
    assert_eq!(Route::LogOut.to_path(), "/logout");
    assert_eq!(Route::NotFound.to_path(), "/404");
    assert_eq!(Route::Verify { token: "abc".to_string() }.to_path(), "/verify/abc");
    assert_eq!(Route::VerificationFailed.to_path(), "/verification_failed");
    assert_eq!(Route::VerificationSucceeded.to_path(), "/verification_succeeded");
    assert_eq!(Route::Contact.to_path(), "/contact");
    assert_eq!(Route::GDPR.to_path(), "/gdpr");
}

#[test]
fn patterns_name_routes() {
    assert!(matches!(Route::from_path("/", &no_params()), Some(Route::JoinRoom)));
    assert!(matches!(Route::from_path("/signin", &no_params()), Some(Route::SignIn)));
    assert!(matches!(Route::from_path("/404", &no_params()), Some(Route::NotFound)));
    assert!(matches!(Route::from_path("/gdpr", &no_params()), Some(Route::GDPR)));
    let params = vec![
        ("other".to_string(), "x".to_string()),
        ("room".to_string(), "general".to_string()),
        ("room".to_string(), "second".to_string()),
    ];
    match Route::from_path("/r/:room", &params) {
        Some(Route::Room { room }) => assert_eq!(room, "general"),
        _ => panic!("the room pattern names the room route"),
    }
    let token = vec![("token".to_string(), "t0k".to_string())];
    match Route::from_path("/verify/:token", &token) {
        Some(Route::Verify { token }) => assert_eq!(token, "t0k"),
        _ => panic!("the verification pattern names the verification route"),
    }
}

#[test]
fn unknown_patterns_and_missing_params() {
    assert!(Route::from_path("/nowhere", &no_params()).is_none());
    assert!(Route::from_path("/r/:room", &no_params()).is_none());
    assert!(Route::from_path("/signin/", &no_params()).is_none());
    assert!(Route::from_path("/r/general", &no_params()).is_none());
}

#[test]
fn pattern_of_a_route_names_it_back() {
    let route = Route::Settings;
    let back = Route::from_path(&route.to_path(), &no_params());
    assert!(matches!(back, Some(Route::Settings)));
}

#[test]
fn switch_guards_the_app_pages() {
    assert!(matches!(switch(Route::JoinRoom), Page::Guarded(GuardedPage::JoinRoom)));
    assert!(matches!(switch(Route::Settings), Page::Guarded(GuardedPage::Settings)));
    match switch(Route::Room { room: "rust".to_string() }) {
        Page::Guarded(GuardedPage::Feed { room }) => assert_eq!(room, "rust"),
        _ => panic!("a room shows its feed behind the guard"),
    }
    assert!(matches!(switch(Route::SignIn), Page::SignIn));
    assert!(matches!(switch(Route::SignUp), Page::SignUp));
    assert!(matches!(switch(Route::LogOut), Page::LogOut));
    assert!(matches!(switch(Route::NotFound), Page::NotFound));
    assert!(matches!(switch(Route::VerificationFailed), Page::VerificationFailed));
    assert!(matches!(switch(Route::VerificationSucceeded), Page::VerificationSucceeded));
    match switch(Route::Verify { token: "k".to_string() }) {
        Page::Verify { token } => assert_eq!(token, "k"),
        _ => panic!("a verification link shows the verification page"),
    }
}

#[test]
fn guard_lets_users_in_and_sends_others_to_sign_in() {
    assert!(matches!(auth_guard(true), GuardOutcome::Render));
    match auth_guard(false) {
        GuardOutcome::Redirect(Route::SignIn, alert) => {
            assert!(!alert.is_success);
            assert_eq!(alert.label, "anon_guard");
            assert_eq!(alert.default, "Please authenticate prior accessing the app functionnalities");
        }
        _ => panic!("an anonymous visitor is redirected"),
    }
}

#[test]
fn signed_in_users_leave_the_sign_in_pages() {
    assert!(already_logged_in(false).is_none());
    match already_logged_in(true) {
        Some((Route::JoinRoom, alert)) => {
            assert!(!alert.is_success);
            assert_eq!(alert.label, "already_logged_in");
            assert_eq!(alert.default, "You are already logged in");
        }
        _ => panic!("a signed-in user goes to the room list"),
    }
}

#[test]
fn unknown_routes_lead_to_not_found() {
    assert!(matches!(Route::recognize("/nowhere", &no_params()), Route::NotFound));
    assert!(matches!(Route::recognize("/r/:room", &no_params()), Route::NotFound));
    assert!(matches!(Route::recognize("/signup", &no_params()), Route::SignUp));
}
