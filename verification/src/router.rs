//! The client's routes: their paths, how a path pattern and its parameters
//! name a route, which page each route shows, and the guard that keeps
//! anonymous visitors out of the pages that need a user.

use vstd::prelude::*;
use crate::bus::Alert;
use crate::text::{find_value, lookup, str_eq};

verus! {

/// The endpoints that the main view renders, by path.
pub enum Route {
    /// `/`: joining a room.
    JoinRoom,
    /// `/r/:room`: a room's chat.
    Room { room: String },
    /// `/signin`
    SignIn,
    /// `/signup`
    SignUp,
    /// `/settings`: the user's profile.
    Settings,
    /// `/logout`
    LogOut,
    /// `/404`: where every unknown path leads.
    NotFound,
    /// `/verify/:token`: an e-mail verification link.
    Verify { token: String },
    /// `/verification_failed`
    VerificationFailed,
    /// `/verification_succeeded`
    VerificationSucceeded,
    /// `/contact`
    Contact,
    /// `/gdpr`
    GDPR,
}

/// A route as plain values.
pub enum RouteView {
    JoinRoom,
    Room { room: Seq<char> },
    SignIn,
    SignUp,
    Settings,
    LogOut,
    NotFound,
    Verify { token: Seq<char> },
    VerificationFailed,
    VerificationSucceeded,
    Contact,
    GDPR,
}

impl DeepView for Route {
    type V = RouteView;

    open spec fn deep_view(&self) -> RouteView {
        match self {
            Route::JoinRoom => RouteView::JoinRoom,
            Route::Room { room } => RouteView::Room { room: room@ },
            Route::SignIn => RouteView::SignIn,
            Route::SignUp => RouteView::SignUp,
            Route::Settings => RouteView::Settings,
            Route::LogOut => RouteView::LogOut,
            Route::NotFound => RouteView::NotFound,
            Route::Verify { token } => RouteView::Verify { token: token@ },
            Route::VerificationFailed => RouteView::VerificationFailed,
            Route::VerificationSucceeded => RouteView::VerificationSucceeded,
            Route::Contact => RouteView::Contact,
            Route::GDPR => RouteView::GDPR,
        }
    }
}

/// The path pattern of each route, where `:name` stands for a parameter.
pub open spec fn spec_pattern(r: RouteView) -> Seq<char> {
    match r {
        RouteView::JoinRoom => "/"@,
        RouteView::Room { .. } => "/r/:room"@,
        RouteView::SignIn => "/signin"@,
        RouteView::SignUp => "/signup"@,
        RouteView::Settings => "/settings"@,
        RouteView::LogOut => "/logout"@,
        RouteView::NotFound => "/404"@,
        RouteView::Verify { .. } => "/verify/:token"@,
        RouteView::VerificationFailed => "/verification_failed"@,
        RouteView::VerificationSucceeded => "/verification_succeeded"@,
        RouteView::Contact => "/contact"@,
        RouteView::GDPR => "/gdpr"@,
    }
}

/// The path of a route: its pattern with the parameter filled in.
pub open spec fn spec_to_path(r: RouteView) -> Seq<char> {
    match r {
        RouteView::Room { room } => "/r/"@ + room,
        RouteView::Verify { token } => "/verify/"@ + token,
        _ => spec_pattern(r),
    }
}

/// The route that a path pattern names, given the parameters that were
/// matched: `None` for an unknown pattern, or for a pattern whose parameter
/// is missing.
pub open spec fn spec_from_path(path: Seq<char>, params: Seq<(Seq<char>, Seq<char>)>) -> Option<RouteView> {
    if path == "/"@ {
        Some(RouteView::JoinRoom)
    } else if path == "/r/:room"@ {
        match lookup(params, "room"@) {
            Some(v) => Some(RouteView::Room { room: v }),
            None => None,
        }
    } else if path == "/signin"@ {
        Some(RouteView::SignIn)
    } else if path == "/signup"@ {
        Some(RouteView::SignUp)
    } else if path == "/settings"@ {
        Some(RouteView::Settings)
    } else if path == "/logout"@ {
        Some(RouteView::LogOut)
    } else if path == "/404"@ {
        Some(RouteView::NotFound)
    } else if path == "/verify/:token"@ {
        match lookup(params, "token"@) {
            Some(v) => Some(RouteView::Verify { token: v }),
            None => None,
        }
    } else if path == "/verification_failed"@ {
        Some(RouteView::VerificationFailed)
    } else if path == "/verification_succeeded"@ {
        Some(RouteView::VerificationSucceeded)
    } else if path == "/contact"@ {
        Some(RouteView::Contact)
    } else if path == "/gdpr"@ {
        Some(RouteView::GDPR)
    } else {
        None
    }
}

/// The parameters that a route's path carries, by name.
pub open spec fn spec_params(r: RouteView) -> Seq<(Seq<char>, Seq<char>)> {
    match r {
        RouteView::Room { room } => seq![("room"@, room)],
        RouteView::Verify { token } => seq![("token"@, token)],
        _ => Seq::empty(),
    }
}

impl Route {
    /// The path of the route.
    pub fn to_path(&self) -> (r: String)
        ensures
            r@ == spec_to_path(self.deep_view()),
    {
        match self {
            Route::JoinRoom => "/".to_owned(),
            Route::Room { room } => {
                let mut p = "/r/".to_owned();
                p.append(room.as_str());
                p
            },
            Route::SignIn => "/signin".to_owned(),
            Route::SignUp => "/signup".to_owned(),
            Route::Settings => "/settings".to_owned(),
            Route::LogOut => "/logout".to_owned(),
            Route::NotFound => "/404".to_owned(),
            Route::Verify { token } => {
                let mut p = "/verify/".to_owned();
                p.append(token.as_str());
                p
            },
            Route::VerificationFailed => "/verification_failed".to_owned(),
            Route::VerificationSucceeded => "/verification_succeeded".to_owned(),
            Route::Contact => "/contact".to_owned(),
            Route::GDPR => "/gdpr".to_owned(),
        }
    }

    /// The route that a path pattern names, with the parameters that were
    /// matched for it (first match of a name wins).
    pub fn from_path(path: &str, params: &Vec<(String, String)>) -> (r: Option<Route>)
        ensures
            r.deep_view() == spec_from_path(path@, params.deep_view()),
    {
        if str_eq(path, "/") {
            Some(Route::JoinRoom)
        } else if str_eq(path, "/r/:room") {
            match find_value(params, "room") {
                Some(v) => Some(Route::Room { room: v }),
                None => None,
            }
        } else if str_eq(path, "/signin") {
            Some(Route::SignIn)
        } else if str_eq(path, "/signup") {
            Some(Route::SignUp)
        } else if str_eq(path, "/settings") {
            Some(Route::Settings)
        } else if str_eq(path, "/logout") {
            Some(Route::LogOut)
        } else if str_eq(path, "/404") {
            Some(Route::NotFound)
        } else if str_eq(path, "/verify/:token") {
            match find_value(params, "token") {
                Some(v) => Some(Route::Verify { token: v }),
                None => None,
            }
        } else if str_eq(path, "/verification_failed") {
            Some(Route::VerificationFailed)
        } else if str_eq(path, "/verification_succeeded") {
            Some(Route::VerificationSucceeded)
        } else if str_eq(path, "/contact") {
            Some(Route::Contact)
        } else if str_eq(path, "/gdpr") {
            Some(Route::GDPR)
        } else {
            None
        }
    }
}

impl Route {
    /// The route that the router shows for a path pattern and its
    /// parameters: the route they name, and `NotFound` for anything else.
    pub fn recognize(path: &str, params: &Vec<(String, String)>) -> (r: Route)
        ensures
            match spec_from_path(path@, params.deep_view()) {
                Some(v) => r.deep_view() == v,
                None => r is NotFound,
            },
    {
        match Route::from_path(path, params) {
            Some(r) => r,
            None => Route::NotFound,
        }
    }
}

/// Every route is named by its own pattern and the parameters its path
/// carries.
pub proof fn law_from_path_of_pattern(r: RouteView)
    ensures
        spec_from_path(spec_pattern(r), spec_params(r)) == Some(r),
{
    reveal_strlit("/");
    reveal_strlit("/r/:room");
    reveal_strlit("/signin");
    reveal_strlit("/signup");
    reveal_strlit("/settings");
    reveal_strlit("/logout");
    reveal_strlit("/404");
    reveal_strlit("/verify/:token");
    reveal_strlit("/verification_failed");
    reveal_strlit("/verification_succeeded");
    reveal_strlit("/contact");
    reveal_strlit("/gdpr");
    assert("/"@.len() == 1);
    assert("/r/:room"@.len() == 8);
    assert("/signin"@.len() == 7);
    assert("/signup"@.len() == 7);
    assert("/settings"@.len() == 9);
    assert("/logout"@.len() == 7);
    assert("/404"@.len() == 4);
    assert("/verify/:token"@.len() == 14);
    assert("/verification_failed"@.len() == 20);
    assert("/verification_succeeded"@.len() == 23);
    assert("/contact"@.len() == 8);
    assert("/gdpr"@.len() == 5);
    match r {
        RouteView::Room { room } => {
            assert(lookup(spec_params(r), "room"@) == Some(room));
        },
        RouteView::SignUp => {
            assert("/signin"@[6] != "/signup"@[6]);
        },
        RouteView::LogOut => {
            assert("/signin"@[2] != "/logout"@[2]);
            assert("/signup"@[2] != "/logout"@[2]);
        },
        RouteView::Verify { token } => {
            assert(lookup(spec_params(r), "token"@) == Some(token));
        },
        RouteView::Contact => {
            assert("/r/:room"@[1] != "/contact"@[1]);
        },
        _ => {},
    }
}

/// The guarded pages, which only a signed-in user sees.
pub enum GuardedPage {
    JoinRoom,
    Feed { room: String },
    Settings,
}

/// The page that a route shows.
pub enum Page {
    /// A page behind the authentication guard.
    Guarded(GuardedPage),
    SignIn,
    SignUp,
    LogOut,
    NotFound,
    VerificationFailed,
    VerificationSucceeded,
    /// The verification of a token, while it is checked.
    Verify { token: String },
}

/// Whether a route has a page (the contact and GDPR pages do not exist yet).
pub open spec fn has_page(r: RouteView) -> bool {
    !(r is Contact) && !(r is GDPR)
}

/// The page that a route shows: the room list, a room's feed and the
/// settings behind the guard, the other routes as they are.
pub fn switch(route: Route) -> (r: Page)
    requires
        has_page(route.deep_view()),
    ensures
        match (route.deep_view(), r) {
            (RouteView::JoinRoom, Page::Guarded(GuardedPage::JoinRoom)) => true,
            (RouteView::Room { room }, Page::Guarded(GuardedPage::Feed { room: f })) => f@ == room,
            (RouteView::Settings, Page::Guarded(GuardedPage::Settings)) => true,
            (RouteView::SignIn, Page::SignIn) => true,
            (RouteView::SignUp, Page::SignUp) => true,
            (RouteView::LogOut, Page::LogOut) => true,
            (RouteView::NotFound, Page::NotFound) => true,
            (RouteView::VerificationFailed, Page::VerificationFailed) => true,
            (RouteView::VerificationSucceeded, Page::VerificationSucceeded) => true,
            (RouteView::Verify { token }, Page::Verify { token: t }) => t@ == token,
            _ => false,
        },
{
    match route {
        Route::JoinRoom => Page::Guarded(GuardedPage::JoinRoom),
        Route::Room { room } => Page::Guarded(GuardedPage::Feed { room }),
        Route::SignIn => Page::SignIn,
        Route::SignUp => Page::SignUp,
        Route::Settings => Page::Guarded(GuardedPage::Settings),
        Route::LogOut => Page::LogOut,
        Route::NotFound => Page::NotFound,
        Route::VerificationFailed => Page::VerificationFailed,
        Route::VerificationSucceeded => Page::VerificationSucceeded,
        Route::Verify { token } => Page::Verify { token },
        Route::Contact => Page::NotFound,
        Route::GDPR => Page::NotFound,
    }
}

/// What the authentication guard does.
pub enum GuardOutcome {
    /// Show the guarded page.
    Render,
    /// Replace the page by another route and raise an alert.
    Redirect(Route, Alert),
}

/// The authentication guard: a signed-in user sees the page; anybody else is
/// sent to sign in, with an alert asking to authenticate.
pub fn auth_guard(has_user: bool) -> (r: GuardOutcome)
    ensures
        has_user ==> r is Render,
        !has_user ==> (match r {
            GuardOutcome::Redirect(route, alert) => route is SignIn && !alert.is_success && alert.label@
                == "anon_guard"@ && alert.default@
                == "Please authenticate prior accessing the app functionnalities"@,
            _ => false,
        }),
{
    if has_user {
        GuardOutcome::Render
    } else {
        GuardOutcome::Redirect(
            Route::SignIn,
            Alert {
                is_success: false,
                label: "anon_guard".to_owned(),
                default: "Please authenticate prior accessing the app functionnalities".to_owned(),
            },
        )
    }
}

/// Where a page that needs no user sends a visitor who is already signed in
/// (sign in and sign up): to the room list, with an alert; `None` for an
/// anonymous visitor.
pub fn already_logged_in(has_user: bool) -> (r: Option<(Route, Alert)>)
    ensures
        !has_user ==> r is None,
        has_user ==> (match r {
            Some((route, alert)) => route is JoinRoom && !alert.is_success && alert.label@
                == "already_logged_in"@ && alert.default@ == "You are already logged in"@,
            None => false,
        }),
{
    if has_user {
        Some(
            (
                Route::JoinRoom,
                Alert {
                    is_success: false,
                    label: "already_logged_in".to_owned(),
                    default: "You are already logged in".to_owned(),
                },
            ),
        )
    } else {
        None
    }
}

} // verus!
