//! The forms and small components of the client: what each does with what
//! the user typed and with the server's answers.

use vstd::prelude::*;
use crate::bus::{Alert, AlertView};
use crate::i18n::TranslationMap;
use crate::menus::{MODAL_OPENER_CLASS, ModalBusContent, ModalContent};
use crate::requester::{Method, Requester};
use crate::chat::{Author, WsMessage, WsMessageContent, WsReceptionStatus};
use crate::router::{Route, RouteView, spec_from_path, spec_to_path};
use crate::text::{lookup, str_eq, parse_i32, parse_i32_spec};

verus! {

/// The answer of the API to a failed (or some successful) request.
pub struct ApiResponse {
    pub label: String,
    pub text: Option<String>,
}

/// The text of a translated label, or of its default.
pub open spec fn translated(t: &TranslationMap, label: Seq<char>, default: Seq<char>) -> Seq<char> {
    match lookup(t.spec_entries(), label) {
        Some(x) => x,
        None => default,
    }
}

/// The error shown for a response of the server: the translation of its
/// label, or its text, or "A server error has been met".
pub open spec fn spec_server_error(t: &TranslationMap, resp: &ApiResponse) -> Seq<char> {
    translated(
        t,
        resp.label@,
        match resp.text {
            Some(x) => x@,
            None => "A server error has been met"@,
        },
    )
}

/// The error shown for a response of the server.
pub fn server_error(t: &TranslationMap, resp: ApiResponse) -> (r: String)
    ensures
        r@ == spec_server_error(t, &resp),
{
    match resp.text {
        Some(x) => t.get_or_default(resp.label.as_str(), x.as_str()),
        None => t.get_or_default(resp.label.as_str(), "A server error has been met"),
    }
}

/// Builds an alert.
fn alert(is_success: bool, label: &str, default: &str) -> (r: Alert)
    ensures
        r.deep_view() == (AlertView { is_success, label: label@, default: default@ }),
{
    Alert { is_success, label: label.to_owned(), default: default.to_owned() }
}

// ---------------------------------------------------------------------------
// Sign in
// ---------------------------------------------------------------------------

/// What a form does to the state that the whole client shares, once the
/// server has answered: the signed-in user (of the page's type `U`), an
/// alert, a route, or the picture field of the settings.
pub enum SharedEffect<U> {
    /// The signed-in user is now this one.
    SetUser(U),
    /// Show an alert.
    Toast(Alert),
    /// Go to a route.
    Navigate(Route),
    /// Empty the field of the profile picture.
    ClearPictureInput,
}

/// What the user typed in the sign-in form: whether the login and password
/// fields pass their checks, their values, and the "remember me" box.
pub struct SignInInputs {
    pub fields_valid: bool,
    pub login: String,
    pub password: String,
    pub remember_me: bool,
}

/// The credentials sent to authenticate.
pub struct AuthenticableUser {
    pub login: String,
    pub password: String,
    pub session_only: bool,
}

/// The sign-in form.
pub struct SignIn {
    pub server_error: Option<String>,
    pub wait_for_api: bool,
}

/// Empty the password field, and focus it if `focus`.
pub struct ClearPassword {
    pub focus: bool,
}

impl SignIn {
    /// A form without error, not waiting.
    pub fn create() -> (r: SignIn)
        ensures
            r.server_error is None,
            !r.wait_for_api,
    {
        SignIn { server_error: None, wait_for_api: false }
    }

    /// The form is submitted (`None` when its fields are not on the page):
    /// valid fields give the credentials to send, asking for a session-only
    /// token unless the user wants to be remembered. The second value says
    /// whether to redraw: always.
    pub fn submit(&mut self, inputs: Option<SignInInputs>) -> (r: (Option<AuthenticableUser>, bool))
        ensures
            final(self).server_error is None,
            r.1,
            match inputs {
                Some(i) if i.fields_valid => final(self).wait_for_api && match r.0 {
                    Some(u) => u.login@ == i.login@ && u.password@ == i.password@ && u.session_only
                        == !i.remember_me,
                    None => false,
                },
                _ => final(self).wait_for_api == old(self).wait_for_api && r.0 is None,
            },
    {
        self.server_error = None;
        match inputs {
            Some(i) => {
                if i.fields_valid {
                    self.wait_for_api = true;
                    (
                        Some(AuthenticableUser { login: i.login, password: i.password, session_only: !i.remember_me }),
                        true,
                    )
                } else {
                    (None, true)
                }
            },
            None => (None, true),
        }
    }

    /// The request that authenticates: a `POST /api/authenticate` with the
    /// credentials as a bincode body (`body`, encoded by the page).
    pub fn authentication_request<P, S>(body: P) -> (r: Requester<P, S>)
        ensures
            r.spec_fields() == (Some("/api/authenticate"@), Some(Method::POST), true, false, None::<Seq<char>>),
            r.payload == Some(body),
            r.bearer_setter is None,
    {
        let mut r = Requester::post("/api/authenticate");
        r.bincode_body(body);
        r
    }

    /// The server accepted the credentials and answered with a token: the
    /// token to store as the bearer, and the `GET /api/whoami` that follows.
    /// That request is built from the page's bearer handle as it stood
    /// (`current`), before the stored token takes effect.
    pub fn authenticated<P, S>(token: String, current: Option<String>, setter: S) -> (r: (String, Requester<P, S>))
        ensures
            r.0@ == token@,
            r.1.spec_fields() == (Some("/api/whoami"@), Some(Method::GET), false, false, current.deep_view()),
            r.1.payload is None,
            r.1.bearer_setter == Some(setter),
    {
        (token, Requester::whoami(current, setter))
    }

    /// What a refused request for the signed-in user reports, in order:
    /// first a too-many-requests error when the status says so, then the
    /// server's own error (decoded from the body by the page).
    pub fn whoami_refused(status: u16) -> (r: (bool, bool))
        ensures
            r.0 == (status == crate::requester::TOO_MANY_REQUESTS),
            r.1,
    {
        (status == crate::requester::TOO_MANY_REQUESTS, true)
    }

    /// The server refused: its error is shown, the form waits no more, and
    /// the password is emptied and focused. The form is redrawn.
    pub fn error_from_server(&mut self, t: &TranslationMap, resp: ApiResponse) -> (r: (ClearPassword, bool))
        ensures
            final(self).server_error.deep_view() == Some(spec_server_error(t, &resp)),
            !final(self).wait_for_api,
            r.0.focus,
            r.1,
    {
        self.server_error = Some(server_error(t, resp));
        self.wait_for_api = false;
        (ClearPassword { focus: true }, true)
    }

    /// A local error: shown, the form waits no more, the password is
    /// emptied. The form is redrawn.
    pub fn local_error(&mut self, e: String) -> (r: (ClearPassword, bool))
        ensures
            final(self).server_error.deep_view() == Some(e@),
            !final(self).wait_for_api,
            !r.0.focus,
            r.1,
    {
        self.server_error = Some(e);
        self.wait_for_api = false;
        (ClearPassword { focus: false }, true)
    }

    /// The user is signed in: the shared user becomes `user`, the success
    /// is announced, and the page goes to the room list. The form is not
    /// redrawn.
    pub fn logged_in<U>(&self, user: U) -> (r: (Vec<SharedEffect<U>>, bool))
        ensures
            r.0@.len() == 3,
            r.0@[0] == SharedEffect::SetUser(user),
            r.0@[1] matches SharedEffect::Toast(a) && a.deep_view() == (AlertView {
                is_success: true,
                label: "login_success"@,
                default: "You logged in with success"@,
            }),
            r.0@[2] matches SharedEffect::<U>::Navigate(route) && route is JoinRoom,
            !r.1,
    {
        let mut v: Vec<SharedEffect<U>> = Vec::new();
        v.push(SharedEffect::SetUser(user));
        v.push(SharedEffect::Toast(alert(true, "login_success", "You logged in with success")));
        v.push(SharedEffect::Navigate(Route::JoinRoom));
        (v, false)
    }

    /// Whether a failed request for the signed-in user was refused for too
    /// many connections (reported before the server's own error).
    pub fn too_many_requests(status: u16) -> (r: bool)
        ensures
            r == (status == crate::requester::TOO_MANY_REQUESTS),
    {
        status == crate::requester::TOO_MANY_REQUESTS
    }
}

// ---------------------------------------------------------------------------
// Sign up
// ---------------------------------------------------------------------------

/// The sign-up form.
pub struct SignUp {
    pub server_error: Option<String>,
    pub wait_for_api: bool,
}

/// A password field of the sign-up form.
#[derive(PartialEq, Eq, Structural, Clone, Copy, Debug)]
pub enum PasswordField {
    Password,
    Confirmation,
}

/// The outcome of checking a sign-up.
pub enum SignUpCheck {
    /// The account fails the account rules, with their message.
    Invalid(String),
    /// The passwords differ: the fields to empty, and the message.
    PasswordMismatch { clear: Vec<PasswordField>, message: String },
    /// Create the account.
    Send,
}

/// The account that the sign-up form creates.
pub struct InsertableUser {
    pub login: String,
    pub name: String,
    pub password: String,
    pub email: Option<String>,
    pub locale: i32,
}

impl SignUp {
    /// A form without error, not waiting.
    pub fn create() -> (r: SignUp)
        ensures
            r.server_error is None,
            !r.wait_for_api,
    {
        SignUp { server_error: None, wait_for_api: false }
    }

    /// The form is submitted: the error is cleared, and when the login, name
    /// and password fields pass their checks the form waits for the server.
    /// Whether to go on, and whether to redraw (always).
    pub fn submit(&mut self, fields_valid: bool) -> (r: (bool, bool))
        ensures
            final(self).server_error is None,
            r.0 == fields_valid,
            r.1,
            final(self).wait_for_api == (fields_valid || old(self).wait_for_api),
    {
        self.server_error = None;
        if fields_valid {
            self.wait_for_api = true;
        }
        (fields_valid, true)
    }

    /// The e-mail of the new account: none when the field is empty.
    pub fn email_of(value: String) -> (r: Option<String>)
        ensures
            value@.len() == 0 ==> r is None,
            value@.len() > 0 ==> r.deep_view() == Some(value@),
    {
        if value.as_str().unicode_len() == 0 {
            None
        } else {
            Some(value)
        }
    }

    /// The account to create from the fields: the e-mail only when one was
    /// typed, and the page's locale (`locale`) or else the default one.
    pub fn insertable_user(login: String, name: String, password: String, email: String, locale: Option<i32>, default_locale: i32) -> (r: InsertableUser)
        ensures
            r.login@ == login@,
            r.name@ == name@,
            r.password@ == password@,
            email@.len() == 0 ==> r.email is None,
            email@.len() > 0 ==> r.email.deep_view() == Some(email@),
            r.locale == match locale {
                Some(l) => l,
                None => default_locale,
            },
    {
        let l = match locale {
            Some(l) => l,
            None => default_locale,
        };
        InsertableUser { login, name, password, email: Self::email_of(email), locale: l }
    }

    /// Checks a sign-up: first the account rules (`violation` holds their
    /// message when the account breaks them), then that both passwords are
    /// the same; when they differ, both password fields are emptied.
    pub fn check(violation: Option<String>, password: &str, confirmation: &str, t: &TranslationMap) -> (r:
        SignUpCheck)
        ensures
            match violation {
                Some(v) => r matches SignUpCheck::Invalid(m) && m@ == v@,
                None => if password@ != confirmation@ {
                    r matches SignUpCheck::PasswordMismatch { clear, message } && message@ == translated(
                        t,
                        "passwords_dont_match"@,
                        "The passwords do not match"@,
                    ) && clear@ == seq![PasswordField::Password, PasswordField::Confirmation]
                } else {
                    r is Send
                },
            },
    {
        match violation {
            Some(v) => SignUpCheck::Invalid(v),
            None => {
                if !str_eq(password, confirmation) {
                    let mut clear: Vec<PasswordField> = Vec::new();
                    clear.push(PasswordField::Password);
                    clear.push(PasswordField::Confirmation);
                    SignUpCheck::PasswordMismatch {
                        clear,
                        message: t.get_or_default("passwords_dont_match", "The passwords do not match"),
                    }
                } else {
                    SignUpCheck::Send
                }
            },
        }
    }

    /// The request that creates the account: a `POST /api/user` whose body
    /// is the account (`body`, encoded by the page).
    pub fn creation_request<P, S>(body: P) -> (r: Requester<P, S>)
        ensures
            r.spec_fields() == (Some("/api/user"@), Some(Method::POST), false, false, None::<Seq<char>>),
            r.payload == Some(body),
            r.bearer_setter is None,
    {
        let mut r = Requester::post("/api/user");
        r.body(Some(body));
        r
    }

    /// The account was created: the alert to raise (the server's label, and
    /// its text or "User created with success") and the route to go to.
    pub fn created(resp: ApiResponse) -> (r: (Alert, Route))
        ensures
            r.0.deep_view() == (AlertView {
                is_success: true,
                label: resp.label@,
                default: match resp.text {
                    Some(x) => x@,
                    None => "User created with success"@,
                },
            }),
            r.1 is SignIn,
    {
        let default = match resp.text {
            Some(x) => x,
            None => "User created with success".to_owned(),
        };
        (Alert { is_success: true, label: resp.label, default }, Route::SignIn)
    }

    /// The server refused: its error is shown and the form waits no more.
    /// The form is redrawn.
    pub fn error_from_server(&mut self, t: &TranslationMap, resp: ApiResponse) -> (r: bool)
        ensures
            final(self).server_error.deep_view() == Some(spec_server_error(t, &resp)),
            !final(self).wait_for_api,
            r,
    {
        self.wait_for_api = false;
        self.server_error = Some(server_error(t, resp));
        true
    }

    /// A local error is shown and the form waits no more. The form is
    /// redrawn.
    pub fn local_error(&mut self, e: String) -> (r: bool)
        ensures
            final(self).server_error.deep_view() == Some(e@),
            !final(self).wait_for_api,
            r,
    {
        self.wait_for_api = false;
        self.server_error = Some(e);
        true
    }
}

// ---------------------------------------------------------------------------
// Settings
// ---------------------------------------------------------------------------

/// The settings form.
pub struct Settings {
    pub wait_for_api: bool,
    pub server_error: Option<String>,
    pub ok_msg: Option<String>,
}

/// The outcome of submitting the settings.
pub enum SettingsSubmit {
    /// Nothing more happens (the name field fails its checks).
    Stop,
    /// The locale is not a number: the error to show.
    InvalidLocale(String),
    /// Go on with the chosen locale.
    Proceed(i32),
}

/// The profile that the settings save.
pub struct UpdatableUser {
    pub id: i32,
    pub locale_id: i32,
    pub name: String,
}

/// The name of the part of the settings' form data that holds the encoded
/// profile.
pub const PAYLOAD_PART: &'static str = "payload";

/// The name of the part of the settings' form data that holds the new
/// picture, when one was chosen.
pub const FILE_PART: &'static str = "file";

impl Settings {
    /// A form without message, not waiting.
    pub fn create() -> (r: Settings)
        ensures
            !r.wait_for_api,
            r.server_error is None,
            r.ok_msg is None,
    {
        Settings { wait_for_api: false, server_error: None, ok_msg: None }
    }

    /// The form is submitted: messages are cleared and the form waits; with
    /// a valid name, the chosen locale (the text of the select box) must be
    /// a number. The second value says whether to redraw: only to show an
    /// invalid locale.
    pub fn submit(&mut self, name_valid: bool, locale_text: &str) -> (r: (SettingsSubmit, bool))
        ensures
            final(self).wait_for_api,
            final(self).server_error is None,
            final(self).ok_msg is None,
            !name_valid ==> r.0 is Stop,
            name_valid ==> match parse_i32_spec(locale_text@) {
                Some(v) => r.0 matches SettingsSubmit::Proceed(x) && x == v,
                None => r.0 matches SettingsSubmit::InvalidLocale(m) && m@ == "The given locale isn't valid"@,
            },
            r.1 == (name_valid && parse_i32_spec(locale_text@) is None),
    {
        self.wait_for_api = true;
        self.ok_msg = None;
        self.server_error = None;
        if !name_valid {
            return (SettingsSubmit::Stop, false);
        }
        match parse_i32(locale_text) {
            Some(v) => (SettingsSubmit::Proceed(v), false),
            None => (SettingsSubmit::InvalidLocale("The given locale isn't valid".to_owned()), true),
        }
    }

    /// The profile to save: the signed-in user's identifier, the chosen
    /// locale and the name typed.
    pub fn updatable_user(user_id: i32, locale_id: i32, name: String) -> (r: UpdatableUser)
        ensures
            r.id == user_id,
            r.locale_id == locale_id,
            r.name@ == name@,
    {
        UpdatableUser { id: user_id, locale_id, name }
    }

    /// The request that saves the profile, or the message of the profile
    /// rules (`violation`) when the profile breaks them: a multipart
    /// `PUT /api/user` carrying the bearer token and the form data (`form`,
    /// built by the page from `PAYLOAD_PART` and `FILE_PART`).
    pub fn save_request<P, S>(violation: Option<String>, form: P, current: Option<String>, setter: S) -> (r:
        Result<Requester<P, S>, String>)
        ensures
            match violation {
                Some(v) => r matches Err(m) && m@ == v@,
                None => match r {
                    Ok(req) => {
                        &&& req.spec_fields() == (Some("/api/user"@), Some(Method::PUT), false, true, current.deep_view())
                        &&& req.payload == Some(form)
                        &&& req.bearer_setter == Some(setter)
                    },
                    Err(_) => false,
                },
            },
    {
        match violation {
            Some(v) => Err(v),
            None => {
                let mut r = Requester::with_bearer(Method::PUT, "/api/user", current, setter);
                r.multipart_body(form);
                Ok(r)
            },
        }
    }

    /// What follows the answer to saving the profile: on success the
    /// `GET /api/whoami` of the updated user, with the bearer token; on
    /// failure nothing is sent (`None`) and the server's error, decoded from
    /// the body, is reported.
    pub fn after_save<P, S>(ok: bool, current: Option<String>, setter: S) -> (r: Option<Requester<P, S>>)
        ensures
            !ok ==> r is None,
            ok ==> match r {
                Some(req) => {
                    &&& req.spec_fields() == (Some("/api/whoami"@), Some(Method::GET), false, false, current.deep_view())
                    &&& req.payload is None
                    &&& req.bearer_setter == Some(setter)
                },
                None => false,
            },
    {
        if ok {
            Some(Requester::whoami(current, setter))
        } else {
            None
        }
    }

    /// The server refused: its error is shown, nothing else. The form is
    /// redrawn.
    pub fn error_from_server(&mut self, t: &TranslationMap, resp: ApiResponse) -> (r: bool)
        ensures
            final(self).server_error.deep_view() == Some(spec_server_error(t, &resp)),
            !final(self).wait_for_api,
            final(self).ok_msg is None,
            r,
    {
        self.wait_for_api = false;
        self.ok_msg = None;
        self.server_error = Some(server_error(t, resp));
        true
    }

    /// A local error is shown, nothing else. The form is redrawn.
    pub fn local_error(&mut self, e: String) -> (r: bool)
        ensures
            final(self).server_error.deep_view() == Some(e@),
            !final(self).wait_for_api,
            final(self).ok_msg is None,
            r,
    {
        self.wait_for_api = false;
        self.ok_msg = None;
        self.server_error = Some(e);
        true
    }

    /// The profile was saved and the updated user read back: the form waits
    /// no more and confirms it in the user's new language
    /// (`new_translation`); the shared user becomes `user`, the success is
    /// announced, and the picture field is emptied. The form is redrawn.
    pub fn profile_updated<U>(&mut self, user: U, new_translation: &TranslationMap) -> (r: (Vec<SharedEffect<U>>, bool))
        ensures
            !final(self).wait_for_api,
            final(self).server_error == old(self).server_error,
            final(self).ok_msg.deep_view() == Some(
                translated(new_translation, "profile_updated"@, "Your profile has been updated with success"@),
            ),
            r.0@.len() == 3,
            r.0@[0] == SharedEffect::SetUser(user),
            r.0@[1] matches SharedEffect::Toast(a) && a.deep_view() == (AlertView {
                is_success: true,
                label: "profile_updated"@,
                default: "Your profile has been updated with success"@,
            }),
            r.0@[2] is ClearPictureInput,
            r.1,
    {
        self.wait_for_api = false;
        self.ok_msg = Some(
            new_translation.get_or_default("profile_updated", "Your profile has been updated with success"),
        );
        let mut v: Vec<SharedEffect<U>> = Vec::new();
        v.push(SharedEffect::SetUser(user));
        v.push(SharedEffect::Toast(alert(true, "profile_updated", "Your profile has been updated with success")));
        v.push(SharedEffect::ClearPictureInput);
        (v, true)
    }

    /// The question that confirms the deletion of the account, in the
    /// user's language, to publish on the modal bus. The form is not
    /// redrawn.
    pub fn confirm_deletion(t: &TranslationMap) -> (r: (ModalBusContent, bool))
        ensures
            !r.1,
            match r.0 {
                ModalBusContent::PopModal(c) => {
                    &&& c.title@ == translated(t, "modal_delete_profile_title"@, "You are about to delete your account"@)
                    &&& c.msg@ == translated(
                        t,
                        "modal_delete_content"@,
                        "This action is not reversible, once your account is deleted, there is no way for you to get it back."@,
                    )
                    &&& c.decline_text.deep_view() == Some(
                        translated(t, "modal_delete_profile_no"@, "I changed, my mind, don't delete my account"@),
                    )
                    &&& c.accept_text.deep_view() == Some(
                        translated(t, "modal_delete_profile_yes"@, "Understood, farewell"@),
                    )
                },
                _ => false,
            },
    {
        (
            ModalBusContent::PopModal(
                ModalContent {
                    title: t.get_or_default("modal_delete_profile_title", "You are about to delete your account"),
                    msg: t.get_or_default(
                        "modal_delete_content",
                        "This action is not reversible, once your account is deleted, there is no way for you to get it back.",
                    ),
                    decline_text: Some(
                        t.get_or_default("modal_delete_profile_no", "I changed, my mind, don't delete my account"),
                    ),
                    accept_text: Some(t.get_or_default("modal_delete_profile_yes", "Understood, farewell")),
                },
            ),
            false,
        )
    }

    /// The deletion was confirmed: the form waits while the account is
    /// deleted by a `DELETE /api/user` (sent without bearer token). The form
    /// is redrawn.
    pub fn deletion_confirmed<P, S>(&mut self) -> (r: (Requester<P, S>, bool))
        ensures
            final(self).wait_for_api,
            final(self).server_error == old(self).server_error,
            final(self).ok_msg == old(self).ok_msg,
            r.0.spec_fields() == (Some("/api/user"@), Some(Method::DELETE), false, false, None::<Seq<char>>),
            r.0.payload is None,
            r.0.bearer_setter is None,
            r.1,
    {
        self.wait_for_api = true;
        (Requester::delete("/api/user"), true)
    }

    /// What follows the answer to the deletion: on success the log-out
    /// route; on failure no route (`None`), and the server's error, decoded
    /// from the body, is reported.
    pub fn deletion_answered(ok: bool) -> (r: Option<Route>)
        ensures
            ok ==> r matches Some(Route::LogOut),
            !ok ==> r is None,
    {
        if ok {
            Some(Route::LogOut)
        } else {
            None
        }
    }

    /// Whether an answer of the modal confirms the deletion: only an
    /// accepting one does.
    pub fn confirms_deletion(answer: &ModalBusContent) -> (r: bool)
        ensures
            r == (*answer matches ModalBusContent::Outcome(a) && a),
    {
        match answer {
            ModalBusContent::Outcome(a) => *a,
            _ => false,
        }
    }

    /// The modal bus of the page changed from `old_len` to `new_len`
    /// messages, `last` being the newest: whether to redraw (the list grew),
    /// and whether the deletion was confirmed (the newest answer accepts).
    /// The form itself does not change.
    pub fn changed(old_len: usize, new_len: usize, last: Option<ModalBusContent>) -> (r: (bool, bool))
        requires
            old_len < new_len ==> last is Some,
        ensures
            r.0 == (old_len < new_len),
            r.1 == (old_len < new_len && (last->0 matches ModalBusContent::Outcome(a) && a)),
    {
        if old_len < new_len {
            match last {
                Some(m) => (true, Self::confirms_deletion(&m)),
                None => (true, false),
            }
        } else {
            (false, false)
        }
    }
}

// ---------------------------------------------------------------------------
// Joining a room
// ---------------------------------------------------------------------------

/// What `str::to_lowercase` returns for a text.
pub uninterp spec fn lowercase_text(s: Seq<char>) -> Seq<char>;

/// `str::to_lowercase`: the lowercase form of a text, as Unicode defines it.
/// For an ASCII text it maps `A` to `Z` to `a` to `z` and keeps every other
/// character.
#[verifier::external_body]
fn to_lowercase(s: &str) -> (r: String)
    ensures
        r@ == lowercase_text(s@),
        (forall|i: int| 0 <= i < s@.len() ==> (#[trigger] s@[i] as u32) < 128) ==> r@.len() == s@.len() && (
        forall|i: int|
            0 <= i < s@.len() ==> (#[trigger] r@[i]) as int == if 'A' <= s@[i] <= 'Z' {
                s@[i] as int + 32
            } else {
                s@[i] as int
            }),
{
    s.to_lowercase()
}

/// The form that joins a room.
pub struct JoinRoom {
    pub verification_error: Option<String>,
}

impl JoinRoom {
    /// A form without error.
    pub fn create() -> (r: JoinRoom)
        ensures
            r.verification_error is None,
    {
        JoinRoom { verification_error: None }
    }

    /// The form is submitted with the room's name, if its field passes its
    /// checks (`None` otherwise); `violation` holds the message of the
    /// room-name rules when the name breaks them. A valid name leads to the
    /// room, named in lowercase. The form is redrawn.
    pub fn submit(&mut self, room_name: Option<&str>, violation: Option<String>) -> (r: (Option<Route>, bool))
        ensures
            r.1,
            match room_name {
                None => r.0 is None && final(self).verification_error is None,
                Some(n) => match violation {
                    Some(v) => r.0 is None && final(self).verification_error.deep_view() == Some(v@),
                    None => final(self).verification_error is None && r.0.deep_view() == Some(
                        RouteView::Room { room: lowercase_text(n@) },
                    ),
                },
            },
    {
        self.verification_error = None;
        match room_name {
            None => (None, true),
            Some(n) => match violation {
                Some(v) => {
                    self.verification_error = Some(v);
                    (None, true)
                },
                None => (Some(Route::Room { room: to_lowercase(n) }), true),
            },
        }
    }
}

// ---------------------------------------------------------------------------
// Small components
// ---------------------------------------------------------------------------

/// The typing bar of a room.
pub struct TypeBar;

impl TypeBar {
    /// The user submits the bar in room `room`, as `author` (`input` is
    /// `None` when the field is not on the page; otherwise whether the field
    /// passes its checks, and its text). A valid, non-empty text becomes a
    /// message to send (the page then empties the field): its content is the
    /// text, its room and author those given, and its other fields take
    /// their defaults (nil identifier, time zero, not sent). Returns whether
    /// to redraw, and the message to send.
    pub fn submit(input: Option<(bool, String)>, room: &str, author: Author) -> (r: (bool, Option<WsMessage>))
        ensures
            match input {
                None => r.0 && r.1 is None,
                Some((valid, text)) => if valid && text@.len() > 0 {
                    r.0 && match r.1 {
                        Some(WsMessage::Send(c)) => {
                            &&& c.content@ == text@
                            &&& c.room@ == room@
                            &&& c.author.deep_view() == author.deep_view()
                            &&& c.uuid == 0
                            &&& c.timestamp == 0
                            &&& c.reception_status == WsReceptionStatus::NotSent
                        },
                        _ => false,
                    }
                } else {
                    !r.0 && r.1 is None
                },
            },
    {
        match input {
            None => (true, None),
            Some((valid, text)) => {
                if !valid || text.as_str().unicode_len() == 0 {
                    (false, None)
                } else {
                    (
                        true,
                        Some(
                            WsMessage::Send(
                                WsMessageContent {
                                    uuid: 0,
                                    content: text,
                                    author,
                                    timestamp: 0,
                                    room: room.to_owned(),
                                    reception_status: WsReceptionStatus::NotSent,
                                },
                            ),
                        ),
                    )
                }
            },
        }
    }
}

/// The bar shown in a room while disconnected.
pub struct DisconnectedBar;

impl DisconnectedBar {
    /// Whether the bar offers to reconnect: once the socket has answered;
    /// before that it shows that the server is awaited.
    pub fn offers_reconnect(called_back: bool) -> (r: bool)
        ensures
            r == called_back,
    {
        called_back
    }
}

/// The navigation bar.
pub struct Navbar;

impl Navbar {
    /// Where the logo leads: the room list for a signed-in user, the sign-in
    /// page otherwise.
    pub fn logo_route(has_user: bool) -> (r: Route)
        ensures
            has_user ==> r is JoinRoom,
            !has_user ==> r is SignIn,
    {
        if has_user {
            Route::JoinRoom
        } else {
            Route::SignIn
        }
    }

    /// The routes of the navigation links, from their targets; `None` when a
    /// target names no route on its own.
    pub fn link_routes(hrefs: &Vec<String>) -> (r: Option<Vec<Route>>)
        ensures
            match r {
                Some(routes) => routes.len() == hrefs.len() && forall|i: int|
                    0 <= i < routes.len() ==> spec_from_path(hrefs[i]@, Seq::empty()) == Some(
                        #[trigger] routes[i].deep_view(),
                    ),
                None => exists|i: int| 0 <= i < hrefs.len() && spec_from_path(#[trigger] hrefs[i]@, Seq::empty()) is None,
            },
    {
        let no_params: Vec<(String, String)> = Vec::new();
        assert(no_params.deep_view() =~= Seq::<(Seq<char>, Seq<char>)>::empty());
        let mut out: Vec<Route> = Vec::new();
        let mut i: usize = 0;
        while i < hrefs.len()
            invariant
                i <= hrefs.len(),
                out.len() == i,
                no_params.deep_view() == Seq::<(Seq<char>, Seq<char>)>::empty(),
                forall|j: int|
                    0 <= j < i ==> spec_from_path(hrefs[j]@, Seq::empty()) == Some(#[trigger] out[j].deep_view()),
            decreases hrefs.len() - i,
        {
            match Route::from_path(hrefs[i].as_str(), &no_params) {
                Some(route) => {
                    out.push(route);
                },
                None => {
                    return None;
                },
            }
            i = i + 1;
        }
        Some(out)
    }
}

/// A link of the navigation bar: its text and the route it leads to.
pub struct Navlink {
    pub label: String,
    pub link: Route,
}

impl Navlink {
    /// The target of the link: its route's path.
    pub fn href(&self) -> (r: String)
        ensures
            r@ == spec_to_path(self.link.deep_view()),
    {
        self.link.to_path()
    }
}

/// The page of unknown routes.
pub struct NotFound;

impl NotFound {
    /// The two lines that the page shows.
    pub fn lines() -> (r: (&'static str, &'static str))
        ensures
            r.0@ == "404 ( ˘︹˘ )"@,
            r.1@ == "This route doesn't exist"@,
    {
        ("404 ( ˘︹˘ )", "This route doesn't exist")
    }
}

/// The filters above the room list.
pub struct Filters;

impl Filters {
    /// The names of the filters, in the order they are shown.
    pub fn names() -> (r: Vec<&'static str>)
        ensures
            r@.len() == 3,
            r@[0]@ == "All"@,
            r@[1]@ == "Male"@,
            r@[2]@ == "Female"@,
    {
        let mut v: Vec<&'static str> = Vec::new();
        v.push("All");
        v.push("Male");
        v.push("Female");
        v
    }
}

/// The check made when the app starts: it asks the server whether the
/// session is valid and tells the authentication bus.
pub struct AuthChecker;

impl AuthChecker {
    /// The endpoint that tells whether the session is valid.
    pub fn endpoint() -> (r: &'static str)
        ensures
            r@ == "/api/validate"@,
    {
        "/api/validate"
    }

    /// What the check publishes on the authentication bus for the status of
    /// the server's answer: whether it is a success (`200` to `299`).
    pub fn published(status: u16) -> (r: bool)
        ensures
            r == (200 <= status <= 299),
    {
        200 <= status && status <= 299
    }
}

/// The button of the forms: a plain button when it runs a callback, a
/// submit button otherwise.
pub fn button_type(has_callback: bool) -> (r: &'static str)
    ensures
        has_callback ==> r@ == "button"@,
        !has_callback ==> r@ == "submit"@,
{
    if has_callback {
        "button"
    } else {
        "submit"
    }
}

/// The classes of a form button; a button that opens the modal is marked so
/// that clicking it does not close the modal.
pub fn button_classes(is_modal_opener: bool) -> (r: String)
    ensures
        is_modal_opener ==> r@ == "common-button "@ + MODAL_OPENER_CLASS@,
        !is_modal_opener ==> r@ == "common-button"@,
{
    let mut out = "common-button".to_owned();
    if is_modal_opener {
        out.append(" ");
        out.append(MODAL_OPENER_CLASS);
        assert(out@ =~= "common-button"@ + " "@ + MODAL_OPENER_CLASS@);
        proof {
            reveal_strlit("common-button");
            reveal_strlit(" ");
            reveal_strlit("common-button ");
            assert("common-button"@ + " "@ =~= "common-button "@);
        }
    }
    out
}

/// Where an e-mail verification leads: its success page when the server
/// accepted the token, its failure page otherwise.
pub fn verification_route(ok: bool) -> (r: Route)
    ensures
        ok ==> r is VerificationSucceeded,
        !ok ==> r is VerificationFailed,
{
    if ok {
        Route::VerificationSucceeded
    } else {
        Route::VerificationFailed
    }
}

/// The alert raised once logged out.
pub fn logged_out_alert() -> (r: Alert)
    ensures
        r.deep_view() == (AlertView {
            is_success: true,
            label: "logged_out"@,
            default: "You logged out with success, see you !"@,
        }),
{
    alert(true, "logged_out", "You logged out with success, see you !")
}

/// A route that checks access before showing its content.
pub struct SecuredRoute {
    pub verified: bool,
}

impl SecuredRoute {
    /// The access check answered: a verified access shows the content,
    /// otherwise the visitor is sent to sign in.
    pub fn access_verified(&mut self, verified: bool) -> (r: Option<Route>)
        ensures
            verified ==> final(self).verified && r is None,
            !verified ==> final(self).verified == old(self).verified && r matches Some(Route::SignIn),
    {
        if verified {
            self.verified = true;
            None
        } else {
            Some(Route::SignIn)
        }
    }
}

} // verus!
