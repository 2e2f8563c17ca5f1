//! The client's HTTP requests: a builder for a request to the API, and the
//! decisions taken around sending it (its headers, re-authenticating once a
//! token has expired, warning when the server refuses more connections).
//!
//! The request carries its payload `P` and the setter `S` through which a
//! fresh bearer token is handed back to the page; neither is read here.

use vstd::prelude::*;
use crate::bus::Alert;
use crate::text::str_eq;

verus! {

/// The HTTP methods of the API.
#[derive(PartialEq, Eq, Structural, Clone, Copy, Debug)]
pub enum Method {
    GET,
    POST,
    PUT,
    DELETE,
    PATCH,
}

/// The status with which the API refuses an expired or missing token.
pub const UNAUTHORIZED: u16 = 401u16;

/// The status with which the API refuses a connection too many.
pub const TOO_MANY_REQUESTS: u16 = 429u16;

/// A request to the API, as it is being built.
pub struct Requester<P, S> {
    pub endpoint: Option<String>,
    pub method: Option<Method>,
    pub payload: Option<P>,
    pub is_bincode: bool,
    pub is_multipart: bool,
    pub bearer_value: Option<String>,
    pub bearer_setter: Option<S>,
}

/// A request with everything unset.
pub open spec fn spec_empty<P, S>() -> (Option<Seq<char>>, Option<Method>, bool, bool, Option<Seq<char>>) {
    (None, None, false, false, None)
}

impl<P, S> Requester<P, S> {
    /// The endpoint, method, binary-body flag, multipart flag and bearer
    /// token of the request, as plain values.
    pub open spec fn spec_fields(&self) -> (Option<Seq<char>>, Option<Method>, bool, bool, Option<Seq<char>>) {
        (self.endpoint.deep_view(), self.method, self.is_bincode, self.is_multipart, self.bearer_value.deep_view())
    }

    /// A request with nothing set.
    pub fn default() -> (r: Self)
        ensures
            r.spec_fields() == spec_empty::<P, S>(),
            r.payload is None,
            r.bearer_setter is None,
    {
        Requester {
            endpoint: None,
            method: None,
            payload: None,
            is_bincode: false,
            is_multipart: false,
            bearer_value: None,
            bearer_setter: None,
        }
    }

    fn with_method(method: Method, endpoint: &str) -> (r: Self)
        ensures
            r.spec_fields() == (Some(endpoint@), Some(method), false, false, None::<Seq<char>>),
            r.payload is None,
            r.bearer_setter is None,
    {
        Requester {
            endpoint: Some(endpoint.to_owned()),
            method: Some(method),
            payload: None,
            is_bincode: false,
            is_multipart: false,
            bearer_value: None,
            bearer_setter: None,
        }
    }

    /// A `GET` of an endpoint.
    pub fn get(endpoint: &str) -> (r: Self)
        ensures
            r.spec_fields() == (Some(endpoint@), Some(Method::GET), false, false, None::<Seq<char>>),
            r.payload is None,
            r.bearer_setter is None,
    {
        Self::with_method(Method::GET, endpoint)
    }

    /// A `POST` to an endpoint.
    pub fn post(endpoint: &str) -> (r: Self)
        ensures
            r.spec_fields() == (Some(endpoint@), Some(Method::POST), false, false, None::<Seq<char>>),
            r.payload is None,
            r.bearer_setter is None,
    {
        Self::with_method(Method::POST, endpoint)
    }

    /// A `PUT` to an endpoint.
    pub fn put(endpoint: &str) -> (r: Self)
        ensures
            r.spec_fields() == (Some(endpoint@), Some(Method::PUT), false, false, None::<Seq<char>>),
            r.payload is None,
            r.bearer_setter is None,
    {
        Self::with_method(Method::PUT, endpoint)
    }

    /// A `DELETE` of an endpoint.
    pub fn delete(endpoint: &str) -> (r: Self)
        ensures
            r.spec_fields() == (Some(endpoint@), Some(Method::DELETE), false, false, None::<Seq<char>>),
            r.payload is None,
            r.bearer_setter is None,
    {
        Self::with_method(Method::DELETE, endpoint)
    }

    /// A `PATCH` of an endpoint.
    pub fn patch(endpoint: &str) -> (r: Self)
        ensures
            r.spec_fields() == (Some(endpoint@), Some(Method::PATCH), false, false, None::<Seq<char>>),
            r.payload is None,
            r.bearer_setter is None,
    {
        Self::with_method(Method::PATCH, endpoint)
    }

    /// Sets the body, when one is given; the request is otherwise unchanged.
    pub fn body(&mut self, body: Option<P>) -> (r: &mut Self)
        ensures
            r.spec_fields() == old(self).spec_fields(),
            body is Some ==> r.payload == body,
            body is None ==> r.payload == old(self).payload,
            r.bearer_setter == old(self).bearer_setter,
            *final(self) == *final(r),
    {
        match body {
            Some(val) => {
                self.payload = Some(val);
            },
            None => {},
        }
        self
    }

    /// Sets a body serialised with bincode.
    pub fn bincode_body(&mut self, body: P) -> (r: &mut Self)
        ensures
            r.spec_fields() == (old(self).endpoint.deep_view(), old(self).method, true, old(
                self,
            ).is_multipart, old(self).bearer_value.deep_view()),
            r.payload == Some(body),
            r.bearer_setter == old(self).bearer_setter,
            *final(self) == *final(r),
    {
        self.payload = Some(body);
        self.is_bincode = true;
        self
    }

    /// Sets a multipart form as the body.
    pub fn multipart_body(&mut self, body: P) -> (r: &mut Self)
        ensures
            r.spec_fields() == (old(self).endpoint.deep_view(), old(self).method, old(
                self,
            ).is_bincode, true, old(self).bearer_value.deep_view()),
            r.payload == Some(body),
            r.bearer_setter == old(self).bearer_setter,
            *final(self) == *final(r),
    {
        self.payload = Some(body);
        self.is_multipart = true;
        self
    }

    /// Takes the bearer from the page's state: its current token, if any,
    /// and its setter.
    pub fn bearer(&mut self, current: Option<String>, setter: S) -> (r: &mut Self)
        ensures
            r.spec_fields() == (old(self).endpoint.deep_view(), old(self).method, old(
                self,
            ).is_bincode, old(self).is_multipart, current.deep_view()),
            r.payload == old(self).payload,
            r.bearer_setter == Some(setter),
            *final(self) == *final(r),
    {
        self.bearer_setter = Some(setter);
        self.bearer_value = current;
        self
    }

    /// Sets the bearer token.
    pub fn bearer_value(&mut self, bearer: String) -> (r: &mut Self)
        ensures
            r.spec_fields() == (old(self).endpoint.deep_view(), old(self).method, old(
                self,
            ).is_bincode, old(self).is_multipart, Some(bearer@)),
            r.payload == old(self).payload,
            r.bearer_setter == old(self).bearer_setter,
            *final(self) == *final(r),
    {
        self.bearer_value = Some(bearer);
        self
    }

    /// Sets where a fresh token is handed back.
    pub fn bearer_setter(&mut self, bearer_setter: S) -> (r: &mut Self)
        ensures
            r.spec_fields() == old(self).spec_fields(),
            r.payload == old(self).payload,
            r.bearer_setter == Some(bearer_setter),
            *final(self) == *final(r),
    {
        self.bearer_setter = Some(bearer_setter);
        self
    }

    /// Whether the request can be sent: both its method and its endpoint are
    /// set (sending it otherwise is a programming error).
    pub open spec fn is_ready(&self) -> bool {
        self.method is Some && self.endpoint is Some
    }

    /// The headers of the request: the bearer token, if any, then the
    /// content type of a bincode body.
    pub open spec fn spec_headers(&self) -> Seq<(Seq<char>, Seq<char>)> {
        (match self.bearer_value {
            Some(b) => seq![("Authorization"@, "Bearer "@ + b@)],
            None => Seq::empty(),
        }) + (if self.is_bincode {
            seq![("Content-Type"@, "application/bincode"@)]
        } else {
            Seq::empty()
        })
    }

    /// The headers with which the request is sent.
    pub fn headers(&self) -> (r: Vec<(String, String)>)
        ensures
            r.deep_view() == self.spec_headers(),
    {
        let mut out: Vec<(String, String)> = Vec::new();
        match &self.bearer_value {
            Some(b) => {
                let mut v = "Bearer ".to_owned();
                v.append(b.as_str());
                out.push(("Authorization".to_owned(), v));
            },
            None => {},
        }
        if self.is_bincode {
            out.push(("Content-Type".to_owned(), "application/bincode".to_owned()));
        }
        assert(out.deep_view() =~= self.spec_headers());
        out
    }

    /// What to do with the status of the response: re-authenticate when the
    /// token was refused (except on the authentication endpoint itself),
    /// otherwise hand the response back, raising an alert first when the
    /// server refuses more connections.
    pub fn on_status(&self, status: u16) -> (r: ResponseStep)
        requires
            self.is_ready(),
        ensures
            r.deep_view() == spec_response_step(self.endpoint->0@, status),
    {
        let endpoint = match &self.endpoint {
            Some(e) => e,
            None => {
                return ResponseStep::Done(None);
            },
        };
        if status == UNAUTHORIZED && !str_eq(endpoint.as_str(), "/api/authenticate") {
            ResponseStep::Reauthenticate
        } else if status == TOO_MANY_REQUESTS {
            ResponseStep::Done(
                Some(
                    Alert {
                        is_success: true,
                        label: "max_conns_reached".to_owned(),
                        default: "The number of maxium simulatenous connections has been reached".to_owned(),
                    },
                ),
            )
        } else {
            ResponseStep::Done(None)
        }
    }

    /// The request that renews the token: a `PATCH` of the authentication
    /// endpoint, with nothing else set.
    pub fn reauthentication() -> (r: Self)
        ensures
            r.spec_fields() == (Some("/api/authenticate"@), Some(Method::PATCH), false, false, None::<
                Seq<char>,
            >),
            r.payload is None,
            r.bearer_setter is None,
    {
        Self::patch("/api/authenticate")
    }

    /// What follows the renewal of a refused token. With the new token
    /// (`Some`: the renewal succeeded and its body is the token) the request
    /// carries it, is sent again, and the token is handed back for the
    /// bearer setter; without (`None`: the renewal failed) the request is
    /// left as it was and the first response is handed back.
    pub fn after_renewal(&mut self, renewed: Option<String>) -> (r: Option<String>)
        ensures
            match renewed {
                Some(t) => {
                    &&& final(self).spec_fields() == (old(self).endpoint.deep_view(), old(self).method, old(
                        self,
                    ).is_bincode, old(self).is_multipart, Some(t@))
                    &&& final(self).payload == old(self).payload
                    &&& final(self).bearer_setter == old(self).bearer_setter
                    &&& r.deep_view() == Some(t@)
                },
                None => *final(self) == *old(self) && r is None,
            },
    {
        match renewed {
            Some(t) => {
                self.bearer_value = Some(t.clone());
                Some(t)
            },
            None => None,
        }
    }

    /// A request to an endpoint that carries the current bearer token and
    /// the setter that stores a renewed one.
    fn authorized(method: Method, endpoint: &str, current: Option<String>, setter: S) -> (r: Self)
        ensures
            r.spec_fields() == (Some(endpoint@), Some(method), false, false, current.deep_view()),
            r.payload is None,
            r.bearer_setter == Some(setter),
    {
        Requester {
            endpoint: Some(endpoint.to_owned()),
            method: Some(method),
            payload: None,
            is_bincode: false,
            is_multipart: false,
            bearer_value: current,
            bearer_setter: Some(setter),
        }
    }

    /// The `GET /api/whoami` that asks for the signed-in user, with the
    /// current bearer token and its setter.
    pub fn whoami(current: Option<String>, setter: S) -> (r: Self)
        ensures
            r.spec_fields() == (Some("/api/whoami"@), Some(Method::GET), false, false, current.deep_view()),
            r.payload is None,
            r.bearer_setter == Some(setter),
    {
        Self::authorized(Method::GET, "/api/whoami", current, setter)
    }

    /// The `GET /api/validate` that asks whether the session is still
    /// valid, with the current bearer token and its setter.
    pub fn session_check(current: Option<String>, setter: S) -> (r: Self)
        ensures
            r.spec_fields() == (Some("/api/validate"@), Some(Method::GET), false, false, current.deep_view()),
            r.payload is None,
            r.bearer_setter == Some(setter),
    {
        Self::authorized(Method::GET, "/api/validate", current, setter)
    }

    /// A request with a bearer token, for the menus and forms.
    pub fn with_bearer(method: Method, endpoint: &str, current: Option<String>, setter: S) -> (r: Self)
        ensures
            r.spec_fields() == (Some(endpoint@), Some(method), false, false, current.deep_view()),
            r.payload is None,
            r.bearer_setter == Some(setter),
    {
        Self::authorized(method, endpoint, current, setter)
    }
}

/// What follows a response.
pub enum ResponseStep {
    /// Renew the token, then send the request again if that succeeded, or
    /// hand back the first response if it did not.
    Reauthenticate,
    /// Hand the response back, after showing the alert, if any.
    Done(Option<Alert>),
}

/// The alert raised when the server refuses more connections.
pub open spec fn too_many_requests_alert() -> crate::bus::AlertView {
    crate::bus::AlertView {
        is_success: true,
        label: "max_conns_reached"@,
        default: "The number of maxium simulatenous connections has been reached"@,
    }
}

pub enum ResponseStepView {
    Reauthenticate,
    Done(Option<crate::bus::AlertView>),
}

impl DeepView for ResponseStep {
    type V = ResponseStepView;

    open spec fn deep_view(&self) -> ResponseStepView {
        match self {
            ResponseStep::Reauthenticate => ResponseStepView::Reauthenticate,
            ResponseStep::Done(a) => ResponseStepView::Done(a.deep_view()),
        }
    }
}

/// What follows a response with a status, for a request to an endpoint.
pub open spec fn spec_response_step(endpoint: Seq<char>, status: u16) -> ResponseStepView {
    if status == UNAUTHORIZED && endpoint != "/api/authenticate"@ {
        ResponseStepView::Reauthenticate
    } else if status == TOO_MANY_REQUESTS {
        ResponseStepView::Done(Some(too_many_requests_alert()))
    } else {
        ResponseStepView::Done(None)
    }
}

/// The renewal of a token is never itself renewed: whatever the status of
/// the answer to the authentication endpoint, the response is handed back.
pub proof fn law_renewal_not_renewed(status: u16)
    ensures
        spec_response_step("/api/authenticate"@, status) is Done,
{
}

/// The headers of a request: the bearer token, when there is one, comes as
/// `Authorization: Bearer <token>`; a bincode body always comes with
/// `Content-Type: application/bincode`, with or without a token; nothing
/// else is sent.
pub proof fn law_headers<P, S>(r: Requester<P, S>)
    ensures
        r.is_bincode ==> r.spec_headers().contains(("Content-Type"@, "application/bincode"@)),
        !r.is_bincode ==> !r.spec_headers().contains(("Content-Type"@, "application/bincode"@)),
        r.bearer_value is None ==> r.spec_headers() == if r.is_bincode {
            seq![("Content-Type"@, "application/bincode"@)]
        } else {
            Seq::<(Seq<char>, Seq<char>)>::empty()
        },
        r.bearer_value matches Some(b) ==> r.spec_headers().len() >= 1 && r.spec_headers()[0] == (
            "Authorization"@,
            "Bearer "@ + b@,
        ),
        r.spec_headers().len() == (if r.bearer_value is Some { 1int } else { 0int }) + (if r.is_bincode {
            1int
        } else {
            0int
        }),
{
    let h = r.spec_headers();
    reveal_strlit("Authorization");
    reveal_strlit("Content-Type");
    if r.is_bincode {
        assert(h[h.len() - 1] == ("Content-Type"@, "application/bincode"@));
    } else {
        if h.contains(("Content-Type"@, "application/bincode"@)) {
            let i = choose|i: int| 0 <= i < h.len() && h[i] == ("Content-Type"@, "application/bincode"@);
            assert(h[i].0 == "Authorization"@);
            assert(h[i].0[0] == 'A');
        }
    }
}

/// What a response's status leads to: a `401` is renewed except on the
/// authentication endpoint, a `429` is handed back with the
/// too-many-requests alert, and every other status is handed back as it is,
/// without alert.
pub proof fn law_statuses(endpoint: Seq<char>, status: u16)
    ensures
        status == UNAUTHORIZED && endpoint != "/api/authenticate"@ ==> spec_response_step(endpoint, status)
            is Reauthenticate,
        status == UNAUTHORIZED && endpoint == "/api/authenticate"@ ==> spec_response_step(endpoint, status)
            == ResponseStepView::Done(None),
        status == 429 ==> spec_response_step(endpoint, status) == ResponseStepView::Done(
            Some(crate::bus::AlertView {
                is_success: true,
                label: "max_conns_reached"@,
                default: "The number of maxium simulatenous connections has been reached"@,
            }),
        ),
        status != 401 && status != 429 ==> spec_response_step(endpoint, status) == ResponseStepView::Done(None),
{
}

} // verus!
