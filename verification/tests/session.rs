use tchatchers_front::bus::Alert;
use tchatchers_front::i18n::{chosen_translation, i18n, locale_query, KeyedList, LocaleQuery, TranslationMap};
use tchatchers_front::jwt::{claims_of_decoded, get_user, get_user_json, jwt_cookie, jwt_payload, user_json_of, JwtError};
use tchatchers_front::requester::{Method, Requester, ResponseStep};

const PAYLOAD: &str = "eyJ1c2VyIjp7ImlkIjoxLCJuYW1lIjoiQW5hIn19";

#[test]
fn jwt_cookie_is_found_among_others() {
    let cookies = format!("theme=dark;jwt=head.{PAYLOAD}.sig;lang=fr");
    assert_eq!(jwt_cookie(&cookies), format!("head.{PAYLOAD}.sig"));
    assert_eq!(jwt_cookie("theme=dark"), "");
    assert_eq!(jwt_cookie(""), "");
    assert_eq!(jwt_cookie("jwt=a;jwt=b"), "b");
    // a cookie named ` jwt` (with the space that browsers put after `;`) is another cookie
    assert_eq!(jwt_cookie("x=1; jwt=a"), "");
    assert_eq!(jwt_cookie("jwtx=a"), "");
}

#[test]
fn payload_is_the_second_part() {
    assert_eq!(jwt_payload("a.b.c"), Some("b".to_string()));
    assert_eq!(jwt_payload("a.b"), Some("b".to_string()));
    assert_eq!(jwt_payload("a..c"), Some(String::new()));
    assert_eq!(jwt_payload("abc"), None);
}

#[test]
fn user_claims_of_the_cookie() {
    let cookies = format!("jwt=head.{PAYLOAD}.sig");
    assert_eq!(get_user(&cookies), Ok("{\"user\":{\"id\":1,\"name\":\"Ana\"}}".to_string()));
}

#[test]
fn user_claims_errors() {
    assert_eq!(get_user("theme=dark"), Err(JwtError::NoJwt));
    assert_eq!(get_user("jwt="), Err(JwtError::NoJwt));
    assert_eq!(get_user("jwt=nodots"), Err(JwtError::NoPayload));
    assert_eq!(get_user("jwt=a.%%%.c"), Err(JwtError::NotBase64));
    assert_eq!(get_user("jwt=a.//79.c"), Err(JwtError::NotUtf8));
}

#[test]
fn translations_and_defaults() {
    let t = TranslationMap {
        entries: vec![
            ("hello".to_string(), "Bonjour".to_string()),
            ("hello".to_string(), "Salut".to_string()),
        ],
    };
    assert_eq!(t.get("hello"), Some("Bonjour".to_string()));
    assert_eq!(t.get("bye"), None);
    assert_eq!(t.get_or_default("bye", "Goodbye"), "Goodbye");
    assert_eq!(i18n(&t, "hello", "Hello"), "Bonjour");
    assert_eq!(i18n(&TranslationMap { entries: Vec::new() }, "hello", "Hello"), "Hello");
}

#[test]
fn keyed_lists_of_numbers() {
    let list = KeyedList::from(vec![(1, "English".to_string()), (-3, "Other".to_string()), (42, "French".to_string())]);
    let keys: Vec<&str> = list.0.iter().map(|(k, _)| k.as_str()).collect();
    assert_eq!(keys, vec!["1", "-3", "42"]);
    assert_eq!(list.0[2].1, "French");
    assert_eq!(list.selected(&Some("42".to_string())), vec![false, false, true]);
    assert_eq!(list.selected(&None), vec![false, false, false]);
}

#[test]
fn requester_builders() {
    let mut r: Requester<Vec<u8>, u8> = Requester::post("/api/user");
    r.bincode_body(vec![1, 2]).bearer_value("tok".to_string());
    assert_eq!(r.endpoint.as_deref(), Some("/api/user"));
    assert_eq!(r.method, Some(Method::POST));
    assert!(r.is_bincode);
    assert!(!r.is_multipart);
    assert_eq!(r.payload, Some(vec![1, 2]));
    assert_eq!(
        r.headers(),
        vec![
            ("Authorization".to_string(), "Bearer tok".to_string()),
            ("Content-Type".to_string(), "application/bincode".to_string()),
        ]
    );
    let mut m: Requester<String, u8> = Requester::put("/api/pfp");
    m.multipart_body("form".to_string()).bearer(None, 7);
    assert!(m.is_multipart);
    assert_eq!(m.bearer_setter, Some(7));
    assert!(m.headers().is_empty());
    m.body(None);
    assert_eq!(m.payload, Some("form".to_string()));
    m.body(Some("other".to_string()));
    assert_eq!(m.payload, Some("other".to_string()));
}

#[test]
fn every_method_constructor() {
    let cases: Vec<(Requester<(), ()>, Method)> = vec![
        (Requester::get("/a"), Method::GET),
        (Requester::post("/a"), Method::POST),
        (Requester::put("/a"), Method::PUT),
        (Requester::delete("/a"), Method::DELETE),
        (Requester::patch("/a"), Method::PATCH),
    ];
    for (r, m) in cases {
        assert_eq!(r.method, Some(m));
        assert_eq!(r.endpoint.as_deref(), Some("/a"));
        assert!(r.bearer_value.is_none());
    }
    let d: Requester<(), ()> = Requester::default();
    assert!(d.method.is_none() && d.endpoint.is_none());
}

#[test]
fn statuses_of_responses() {
    let r: Requester<(), ()> = Requester::get("/api/room");
    assert!(matches!(r.on_status(401), ResponseStep::Reauthenticate));
    assert!(matches!(r.on_status(200), ResponseStep::Done(None)));
    match r.on_status(429) {
        ResponseStep::Done(Some(Alert { is_success, label, default })) => {
            assert!(is_success);
            assert_eq!(label, "max_conns_reached");
            assert_eq!(default, "The number of maxium simulatenous connections has been reached");
        }
        _ => panic!("too many requests raises an alert"),
    }
    let a: Requester<(), ()> = Requester::reauthentication();
    assert_eq!(a.endpoint.as_deref(), Some("/api/authenticate"));
    assert_eq!(a.method, Some(Method::PATCH));
    assert!(matches!(a.on_status(401), ResponseStep::Done(None)));
}

#[test]
fn renewed_token_is_used() {
    let mut r: Requester<(), u8> = Requester::get("/api/room");
    assert_eq!(r.after_renewal(Some("fresh".to_string())), Some("fresh".to_string()));
    assert_eq!(r.bearer_value.as_deref(), Some("fresh"));
    assert_eq!(r.headers(), vec![("Authorization".to_string(), "Bearer fresh".to_string())]);
    assert_eq!(r.after_renewal(None), None);
    assert_eq!(r.bearer_value.as_deref(), Some("fresh"));
}

#[test]
fn requests_with_a_bearer() {
    let w: Requester<(), u8> = Requester::whoami(Some("tok".to_string()), 1);
    assert_eq!(w.endpoint.as_deref(), Some("/api/whoami"));
    assert_eq!(w.method, Some(Method::GET));
    assert_eq!(w.bearer_value.as_deref(), Some("tok"));
    assert_eq!(w.bearer_setter, Some(1));
    let v: Requester<(), u8> = Requester::session_check(None, 2);
    assert_eq!(v.endpoint.as_deref(), Some("/api/validate"));
    assert_eq!(v.method, Some(Method::GET));
    assert!(v.bearer_value.is_none());
    let d: Requester<(), u8> = Requester::with_bearer(Method::DELETE, "/api/x", Some("t".to_string()), 3);
    assert_eq!(d.method, Some(Method::DELETE));
    assert_eq!(d.headers(), vec![("Authorization".to_string(), "Bearer t".to_string())]);
}

#[test]
fn locale_of_the_interface() {
    assert!(matches!(locale_query(Some(2), Some(vec!["fr".to_string()])), LocaleQuery::ById(2)));
    match locale_query(None, Some(vec!["fr-FR".to_string(), "en".to_string()])) {
        LocaleQuery::ByWebNames(l) => assert_eq!(l, vec!["fr-FR".to_string(), "en".to_string()]),
        _ => panic!("the browser's languages come next"),
    }
    assert!(matches!(locale_query(None, None), LocaleQuery::Default));
    let found = TranslationMap { entries: vec![("a".to_string(), "b".to_string())] };
    let default = TranslationMap { entries: Vec::new() };
    assert_eq!(chosen_translation(Some(found), TranslationMap { entries: Vec::new() }).entries.len(), 1);
    assert!(chosen_translation(None, default).entries.is_empty());
}

#[test]
fn claims_of_decoded_bytes() {
    assert_eq!(claims_of_decoded(Some(b"{\"user\":1}".to_vec())), Ok("{\"user\":1}".to_string()));
    assert_eq!(claims_of_decoded(Some("é".as_bytes().to_vec())), Ok("é".to_string()));
    assert_eq!(claims_of_decoded(Some(vec![0xc3])), Err(JwtError::NotUtf8));
    assert_eq!(claims_of_decoded(None), Err(JwtError::NotBase64));
}

#[test]
fn user_field_of_the_cookie() {
    let cookies = format!("theme=dark;jwt=head.{PAYLOAD}.sig");
    assert_eq!(get_user_json(&cookies), Ok("{\"id\":1,\"name\":\"Ana\"}".to_string()));
    assert_eq!(get_user_json("jwt=a.eyJleHAiOjF9.c"), Ok("null".to_string()));
    assert_eq!(get_user_json("jwt=a.bm90IGpzb24=.c"), Err(JwtError::NotJson));
    assert_eq!(get_user_json("theme=dark"), Err(JwtError::NoJwt));
    assert_eq!(get_user_json("jwt=a.//79.c"), Err(JwtError::NotUtf8));
    assert_eq!(user_json_of(Some("{}".to_string())), Ok("{}".to_string()));
    assert_eq!(user_json_of(None), Err(JwtError::NotJson));
}
