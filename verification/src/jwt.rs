//! The signed-in user as the page knows it before asking the server: the
//! `jwt` cookie, and the public part of the token it holds.

use vstd::prelude::*;
use crate::text::{push_char, utf8_str};

verus! {

/// The pieces of a text between the separators, as `str::split` yields
/// them: one more piece than there are separators.
pub open spec fn split_on(s: Seq<char>, sep: char) -> Seq<Seq<char>>
    decreases s.len(),
{
    if s.len() == 0 {
        seq![Seq::<char>::empty()]
    } else {
        let rest = split_on(s.drop_last(), sep);
        if s.last() == sep {
            rest.push(Seq::empty())
        } else {
            rest.update(rest.len() - 1, rest.last().push(s.last()))
        }
    }
}

proof fn lemma_split_nonempty(s: Seq<char>, sep: char)
    ensures
        split_on(s, sep).len() >= 1,
    decreases s.len(),
{
    if s.len() > 0 {
        lemma_split_nonempty(s.drop_last(), sep);
    }
}

/// Whether a cookie is the `jwt` cookie: its name, up to the first `=`, is
/// `jwt`.
pub open spec fn is_jwt_cookie(cookie: Seq<char>) -> bool {
    cookie.len() >= 4 && cookie.subrange(0, 4) == "jwt="@
}

/// The value of the last `jwt` cookie among the cookies, or the empty text
/// when there is none.
pub open spec fn last_jwt_value(cookies: Seq<Seq<char>>) -> Seq<char>
    decreases cookies.len(),
{
    if cookies.len() == 0 {
        Seq::empty()
    } else if is_jwt_cookie(cookies.last()) {
        cookies.last().subrange(4, cookies.last().len() as int)
    } else {
        last_jwt_value(cookies.drop_last())
    }
}

/// The token held by the `jwt` cookie of a `document.cookie` text (cookies
/// separated by `;`); empty when there is none.
pub open spec fn spec_jwt_cookie(cookie_text: Seq<char>) -> Seq<char> {
    last_jwt_value(split_on(cookie_text, ';'))
}

fn jwt_of_piece(piece: &String) -> (r: Option<String>)
    ensures
        is_jwt_cookie(piece@) ==> r is Some && r->0@ == piece@.subrange(4, piece@.len() as int),
        !is_jwt_cookie(piece@) ==> r is None,
{
    let n = piece.as_str().unicode_len();
    if n < 4 {
        return None;
    }
    let s = piece.as_str();
    let is_jwt = s.get_char(0) == 'j' && s.get_char(1) == 'w' && s.get_char(2) == 't' && s.get_char(3) == '=';
    proof {
        reveal_strlit("jwt=");
        if is_jwt {
            assert(piece@.subrange(0, 4) =~= "jwt="@);
        } else {
            if piece@.subrange(0, 4) == "jwt="@ {
                assert(piece@.subrange(0, 4)[0] == piece@[0]);
                assert(piece@.subrange(0, 4)[1] == piece@[1]);
                assert(piece@.subrange(0, 4)[2] == piece@[2]);
                assert(piece@.subrange(0, 4)[3] == piece@[3]);
            }
        }
    }
    if !is_jwt {
        return None;
    }
    let mut out = String::new();
    let mut i: usize = 4;
    while i < n
        invariant
            n == piece@.len(),
            s@ == piece@,
            4 <= i <= n,
            out@ == piece@.subrange(4, i as int),
        decreases n - i,
    {
        push_char(&mut out, s.get_char(i));
        assert(piece@.subrange(4, i + 1) =~= piece@.subrange(4, i as int).push(piece@[i as int]));
        i = i + 1;
    }
    Some(out)
}

/// The token held by the `jwt` cookie of a `document.cookie` text; empty
/// when there is none. When several cookies are named `jwt`, the last one
/// counts.
pub fn jwt_cookie(cookie_text: &str) -> (r: String)
    ensures
        r@ == spec_jwt_cookie(cookie_text@),
{
    let n = cookie_text.unicode_len();
    let ghost s = cookie_text@;
    let mut found = String::new();
    let mut cur = String::new();
    let ghost mut done: Seq<Seq<char>> = Seq::empty();
    let mut i: usize = 0;
    while i < n
        invariant
            n == s.len(),
            s == cookie_text@,
            i <= n,
            split_on(s.subrange(0, i as int), ';') == done.push(cur@),
            found@ == last_jwt_value(done),
        decreases n - i,
    {
        let c = cookie_text.get_char(i);
        proof {
            assert(s.subrange(0, i + 1).drop_last() =~= s.subrange(0, i as int));
        }
        if c == ';' {
            match jwt_of_piece(&cur) {
                Some(v) => {
                    found = v;
                },
                None => {},
            }
            proof {
                let d2 = done.push(cur@);
                assert(d2.drop_last() =~= done);
                done = d2;
            }
            cur = String::new();
        } else {
            push_char(&mut cur, c);
            proof {
                let prev = done.push(cur@.drop_last());
                assert(cur@.drop_last().push(c) =~= cur@);
                assert(prev.update(prev.len() - 1, prev.last().push(c)) =~= done.push(cur@));
            }
        }
        i = i + 1;
    }
    proof {
        assert(s.subrange(0, n as int) =~= s);
        let all = done.push(cur@);
        assert(all.drop_last() =~= done);
    }
    match jwt_of_piece(&cur) {
        Some(v) => v,
        None => found,
    }
}

/// The second `.`-separated part of a token (its public payload, in
/// base64), or `None` when the token has no `.`.
pub open spec fn spec_jwt_payload(token: Seq<char>) -> Option<Seq<char>> {
    let parts = split_on(token, '.');
    if parts.len() >= 2 {
        Some(parts[1])
    } else {
        None
    }
}

/// The public payload of a token: its second `.`-separated part.
pub fn jwt_payload(token: &str) -> (r: Option<String>)
    ensures
        r.deep_view() == spec_jwt_payload(token@),
{
    let n = token.unicode_len();
    let ghost s = token@;
    let mut dots: usize = 0;
    let mut second = String::new();
    let mut i: usize = 0;
    while i < n
        invariant
            n == s.len(),
            s == token@,
            i <= n,
            dots <= 2,
            dots < 2 ==> split_on(s.subrange(0, i as int), '.').len() == dots + 1,
            dots == 2 ==> split_on(s.subrange(0, i as int), '.').len() >= 3,
            dots == 0 ==> second@ == Seq::<char>::empty(),
            dots >= 1 ==> split_on(s.subrange(0, i as int), '.')[1] == second@,
        decreases n - i,
    {
        let c = token.get_char(i);
        proof {
            let t = s.subrange(0, i + 1);
            assert(t.drop_last() =~= s.subrange(0, i as int));
            lemma_split_nonempty(s.subrange(0, i as int), '.');
        }
        if dots < 2 {
            if c == '.' {
                dots = dots + 1;
            } else if dots == 1 {
                push_char(&mut second, c);
            }
        }
        i = i + 1;
    }
    assert(s.subrange(0, n as int) =~= s);
    if dots >= 1 {
        Some(second)
    } else {
        None
    }
}

/// What `base64::decode` (the standard alphabet, with padding) yields for
/// some bytes, or `None` where it refuses them.
pub uninterp spec fn base64_decoded(input: Seq<u8>) -> Option<Seq<u8>>;

/// The error that base64 decoding reports.
#[verifier::external_type_specification]
#[verifier::external_body]
pub struct ExDecodeError(base64::DecodeError);

/// `base64::decode`: the bytes that a base64 text (standard alphabet, with
/// padding) encodes. Its result depends on the input alone; it is named, not
/// described.
#[verifier::external_body]
#[allow(deprecated)]
fn base64_decode(input: &[u8]) -> (r: Result<Vec<u8>, base64::DecodeError>)
    ensures
        r is Ok <==> base64_decoded(input@) is Some,
        r matches Ok(v) ==> base64_decoded(input@) == Some(v@),
{
    base64::decode(input)
}

/// Why the user could not be read from the cookies.
#[derive(PartialEq, Eq, Structural, Clone, Copy, Debug)]
pub enum JwtError {
    /// "No JWT found": no `jwt` cookie, or an empty one.
    NoJwt,
    /// The token has no `.`, so no payload.
    NoPayload,
    /// The payload is not base64.
    NotBase64,
    /// The decoded payload is not UTF-8.
    NotUtf8,
    /// The claims are not JSON.
    NotJson,
}

/// The claims that the decoded payload of a token holds: its text when the
/// bytes are UTF-8; `NotBase64` when the payload did not decode (`None`),
/// `NotUtf8` when the bytes are not UTF-8.
pub open spec fn spec_claims_of_decoded(decoded: Option<Seq<u8>>) -> Result<Seq<char>, JwtError> {
    match decoded {
        None => Err(JwtError::NotBase64),
        Some(bytes) => if vstd::utf8::valid_utf8(bytes) {
            Ok(vstd::utf8::decode_utf8(bytes))
        } else {
            Err(JwtError::NotUtf8)
        },
    }
}

/// The claims that the decoded payload of a token holds, from the bytes
/// that base64 decoding gave (`None` when it refused the payload).
pub fn claims_of_decoded(decoded: Option<Vec<u8>>) -> (r: Result<String, JwtError>)
    ensures
        match r {
            Ok(s) => spec_claims_of_decoded(decoded.deep_view()) == Ok::<Seq<char>, JwtError>(s@),
            Err(e) => spec_claims_of_decoded(decoded.deep_view()) == Err::<Seq<char>, JwtError>(e),
        },
{
    match decoded {
        None => Err(JwtError::NotBase64),
        Some(bytes) => {
            assert(bytes.deep_view() =~= bytes@);
            match utf8_str(bytes.as_slice()) {
                Some(text) => Ok(text.to_owned()),
                None => Err(JwtError::NotUtf8),
            }
        },
    }
}

/// The JSON text of the payload of the token that the `jwt` cookie holds,
/// or why there is none.
pub open spec fn spec_user_claims(cookie_text: Seq<char>) -> Result<Seq<char>, JwtError> {
    let token = spec_jwt_cookie(cookie_text);
    if token.len() == 0 {
        Err(JwtError::NoJwt)
    } else {
        match spec_jwt_payload(token) {
            None => Err(JwtError::NoPayload),
            Some(p) => spec_claims_of_decoded(base64_decoded(vstd::utf8::encode_utf8(p))),
        }
    }
}

/// The JSON text of the public payload of the signed-in user's token, read
/// from the page's cookies (whose `user` field describes the user), or why
/// there is none.
pub fn get_user(cookie_text: &str) -> (r: Result<String, JwtError>)
    ensures
        match r {
            Ok(s) => spec_user_claims(cookie_text@) == Ok::<Seq<char>, JwtError>(s@),
            Err(e) => spec_user_claims(cookie_text@) == Err::<Seq<char>, JwtError>(e),
        },
{
    let token = jwt_cookie(cookie_text);
    if token.as_str().unicode_len() == 0 {
        return Err(JwtError::NoJwt);
    }
    let payload = match jwt_payload(token.as_str()) {
        Some(p) => p,
        None => {
            return Err(JwtError::NoPayload);
        },
    };
    let decoded = match base64_decode(payload.as_str().as_bytes()) {
        Ok(b) => {
            assert(b.deep_view() =~= b@);
            Some(b)
        },
        Err(_) => None,
    };
    claims_of_decoded(decoded)
}

/// What `serde_json` reads as the `user` field of a JSON text, written back
/// as JSON (`null` when the field is absent); `None` when the text is not
/// JSON.
pub uninterp spec fn json_user_field(text: Seq<char>) -> Option<Seq<char>>;

/// `serde_json::from_str::<serde_json::Value>` on the claims, then the
/// `user` field of the value written back as JSON (`Value` indexing, then
/// `to_string`). The result depends on the text alone; it is named, not
/// described.
#[verifier::external_body]
fn user_field_of(claims: &str) -> (r: Option<String>)
    ensures
        r.deep_view() == json_user_field(claims@),
{
    serde_json::from_str::<serde_json::Value>(claims).ok().map(|v| v["user"].to_string())
}

/// The signed-in user, as the JSON text of the `user` field of the claims
/// that the `jwt` cookie holds; the errors are those of the claims, and
/// `NotJson` when the claims are not JSON.
pub open spec fn spec_user_json(cookie_text: Seq<char>) -> Result<Seq<char>, JwtError> {
    match spec_user_claims(cookie_text) {
        Ok(c) => match json_user_field(c) {
            Some(u) => Ok(u),
            None => Err(JwtError::NotJson),
        },
        Err(e) => Err(e),
    }
}

/// The signed-in user from the `user` field that the claims' JSON gave
/// (`None` when the claims were not JSON).
pub fn user_json_of(field: Option<String>) -> (r: Result<String, JwtError>)
    ensures
        match field {
            Some(u) => r matches Ok(x) && x@ == u@,
            None => r == Err::<String, JwtError>(JwtError::NotJson),
        },
{
    match field {
        Some(u) => Ok(u),
        None => Err(JwtError::NotJson),
    }
}

/// The signed-in user, as the JSON text of the `user` field of the claims
/// that the page's cookies hold, or why there is none.
pub fn get_user_json(cookie_text: &str) -> (r: Result<String, JwtError>)
    ensures
        match r {
            Ok(u) => spec_user_claims(cookie_text@) matches Ok(c) && json_user_field(c) == Some(u@),
            Err(e) => spec_user_json(cookie_text@) == Err::<Seq<char>, JwtError>(e),
        },
{
    match get_user(cookie_text) {
        Ok(claims) => user_json_of(user_field_of(claims.as_str())),
        Err(e) => Err(e),
    }
}

} // verus!
