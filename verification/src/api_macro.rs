//! The logic of the two derive macros of the API crate, `IntoApiResponse` and
//! `ErrorWrapper`.
//!
//! A derive input is read into plain values (the enum's variants, their
//! attributes and the tokens of each attribute list); the functions here
//! decide what code the derive emits, as a plan that a token printer turns
//! into Rust, or which of the macro's errors it raises.

use vstd::prelude::*;
use crate::text::{push_char, str_eq};

verus! {

/// What a token group (a bracketed list) starts with, which is all that the
/// macros read of it.
pub enum GroupHead {
    /// The group holds no token.
    Empty,
    /// The group's first token is a literal, written as in the source.
    Literal(String),
    /// The group's first token is anything else.
    Other,
}

/// One token of an attribute list.
pub enum AttrToken {
    Ident(String),
    Punct(char),
    Literal(String),
    Group(GroupHead),
}

/// One attribute of a variant: the single identifier of its path, if its
/// path is one identifier, and its tokens, if it is a list (`#[name(..)]`).
pub struct AttrInput {
    pub path_ident: Option<String>,
    pub list: Option<Vec<AttrToken>>,
}

/// One variant of the derived enum.
pub struct VariantInput {
    pub name: String,
    pub attrs: Vec<AttrInput>,
}

/// The three response shapes of `IntoApiResponse`.
#[derive(PartialEq, Eq, Structural, Clone, Copy, Debug)]
pub enum ArmKind {
    /// `error`: a response that carries one error.
    Error,
    /// `errors`: a response that carries a list of errors.
    Errors,
    /// `simple`: a response without errors.
    Simple,
}

/// One piece of generated code for a variant.
pub enum ResponseArm {
    /// `ApiResponseKind::<variant> => StatusCode::<ident>`.
    Status(String),
    /// A conversion arm whose label is the literal given in the attribute.
    Labelled(ArmKind, String),
    /// A conversion arm whose label is the snake case of the keyword, which
    /// is the keyword itself (`error`, `errors` or `simple`).
    Defaulted(ArmKind, String),
}

/// The code that `IntoApiResponse` generates for one variant.
pub struct VariantPlan {
    pub name: String,
    pub arms: Vec<ResponseArm>,
}

/// One `From` impl that `ErrorWrapper` generates: the index of the variant
/// it wraps into, the index of the `from_err` attribute among the variant's
/// attributes, and the tokens `[start, end)` of that attribute's list that
/// spell the path of the wrapped error type.
pub struct FromImpl {
    pub variant: usize,
    pub attr_index: usize,
    pub start: usize,
    pub end: usize,
}

impl View for FromImpl {
    type V = (int, int, int, int);

    open spec fn view(&self) -> (int, int, int, int) {
        (self.variant as int, self.attr_index as int, self.start as int, self.end as int)
    }
}

/// The errors that the macros raise, each with the values its message names.
pub enum MacroError {
    /// "Macro can only be used on data enums"
    NotAnEnum,
    /// "Status need to be associated with a status code value"
    StatusWithoutValue,
    /// "Status has to be followed by a punctuation"
    StatusWithoutPunct,
    /// "No expression following equal operator."
    NoExpressionAfterEqual,
    /// "No identifer found following equal operator for {variant} status"
    NoIdentAfterEqual(String),
    /// "Equal operator is the only supported type (provided {punct} for {variant}"
    NotAnEqualSign(char, String),
    /// "Not supported"
    LabelNotLiteral,
    /// "{name} not supported"
    UnknownKey(String),
    /// "Token type not supported"
    UnsupportedToken,
    /// "The provided token type is not supported {token:?}", for the token
    /// at `index` of the list of attribute `attr_index` of variant `variant`.
    UnsupportedPathToken { variant: usize, attr_index: usize, index: usize },
}

// ---------------------------------------------------------------------------
// Views
// ---------------------------------------------------------------------------

pub enum GroupHeadView {
    Empty,
    Literal(Seq<char>),
    Other,
}

pub enum TokenView {
    Ident(Seq<char>),
    Punct(char),
    Literal(Seq<char>),
    Group(GroupHeadView),
}

pub struct AttrView {
    pub path_ident: Option<Seq<char>>,
    pub list: Option<Seq<TokenView>>,
}

pub struct VariantView {
    pub name: Seq<char>,
    pub attrs: Seq<AttrView>,
}

pub enum ArmView {
    Status(Seq<char>),
    Labelled(ArmKind, Seq<char>),
    Defaulted(ArmKind, Seq<char>),
}

pub struct PlanView {
    pub name: Seq<char>,
    pub arms: Seq<ArmView>,
}

pub enum MacroErrorView {
    NotAnEnum,
    StatusWithoutValue,
    StatusWithoutPunct,
    NoExpressionAfterEqual,
    NoIdentAfterEqual(Seq<char>),
    NotAnEqualSign(char, Seq<char>),
    LabelNotLiteral,
    UnknownKey(Seq<char>),
    UnsupportedToken,
    UnsupportedPathToken { variant: nat, attr_index: nat, index: nat },
}

impl DeepView for GroupHead {
    type V = GroupHeadView;

    open spec fn deep_view(&self) -> GroupHeadView {
        match self {
            GroupHead::Empty => GroupHeadView::Empty,
            GroupHead::Literal(s) => GroupHeadView::Literal(s@),
            GroupHead::Other => GroupHeadView::Other,
        }
    }
}

impl DeepView for AttrToken {
    type V = TokenView;

    open spec fn deep_view(&self) -> TokenView {
        match self {
            AttrToken::Ident(s) => TokenView::Ident(s@),
            AttrToken::Punct(c) => TokenView::Punct(*c),
            AttrToken::Literal(s) => TokenView::Literal(s@),
            AttrToken::Group(g) => TokenView::Group(g.deep_view()),
        }
    }
}

impl DeepView for AttrInput {
    type V = AttrView;

    open spec fn deep_view(&self) -> AttrView {
        AttrView { path_ident: self.path_ident.deep_view(), list: self.list.deep_view() }
    }
}

impl DeepView for VariantInput {
    type V = VariantView;

    open spec fn deep_view(&self) -> VariantView {
        VariantView { name: self.name@, attrs: self.attrs.deep_view() }
    }
}

impl DeepView for ResponseArm {
    type V = ArmView;

    open spec fn deep_view(&self) -> ArmView {
        match self {
            ResponseArm::Status(s) => ArmView::Status(s@),
            ResponseArm::Labelled(k, s) => ArmView::Labelled(*k, s@),
            ResponseArm::Defaulted(k, s) => ArmView::Defaulted(*k, s@),
        }
    }
}

impl DeepView for VariantPlan {
    type V = PlanView;

    open spec fn deep_view(&self) -> PlanView {
        PlanView { name: self.name@, arms: self.arms.deep_view() }
    }
}

impl DeepView for MacroError {
    type V = MacroErrorView;

    open spec fn deep_view(&self) -> MacroErrorView {
        match self {
            MacroError::NotAnEnum => MacroErrorView::NotAnEnum,
            MacroError::StatusWithoutValue => MacroErrorView::StatusWithoutValue,
            MacroError::StatusWithoutPunct => MacroErrorView::StatusWithoutPunct,
            MacroError::NoExpressionAfterEqual => MacroErrorView::NoExpressionAfterEqual,
            MacroError::NoIdentAfterEqual(v) => MacroErrorView::NoIdentAfterEqual(v@),
            MacroError::NotAnEqualSign(c, v) => MacroErrorView::NotAnEqualSign(*c, v@),
            MacroError::LabelNotLiteral => MacroErrorView::LabelNotLiteral,
            MacroError::UnknownKey(k) => MacroErrorView::UnknownKey(k@),
            MacroError::UnsupportedToken => MacroErrorView::UnsupportedToken,
            MacroError::UnsupportedPathToken { variant, attr_index, index } =>
                MacroErrorView::UnsupportedPathToken {
                    variant: *variant as nat,
                    attr_index: *attr_index as nat,
                    index: *index as nat,
                },
        }
    }
}

// ---------------------------------------------------------------------------
// Snake case
// ---------------------------------------------------------------------------

/// What `char::is_uppercase` returns for a character.
pub uninterp spec fn is_uppercase_char(c: char) -> bool;

/// The first character of what `char::to_lowercase` yields for a character.
pub uninterp spec fn lowercase_first(c: char) -> char;

/// `char::is_uppercase`: whether the character has the Unicode `Uppercase`
/// property. Of ASCII characters, exactly `A` to `Z` have it.
#[verifier::external_body]
fn char_is_uppercase(c: char) -> (r: bool)
    ensures
        r == is_uppercase_char(c),
        'A' <= c <= 'Z' ==> r,
        (c as u32) < 128 && !('A' <= c <= 'Z') ==> !r,
{
    c.is_uppercase()
}

/// The first character of `char::to_lowercase` (which always yields at
/// least one). ASCII letters `A` to `Z` map to `a` to `z`; other ASCII
/// characters map to themselves.
#[verifier::external_body]
fn char_lowercase_first(c: char) -> (r: char)
    ensures
        r == lowercase_first(c),
        'A' <= c <= 'Z' ==> r as u32 == c as u32 + 32,
        (c as u32) < 128 && !('A' <= c <= 'Z') ==> r == c,
{
    c.to_lowercase().next().unwrap()
}

/// What the character at `i` contributes to the snake case of `s`: an
/// underscore before an uppercase character that follows a non-uppercase
/// one, then the character's lowercase form.
pub open spec fn snake_piece(s: Seq<char>, i: int) -> Seq<char> {
    let sep = is_uppercase_char(s[i]) && i > 0 && !is_uppercase_char(s[i - 1]);
    if sep {
        seq!['_', lowercase_first(s[i])]
    } else {
        seq![lowercase_first(s[i])]
    }
}

/// The snake case of an identifier: the pieces of its characters, in order.
pub open spec fn snake_case(s: Seq<char>) -> Seq<char>
    decreases s.len(),
{
    if s.len() == 0 {
        Seq::empty()
    } else {
        snake_case(s.drop_last()) + snake_piece(s, s.len() - 1)
    }
}

/// Whether a character is an ASCII uppercase letter.
pub open spec fn ascii_upper(c: char) -> bool {
    'A' <= c <= 'Z'
}

/// The lowercase form of an ASCII character.
pub open spec fn ascii_lower(c: char) -> char {
    if ascii_upper(c) {
        ((c as int) + 32) as char
    } else {
        c
    }
}

/// Whether every character of a text is ASCII.
pub open spec fn all_ascii(s: Seq<char>) -> bool {
    forall|i: int| 0 <= i < s.len() ==> (#[trigger] s[i] as u32) < 128
}

/// The snake case of an ASCII identifier: an underscore before each
/// uppercase letter that follows a character that is not one, and every
/// letter in lowercase.
pub open spec fn ascii_snake_case(s: Seq<char>) -> Seq<char>
    decreases s.len(),
{
    if s.len() == 0 {
        Seq::empty()
    } else {
        let i = s.len() - 1;
        ascii_snake_case(s.drop_last()) + if ascii_upper(s[i]) && i > 0 && !ascii_upper(s[i - 1]) {
            seq!['_', ascii_lower(s[i])]
        } else {
            seq![ascii_lower(s[i])]
        }
    }
}

/// An identifier without uppercase letters is its own snake case.
pub proof fn law_snake_case_keeps_lowercase(s: Seq<char>)
    requires
        forall|i: int| 0 <= i < s.len() ==> !ascii_upper(#[trigger] s[i]),
    ensures
        ascii_snake_case(s) == s,
    decreases s.len(),
{
    if s.len() > 0 {
        law_snake_case_keeps_lowercase(s.drop_last());
        assert(!ascii_upper(s[s.len() - 1]));
        assert(s.drop_last().push(s.last()) =~= s);
    }
}

/// The snake case of an identifier has no uppercase letter.
pub proof fn law_snake_case_is_lowercase(s: Seq<char>)
    ensures
        forall|i: int| 0 <= i < ascii_snake_case(s).len() ==> !ascii_upper(#[trigger] ascii_snake_case(s)[i]),
    decreases s.len(),
{
    if s.len() > 0 {
        law_snake_case_is_lowercase(s.drop_last());
        let p = ascii_snake_case(s.drop_last());
        let r = ascii_snake_case(s);
        assert forall|i: int| 0 <= i < r.len() implies !ascii_upper(#[trigger] r[i]) by {
            if i < p.len() {
                assert(r[i] == p[i]);
            }
        }
    }
}

proof fn lemma_snake_prefix(s: Seq<char>, i: int)
    requires
        0 <= i < s.len(),
    ensures
        snake_case(s.subrange(0, i + 1)) == snake_case(s.subrange(0, i)) + snake_piece(s, i),
{
    let t = s.subrange(0, i + 1);
    assert(t.drop_last() =~= s.subrange(0, i));
    assert(snake_piece(t, i) == snake_piece(s, i));
}

/// Converts an identifier to snake case.
pub fn to_snake_case(ident: &str) -> (r: String)
    ensures
        r@ == snake_case(ident@),
        all_ascii(ident@) ==> r@ == ascii_snake_case(ident@),
{
    let n = ident.unicode_len();
    let mut out = String::new();
    let mut prev_was_upper = false;
    let mut i: usize = 0;
    assert(ident@.subrange(0, 0) =~= Seq::<char>::empty());
    while i < n
        invariant
            n == ident@.len(),
            i <= n,
            out@ == snake_case(ident@.subrange(0, i as int)),
            i > 0 ==> prev_was_upper == is_uppercase_char(ident@[i - 1]),
            i > 0 && (ident@[i - 1] as u32) < 128 ==> prev_was_upper == ascii_upper(ident@[i - 1]),
            all_ascii(ident@.subrange(0, i as int)) ==> out@ == ascii_snake_case(ident@.subrange(0, i as int)),
        decreases n - i,
    {
        let c = ident.get_char(i);
        let up = char_is_uppercase(c);
        if up && i > 0 && !prev_was_upper {
            push_char(&mut out, '_');
        }
        prev_was_upper = up;
        let low = char_lowercase_first(c);
        push_char(&mut out, low);
        proof {
            lemma_snake_prefix(ident@, i as int);
            let p1 = ident@.subrange(0, i + 1);
            let p0 = ident@.subrange(0, i as int);
            assert(p1.drop_last() =~= p0);
            if all_ascii(p1) {
                assert(all_ascii(p0)) by {
                    assert forall|j: int| 0 <= j < p0.len() implies (#[trigger] p0[j] as u32) < 128 by {
                        assert(p0[j] == p1[j]);
                    }
                }
                assert(p1[i as int] == c);
                assert((c as u32) < 128);
                if i > 0 {
                    assert(p1[i - 1] == ident@[i - 1]);
                    assert((ident@[i - 1] as u32) < 128);
                }
                assert(low == ascii_lower(c));
                assert(out@ == ascii_snake_case(p1));
            }
        }
        i = i + 1;
    }
    assert(ident@.subrange(0, n as int) =~= ident@);
    out
}

// ---------------------------------------------------------------------------
// `IntoApiResponse`
// ---------------------------------------------------------------------------

pub open spec fn prepend<T, E>(acc: Seq<T>, r: Result<Seq<T>, E>) -> Result<Seq<T>, E> {
    match r {
        Ok(s) => Ok(acc + s),
        Err(e) => Err(e),
    }
}

pub open spec fn kind_of_key(k: Seq<char>) -> Option<ArmKind> {
    if k == "error"@ {
        Some(ArmKind::Error)
    } else if k == "errors"@ {
        Some(ArmKind::Errors)
    } else if k == "simple"@ {
        Some(ArmKind::Simple)
    } else {
        None
    }
}

/// The arms that one `response(..)` list yields from its token `i` on, or
/// the error it raises; `variant` is the variant's name.
pub open spec fn response_arms_from(variant: Seq<char>, toks: Seq<TokenView>, i: int) -> Result<
    Seq<ArmView>,
    MacroErrorView,
>
    decreases toks.len() - i,
{
    if i < 0 || i >= toks.len() {
        Ok(Seq::empty())
    } else {
        match toks[i] {
            TokenView::Ident(key) => {
                if key == "status"@ {
                    if i + 1 >= toks.len() {
                        Err(MacroErrorView::StatusWithoutValue)
                    } else {
                        match toks[i + 1] {
                            TokenView::Punct(p) => {
                                if p == '=' {
                                    if i + 2 >= toks.len() {
                                        Err(MacroErrorView::NoExpressionAfterEqual)
                                    } else {
                                        match toks[i + 2] {
                                            TokenView::Ident(code) => prepend(
                                                seq![ArmView::Status(code)],
                                                response_arms_from(variant, toks, i + 3),
                                            ),
                                            _ => Err(MacroErrorView::NoIdentAfterEqual(variant)),
                                        }
                                    }
                                } else {
                                    Err(MacroErrorView::NotAnEqualSign(p, variant))
                                }
                            },
                            _ => Err(MacroErrorView::StatusWithoutPunct),
                        }
                    }
                } else {
                    match kind_of_key(key) {
                        Some(kind) => {
                            if i + 1 >= toks.len() {
                                Ok(seq![ArmView::Defaulted(kind, key)])
                            } else {
                                match toks[i + 1] {
                                    TokenView::Group(GroupHeadView::Literal(lit)) => prepend(
                                        seq![ArmView::Labelled(kind, lit)],
                                        response_arms_from(variant, toks, i + 2),
                                    ),
                                    TokenView::Group(GroupHeadView::Other) => Err(
                                        MacroErrorView::LabelNotLiteral,
                                    ),
                                    _ => response_arms_from(variant, toks, i + 2),
                                }
                            }
                        },
                        None => Err(MacroErrorView::UnknownKey(key)),
                    }
                }
            },
            TokenView::Punct(_) => response_arms_from(variant, toks, i + 1),
            _ => Err(MacroErrorView::UnsupportedToken),
        }
    }
}

/// Whether an attribute is a `name(..)` list.
pub open spec fn is_list_named(a: AttrView, name: Seq<char>) -> bool {
    a.path_ident == Some(name) && a.list is Some
}

/// The arms of a variant from its attribute `k` on.
pub open spec fn variant_arms_from(v: VariantView, k: int) -> Result<Seq<ArmView>, MacroErrorView>
    decreases v.attrs.len() - k,
{
    if k < 0 || k >= v.attrs.len() {
        Ok(Seq::empty())
    } else if is_list_named(v.attrs[k], "response"@) {
        match response_arms_from(v.name, v.attrs[k].list->0, 0) {
            Ok(a) => prepend(a, variant_arms_from(v, k + 1)),
            Err(e) => Err(e),
        }
    } else {
        variant_arms_from(v, k + 1)
    }
}

/// The plans of the variants from variant `j` on.
pub open spec fn plans_from(vs: Seq<VariantView>, j: int) -> Result<Seq<PlanView>, MacroErrorView>
    decreases vs.len() - j,
{
    if j < 0 || j >= vs.len() {
        Ok(Seq::empty())
    } else {
        match variant_arms_from(vs[j], 0) {
            Ok(a) => prepend(seq![PlanView { name: vs[j].name, arms: a }], plans_from(vs, j + 1)),
            Err(e) => Err(e),
        }
    }
}

/// What `IntoApiResponse` generates for a derive input: `None` stands for
/// an input that is not an enum.
pub open spec fn api_response_plan(input: Option<Seq<VariantView>>) -> Result<
    Seq<PlanView>,
    MacroErrorView,
> {
    match input {
        None => Err(MacroErrorView::NotAnEnum),
        Some(vs) => plans_from(vs, 0),
    }
}

fn clone_string(s: &String) -> (r: String)
    ensures
        r@ == s@,
{
    s.clone()
}

fn key_kind(key: &String) -> (r: Option<ArmKind>)
    ensures
        r == kind_of_key(key@),
{
    if str_eq(key.as_str(), "error") {
        Some(ArmKind::Error)
    } else if str_eq(key.as_str(), "errors") {
        Some(ArmKind::Errors)
    } else if str_eq(key.as_str(), "simple") {
        Some(ArmKind::Simple)
    } else {
        None
    }
}

proof fn lemma_prepend_assoc<T, E>(a: Seq<T>, b: Seq<T>, r: Result<Seq<T>, E>)
    ensures
        prepend(a, prepend(b, r)) == prepend(a + b, r),
{
    match r {
        Ok(s) => {
            assert(a + (b + s) =~= (a + b) + s);
        },
        Err(_) => {},
    }
}

/// The keywords of a `response(..)` list are lowercase ASCII, so each is
/// its own snake case.
proof fn lemma_keyword_is_its_snake_case(k: Seq<char>)
    requires
        kind_of_key(k) is Some,
    ensures
        all_ascii(k),
        ascii_snake_case(k) == k,
{
    reveal_strlit("error");
    reveal_strlit("errors");
    reveal_strlit("simple");
    if k == "error"@ {
        assert(k[0] == 'e' && k[1] == 'r' && k[2] == 'r' && k[3] == 'o' && k[4] == 'r');
    } else if k == "errors"@ {
        assert(k[0] == 'e' && k[1] == 'r' && k[2] == 'r' && k[3] == 'o' && k[4] == 'r' && k[5] == 's');
    } else {
        assert(k[0] == 's' && k[1] == 'i' && k[2] == 'm' && k[3] == 'p' && k[4] == 'l' && k[5] == 'e');
    }
    assert(forall|i: int| 0 <= i < k.len() ==> !ascii_upper(#[trigger] k[i]) && (k[i] as u32) < 128);
    law_snake_case_keeps_lowercase(k);
}

/// The arms of one `response(..)` list of variant `variant`.
pub fn response_arms(variant: &String, toks: &Vec<AttrToken>) -> (r: Result<Vec<ResponseArm>, MacroError>)
    ensures
        match r {
            Ok(a) => response_arms_from(variant@, toks.deep_view(), 0) == Ok::<Seq<ArmView>, MacroErrorView>(a.deep_view()),
            Err(e) => response_arms_from(variant@, toks.deep_view(), 0) == Err::<Seq<ArmView>, MacroErrorView>(e.deep_view()),
        },
{
    let ghost tv = toks.deep_view();
    let n = toks.len();
    let mut arms: Vec<ResponseArm> = Vec::new();
    let mut i: usize = 0;
    while i < n
        invariant
            n == toks.len(),
            tv == toks.deep_view(),
            i <= n,
            response_arms_from(variant@, tv, 0) == prepend(arms.deep_view(), response_arms_from(variant@, tv, i as int)),
        decreases n - i,
    {
        let ghost before = arms.deep_view();
        assert(tv[i as int] == toks[i as int].deep_view());
        match &toks[i] {
            AttrToken::Ident(key) => {
                if str_eq(key.as_str(), "status") {
                    if i + 1 >= n {
                        return Err(MacroError::StatusWithoutValue);
                    }
                    assert(tv[i + 1] == toks[i + 1].deep_view());
                    match &toks[i + 1] {
                        AttrToken::Punct(p) => {
                            if *p == '=' {
                                if i + 2 >= n {
                                    return Err(MacroError::NoExpressionAfterEqual);
                                }
                                assert(tv[i + 2] == toks[i + 2].deep_view());
                                match &toks[i + 2] {
                                    AttrToken::Ident(code) => {
                                        arms.push(ResponseArm::Status(clone_string(code)));
                                        proof {
                                            assert(arms.deep_view() =~= before + seq![ArmView::Status(code@)]);
                                            lemma_prepend_assoc(before, seq![ArmView::Status(code@)], response_arms_from(variant@, tv, i + 3));
                                        }
                                        i = i + 3;
                                    },
                                    _ => {
                                        return Err(MacroError::NoIdentAfterEqual(clone_string(variant)));
                                    },
                                }
                            } else {
                                return Err(MacroError::NotAnEqualSign(*p, clone_string(variant)));
                            }
                        },
                        _ => {
                            return Err(MacroError::StatusWithoutPunct);
                        },
                    }
                } else {
                    match key_kind(key) {
                        Some(kind) => {
                            if i + 1 >= n {
                                let snake = to_snake_case(key.as_str());
                                proof {
                                    lemma_keyword_is_its_snake_case(key@);
                                }
                                arms.push(ResponseArm::Defaulted(kind, snake));
                                proof {
                                    assert(arms.deep_view() =~= before + seq![ArmView::Defaulted(kind, key@)]);
                                    assert(response_arms_from(variant@, tv, (i + 1) as int) == Ok::<Seq<ArmView>, MacroErrorView>(Seq::empty()));
                                    assert(arms.deep_view() + Seq::<ArmView>::empty() =~= arms.deep_view());
                                }
                                i = i + 1;
                            } else {
                                assert(tv[i + 1] == toks[i + 1].deep_view());
                                match &toks[i + 1] {
                                    AttrToken::Group(GroupHead::Literal(lit)) => {
                                        arms.push(ResponseArm::Labelled(kind, clone_string(lit)));
                                        proof {
                                            assert(arms.deep_view() =~= before + seq![ArmView::Labelled(kind, lit@)]);
                                            lemma_prepend_assoc(before, seq![ArmView::Labelled(kind, lit@)], response_arms_from(variant@, tv, i + 2));
                                        }
                                    },
                                    AttrToken::Group(GroupHead::Other) => {
                                        return Err(MacroError::LabelNotLiteral);
                                    },
                                    _ => {},
                                }
                                i = i + 2;
                            }
                        },
                        None => {
                            return Err(MacroError::UnknownKey(clone_string(key)));
                        },
                    }
                }
            },
            AttrToken::Punct(_) => {
                i = i + 1;
            },
            _ => {
                return Err(MacroError::UnsupportedToken);
            },
        }
    }
    proof {
        assert(response_arms_from(variant@, tv, i as int) == Ok::<Seq<ArmView>, MacroErrorView>(Seq::empty()));
        assert(arms.deep_view() + Seq::<ArmView>::empty() =~= arms.deep_view());
    }
    Ok(arms)
}

fn ident_is(path_ident: &Option<String>, name: &str) -> (r: bool)
    ensures
        r == (path_ident.deep_view() == Some(name@)),
{
    match path_ident {
        Some(p) => str_eq(p.as_str(), name),
        None => false,
    }
}

/// The arms that the `response(..)` attributes of a variant yield, in order.
pub fn variant_arms(v: &VariantInput) -> (r: Result<Vec<ResponseArm>, MacroError>)
    ensures
        match r {
            Ok(a) => variant_arms_from(v.deep_view(), 0) == Ok::<Seq<ArmView>, MacroErrorView>(a.deep_view()),
            Err(e) => variant_arms_from(v.deep_view(), 0) == Err::<Seq<ArmView>, MacroErrorView>(e.deep_view()),
        },
{
    let ghost vv = v.deep_view();
    let n = v.attrs.len();
    let mut arms: Vec<ResponseArm> = Vec::new();
    let mut k: usize = 0;
    while k < n
        invariant
            n == v.attrs.len(),
            vv == v.deep_view(),
            k <= n,
            variant_arms_from(vv, 0) == prepend(arms.deep_view(), variant_arms_from(vv, k as int)),
        decreases n - k,
    {
        let attr = &v.attrs[k];
        assert(vv.attrs[k as int] == attr.deep_view());
        if ident_is(&attr.path_ident, "response") {
            match &attr.list {
                Some(toks) => {
                    let got = response_arms(&v.name, toks);
                    match got {
                        Ok(mut more) => {
                            let ghost before = arms.deep_view();
                            let ghost added = more.deep_view();
                            arms.append(&mut more);
                            proof {
                                assert(arms.deep_view() =~= before + added);
                                lemma_prepend_assoc(before, added, variant_arms_from(vv, k + 1));
                            }
                        },
                        Err(e) => {
                            return Err(e);
                        },
                    }
                },
                None => {},
            }
        }
        k = k + 1;
    }
    proof {
        assert(arms.deep_view() + Seq::<ArmView>::empty() =~= arms.deep_view());
    }
    Ok(arms)
}

fn variant_plans(variants: &Vec<VariantInput>) -> (r: Result<Vec<VariantPlan>, MacroError>)
    ensures
        match r {
            Ok(p) => plans_from(variants.deep_view(), 0) == Ok::<Seq<PlanView>, MacroErrorView>(p.deep_view()),
            Err(e) => plans_from(variants.deep_view(), 0) == Err::<Seq<PlanView>, MacroErrorView>(e.deep_view()),
        },
{
    let ghost vv = variants.deep_view();
    let n = variants.len();
    let mut plans: Vec<VariantPlan> = Vec::new();
    let mut j: usize = 0;
    while j < n
        invariant
            n == variants.len(),
            vv == variants.deep_view(),
            j <= n,
            plans_from(vv, 0) == prepend(plans.deep_view(), plans_from(vv, j as int)),
        decreases n - j,
    {
        let v = &variants[j];
        assert(vv[j as int] == v.deep_view());
        match variant_arms(v) {
            Ok(arms) => {
                let ghost before = plans.deep_view();
                let plan = VariantPlan { name: clone_string(&v.name), arms };
                let ghost pv = plan.deep_view();
                plans.push(plan);
                proof {
                    assert(plans.deep_view() =~= before + seq![pv]);
                    lemma_prepend_assoc(before, seq![pv], plans_from(vv, j + 1));
                }
            },
            Err(e) => {
                assert(plans_from(vv, j as int) == Err::<Seq<PlanView>, MacroErrorView>(e.deep_view()));
                return Err(e);
            },
        }
        j = j + 1;
    }
    proof {
        assert(plans.deep_view() + Seq::<PlanView>::empty() =~= plans.deep_view());
    }
    Ok(plans)
}

/// `IntoApiResponse`: the code to generate for each variant of the input
/// enum (`None` for an input that is not an enum), or the error to raise.
pub fn into_api_response(input: &Option<Vec<VariantInput>>) -> (r: Result<Vec<VariantPlan>, MacroError>)
    ensures
        match r {
            Ok(p) => api_response_plan(input.deep_view()) == Ok::<Seq<PlanView>, MacroErrorView>(p.deep_view()),
            Err(e) => api_response_plan(input.deep_view()) == Err::<Seq<PlanView>, MacroErrorView>(e.deep_view()),
        },
{
    match input {
        None => Err(MacroError::NotAnEnum),
        Some(variants) => variant_plans(variants),
    }
}

// ---------------------------------------------------------------------------
// `ErrorWrapper`
// ---------------------------------------------------------------------------

/// The token ranges `(start, end)` of the error paths in one `from_err(..)`
/// list, scanning from token `i`; `cur` is the start of the path being read,
/// if any. A path is an identifier followed by any run of `:` and
/// identifiers; the token that ends a path is dropped. Between paths only
/// commas may stand: any other token is refused (its index is the error).
pub open spec fn from_err_paths(toks: Seq<TokenView>, i: int, cur: Option<int>) -> Result<
    Seq<(int, int)>,
    int,
>
    decreases toks.len() - i,
{
    if i < 0 || i >= toks.len() {
        match cur {
            Some(s) => Ok(seq![(s, toks.len() as int)]),
            None => Ok(Seq::empty()),
        }
    } else {
        match cur {
            Some(s) => match toks[i] {
                TokenView::Punct(':') => from_err_paths(toks, i + 1, Some(s)),
                TokenView::Ident(_) => from_err_paths(toks, i + 1, Some(s)),
                _ => prepend(seq![(s, i)], from_err_paths(toks, i + 1, None)),
            },
            None => match toks[i] {
                TokenView::Ident(_) => from_err_paths(toks, i + 1, Some(i)),
                TokenView::Punct(',') => from_err_paths(toks, i + 1, None),
                _ => Err(i),
            },
        }
    }
}

/// The paths of one `from_err(..)` list.
pub fn from_err_list(toks: &Vec<AttrToken>) -> (r: Result<Vec<(usize, usize)>, usize>)
    ensures
        match r {
            Ok(p) => from_err_paths(toks.deep_view(), 0, None) == Ok::<Seq<(int, int)>, int>(
                p@.map_values(|x: (usize, usize)| (x.0 as int, x.1 as int)),
            ),
            Err(i) => from_err_paths(toks.deep_view(), 0, None) == Err::<Seq<(int, int)>, int>(i as int),
        },
{
    let ghost tv = toks.deep_view();
    let n = toks.len();
    let mut out: Vec<(usize, usize)> = Vec::new();
    let mut cur: Option<usize> = None;
    let mut i: usize = 0;
    while i < n
        invariant
            n == toks.len(),
            tv == toks.deep_view(),
            i <= n,
            match cur {
                Some(s) => s < i,
                None => true,
            },
            from_err_paths(tv, 0, None) == prepend(
                out@.map_values(|x: (usize, usize)| (x.0 as int, x.1 as int)),
                from_err_paths(tv, i as int, match cur { Some(s) => Some(s as int), None => None }),
            ),
        decreases n - i,
    {
        assert(tv[i as int] == toks[i as int].deep_view());
        let ghost before = out@.map_values(|x: (usize, usize)| (x.0 as int, x.1 as int));
        match cur {
            Some(s) => {
                let continues = match &toks[i] {
                    AttrToken::Punct(p) => *p == ':',
                    AttrToken::Ident(_) => true,
                    _ => false,
                };
                if !continues {
                    out.push((s, i));
                    cur = None;
                    proof {
                        assert(out@.map_values(|x: (usize, usize)| (x.0 as int, x.1 as int)) =~= before + seq![(s as int, i as int)]);
                        lemma_prepend_assoc(before, seq![(s as int, i as int)], from_err_paths(tv, i + 1, None));
                    }
                }
            },
            None => {
                match &toks[i] {
                    AttrToken::Ident(_) => {
                        cur = Some(i);
                    },
                    AttrToken::Punct(p) => {
                        if *p != ',' {
                            return Err(i);
                        }
                    },
                    _ => {
                        return Err(i);
                    },
                }
            },
        }
        i = i + 1;
    }
    match cur {
        Some(s) => {
            let ghost before = out@.map_values(|x: (usize, usize)| (x.0 as int, x.1 as int));
            out.push((s, n));
            proof {
                assert(out@.map_values(|x: (usize, usize)| (x.0 as int, x.1 as int)) =~= before + seq![(s as int, n as int)]);
            }
        },
        None => {
            proof {
                assert(out@.map_values(|x: (usize, usize)| (x.0 as int, x.1 as int)) + Seq::<(int, int)>::empty() =~= out@.map_values(|x: (usize, usize)| (x.0 as int, x.1 as int)));
            }
        },
    }
    Ok(out)
}

/// A `from_err` list of a variant, in the order of the impls it yields.
pub open spec fn impls_of_attrs(v: VariantView, j: int, k: int) -> Result<Seq<(int, int, int)>, MacroErrorView>
    decreases v.attrs.len() - k,
{
    if k < 0 || k >= v.attrs.len() {
        Ok(Seq::empty())
    } else if is_list_named(v.attrs[k], "from_err"@) {
        match from_err_paths(v.attrs[k].list->0, 0, None) {
            Ok(ps) => prepend(
                ps.map_values(|p: (int, int)| (k, p.0, p.1)),
                impls_of_attrs(v, j, k + 1),
            ),
            Err(i) => Err(MacroErrorView::UnsupportedPathToken { variant: j as nat, attr_index: k as nat, index: i as nat }),
        }
    } else {
        impls_of_attrs(v, j, k + 1)
    }
}

/// The `From` impls that `ErrorWrapper` generates, from variant `j` on: the
/// variant's index, the attribute's index and the token range of the path.
pub open spec fn error_wrappers_from(vs: Seq<VariantView>, j: int) -> Result<Seq<(int, int, int, int)>, MacroErrorView>
    decreases vs.len() - j,
{
    if j < 0 || j >= vs.len() {
        Ok(Seq::empty())
    } else {
        match impls_of_attrs(vs[j], j, 0) {
            Ok(ps) => prepend(
                ps.map_values(|p: (int, int, int)| (j, p.0, p.1, p.2)),
                error_wrappers_from(vs, j + 1),
            ),
            Err(e) => Err(e),
        }
    }
}

/// What `ErrorWrapper` generates for a derive input.
pub open spec fn error_wrapper_plan(input: Option<Seq<VariantView>>) -> Result<Seq<(int, int, int, int)>, MacroErrorView> {
    match input {
        None => Err(MacroErrorView::NotAnEnum),
        Some(vs) => error_wrappers_from(vs, 0),
    }
}

fn variant_impls(v: &VariantInput, j: usize) -> (r: Result<Vec<FromImpl>, MacroError>)
    ensures
        match r {
            Ok(p) => impls_of_attrs(v.deep_view(), j as int, 0) == Ok::<Seq<(int, int, int)>, MacroErrorView>(
                p@.map_values(|x: FromImpl| (x@.1, x@.2, x@.3)),
            ) && forall|i: int| 0 <= i < p.len() ==> #[trigger] p@[i].variant == j,
            Err(e) => impls_of_attrs(v.deep_view(), j as int, 0) == Err::<Seq<(int, int, int)>, MacroErrorView>(e.deep_view()),
        },
{
    let ghost vv = v.deep_view();
    let n = v.attrs.len();
    let mut out: Vec<FromImpl> = Vec::new();
    let mut k: usize = 0;
    while k < n
        invariant
            n == v.attrs.len(),
            vv == v.deep_view(),
            k <= n,
            impls_of_attrs(vv, j as int, 0) == prepend(
                out@.map_values(|x: FromImpl| (x@.1, x@.2, x@.3)),
                impls_of_attrs(vv, j as int, k as int),
            ),
            forall|i: int| 0 <= i < out.len() ==> #[trigger] out@[i].variant == j,
        decreases n - k,
    {
        let attr = &v.attrs[k];
        assert(vv.attrs[k as int] == attr.deep_view());
        if ident_is(&attr.path_ident, "from_err") {
            match &attr.list {
                Some(toks) => {
                    match from_err_list(toks) {
                        Ok(paths) => {
                            let ghost before = out@.map_values(|x: FromImpl| (x@.1, x@.2, x@.3));
                            let ghost added = paths@.map_values(|x: (usize, usize)| (x.0 as int, x.1 as int)).map_values(
                                |p: (int, int)| (k as int, p.0, p.1),
                            );
                            let m = paths.len();
                            let mut t: usize = 0;
                            while t < m
                                invariant
                                    m == paths.len(),
                                    t <= m,
                                    out@.map_values(|x: FromImpl| (x@.1, x@.2, x@.3)) =~= before + added.subrange(0, t as int),
                                    added.len() == m,
                                    added == paths@.map_values(|x: (usize, usize)| (x.0 as int, x.1 as int)).map_values(
                                        |p: (int, int)| (k as int, p.0, p.1),
                                    ),
                                    forall|i: int| 0 <= i < out.len() ==> #[trigger] out@[i].variant == j,
                                decreases m - t,
                            {
                                let (a, b) = paths[t];
                                let ghost prev = out@;
                                out.push(FromImpl { variant: j, attr_index: k, start: a, end: b });
                                proof {
                                    assert(added[t as int] == (k as int, a as int, b as int));
                                    assert(out@ =~= prev.push(FromImpl { variant: j, attr_index: k, start: a, end: b }));
                                    assert(out@.map_values(|x: FromImpl| (x@.1, x@.2, x@.3)) =~= prev.map_values(
                                        |x: FromImpl| (x@.1, x@.2, x@.3),
                                    ).push((k as int, a as int, b as int)));
                                    assert(added.subrange(0, t + 1) =~= added.subrange(0, t as int).push(added[t as int]));
                                }
                                t = t + 1;
                            }
                            proof {
                                assert(added.subrange(0, m as int) =~= added);
                                lemma_prepend_assoc(before, added, impls_of_attrs(vv, j as int, k + 1));
                            }
                        },
                        Err(i) => {
                            return Err(MacroError::UnsupportedPathToken { variant: j, attr_index: k, index: i });
                        },
                    }
                },
                None => {},
            }
        }
        k = k + 1;
    }
    proof {
        assert(out@.map_values(|x: FromImpl| (x@.1, x@.2, x@.3)) + Seq::<(int, int, int)>::empty()
            =~= out@.map_values(|x: FromImpl| (x@.1, x@.2, x@.3)));
    }
    Ok(out)
}

fn wrappers_of(variants: &Vec<VariantInput>) -> (r: Result<Vec<FromImpl>, MacroError>)
    ensures
        match r {
            Ok(p) => error_wrappers_from(variants.deep_view(), 0) == Ok::<Seq<(int, int, int, int)>, MacroErrorView>(
                p@.map_values(|x: FromImpl| x@),
            ),
            Err(e) => error_wrappers_from(variants.deep_view(), 0) == Err::<Seq<(int, int, int, int)>, MacroErrorView>(
                e.deep_view(),
            ),
        },
{
    let ghost vv = variants.deep_view();
    let n = variants.len();
    let mut out: Vec<FromImpl> = Vec::new();
    let mut j: usize = 0;
    while j < n
        invariant
            n == variants.len(),
            vv == variants.deep_view(),
            j <= n,
            error_wrappers_from(vv, 0) == prepend(
                out@.map_values(|x: FromImpl| x@),
                error_wrappers_from(vv, j as int),
            ),
        decreases n - j,
    {
        let v = &variants[j];
        assert(vv[j as int] == v.deep_view());
        match variant_impls(v, j) {
            Ok(mut more) => {
                let ghost before = out@.map_values(|x: FromImpl| x@);
                let ghost added = more@.map_values(|x: FromImpl| x@);
                proof {
                    assert(added =~= more@.map_values(|x: FromImpl| (x@.1, x@.2, x@.3)).map_values(
                        |p: (int, int, int)| (j as int, p.0, p.1, p.2),
                    ));
                }
                out.append(&mut more);
                proof {
                    assert(out@.map_values(|x: FromImpl| x@) =~= before + added);
                    lemma_prepend_assoc(before, added, error_wrappers_from(vv, j + 1));
                }
            },
            Err(e) => {
                assert(error_wrappers_from(vv, j as int) == Err::<Seq<(int, int, int, int)>, MacroErrorView>(e.deep_view()));
                return Err(e);
            },
        }
        j = j + 1;
    }
    proof {
        assert(out@.map_values(|x: FromImpl| x@) + Seq::<(int, int, int, int)>::empty() =~= out@.map_values(|x: FromImpl| x@));
    }
    Ok(out)
}

/// What `ErrorWrapper` generates: `From` impls for the derived enum
/// (`target`), one per wrapped error path.
pub struct WrapperPlan {
    pub target: String,
    pub impls: Vec<FromImpl>,
}

/// `ErrorWrapper` on the enum named `name`: the `From` impls to generate for
/// that enum (`None` for an input that is not an enum), in order, or the
/// error to raise.
pub fn from_error(name: &str, input: &Option<Vec<VariantInput>>) -> (r: Result<WrapperPlan, MacroError>)
    ensures
        match r {
            Ok(p) => p.target@ == name@ && error_wrapper_plan(input.deep_view()) == Ok::<Seq<(int, int, int, int)>, MacroErrorView>(
                p.impls@.map_values(|x: FromImpl| x@),
            ),
            Err(e) => error_wrapper_plan(input.deep_view()) == Err::<Seq<(int, int, int, int)>, MacroErrorView>(
                e.deep_view(),
            ),
        },
{
    match input {
        None => Err(MacroError::NotAnEnum),
        Some(variants) => match wrappers_of(variants) {
            Ok(impls) => Ok(WrapperPlan { target: name.to_owned(), impls }),
            Err(e) => Err(e),
        },
    }
}

// ---------------------------------------------------------------------------
// Laws
// ---------------------------------------------------------------------------

proof fn lemma_plans_follow_variants(vs: Seq<VariantView>, j: int)
    requires
        0 <= j <= vs.len(),
    ensures
        match plans_from(vs, j) {
            Ok(p) => p.len() == vs.len() - j && forall|i: int| 0 <= i < p.len() ==> #[trigger] p[i].name == vs[j + i].name,
            Err(_) => true,
        },
    decreases vs.len() - j,
{
    if j < vs.len() {
        lemma_plans_follow_variants(vs, j + 1);
        match variant_arms_from(vs[j], 0) {
            Ok(a) => {
                match plans_from(vs, j + 1) {
                    Ok(rest) => {
                        let p = seq![PlanView { name: vs[j].name, arms: a }] + rest;
                        assert forall|i: int| 0 <= i < p.len() implies #[trigger] p[i].name == vs[j + i].name by {
                            if i > 0 {
                                assert(p[i] == rest[i - 1]);
                                assert(rest[i - 1].name == vs[j + 1 + (i - 1)].name);
                            }
                        }
                    },
                    Err(_) => {},
                }
            },
            Err(_) => {},
        }
    }
}

/// `IntoApiResponse` lists every variant of the derived enum, in order: when
/// it succeeds, it plans one entry per variant, named after it.
pub proof fn law_plan_lists_every_variant(vs: Seq<VariantView>)
    ensures
        match api_response_plan(Some(vs)) {
            Ok(p) => p.len() == vs.len() && forall|i: int| 0 <= i < vs.len() ==> #[trigger] p[i].name == vs[i].name,
            Err(_) => true,
        },
{
    lemma_plans_follow_variants(vs, 0);
}

/// A path range of a `from_err` list lies within the list and starts with
/// an identifier.
pub open spec fn path_range_ok(toks: Seq<TokenView>, r: (int, int)) -> bool {
    0 <= r.0 < r.1 <= toks.len() && toks[r.0] is Ident
}

proof fn lemma_paths_in_list(toks: Seq<TokenView>, i: int, cur: Option<int>)
    requires
        0 <= i <= toks.len(),
        cur matches Some(s) ==> 0 <= s < i && toks[s] is Ident,
    ensures
        match from_err_paths(toks, i, cur) {
            Ok(ps) => forall|k: int| 0 <= k < ps.len() ==> path_range_ok(toks, #[trigger] ps[k]),
            Err(e) => 0 <= e < toks.len(),
        },
    decreases toks.len() - i,
{
    if i < toks.len() {
        match cur {
            Some(s) => match toks[i] {
                TokenView::Punct(':') => lemma_paths_in_list(toks, i + 1, Some(s)),
                TokenView::Ident(_) => lemma_paths_in_list(toks, i + 1, Some(s)),
                _ => {
                    lemma_paths_in_list(toks, i + 1, None);
                    match from_err_paths(toks, i + 1, None) {
                        Ok(rest) => {
                            let ps = seq![(s, i)] + rest;
                            assert forall|k: int| 0 <= k < ps.len() implies path_range_ok(toks, #[trigger] ps[k]) by {
                                if k > 0 {
                                    assert(ps[k] == rest[k - 1]);
                                }
                            }
                        },
                        Err(_) => {},
                    }
                },
            },
            None => match toks[i] {
                TokenView::Ident(_) => lemma_paths_in_list(toks, i + 1, Some(i)),
                TokenView::Punct(',') => lemma_paths_in_list(toks, i + 1, None),
                _ => {},
            },
        }
    }
}

/// Whether a planned `From` impl names a path inside a `from_err` list of
/// one of the variants.
pub open spec fn wrapper_ok(vs: Seq<VariantView>, w: (int, int, int, int)) -> bool {
    &&& 0 <= w.0 < vs.len()
    &&& 0 <= w.1 < vs[w.0].attrs.len()
    &&& is_list_named(vs[w.0].attrs[w.1], "from_err"@)
    &&& path_range_ok(vs[w.0].attrs[w.1].list->0, (w.2, w.3))
}

proof fn lemma_attr_impls_ok(vs: Seq<VariantView>, j: int, k: int)
    requires
        0 <= j < vs.len(),
        0 <= k <= vs[j].attrs.len(),
    ensures
        match impls_of_attrs(vs[j], j, k) {
            Ok(ps) => forall|m: int| 0 <= m < ps.len() ==> wrapper_ok(vs, (j, (#[trigger] ps[m]).0, ps[m].1, ps[m].2)),
            Err(e) => e matches MacroErrorView::UnsupportedPathToken { variant, attr_index, index } && variant == j
                && attr_index < vs[j].attrs.len() && index < vs[j].attrs[attr_index as int].list->0.len(),
        },
    decreases vs[j].attrs.len() - k,
{
    let v = vs[j];
    if k < v.attrs.len() {
        lemma_attr_impls_ok(vs, j, k + 1);
        if is_list_named(v.attrs[k], "from_err"@) {
            let toks = v.attrs[k].list->0;
            lemma_paths_in_list(toks, 0, None);
            match from_err_paths(toks, 0, None) {
                Ok(ps) => match impls_of_attrs(v, j, k + 1) {
                    Ok(rest) => {
                        let mine = ps.map_values(|p: (int, int)| (k, p.0, p.1));
                        let all = mine + rest;
                        assert forall|m: int| 0 <= m < all.len() implies wrapper_ok(vs, (j, (#[trigger] all[m]).0, all[m].1, all[m].2)) by {
                            if m < mine.len() {
                                assert(all[m] == mine[m]);
                                assert(path_range_ok(toks, ps[m]));
                            } else {
                                assert(all[m] == rest[m - mine.len()]);
                            }
                        }
                    },
                    Err(_) => {},
                },
                Err(_) => {},
            }
        }
    }
}

proof fn lemma_wrappers_ok(vs: Seq<VariantView>, j: int)
    requires
        0 <= j <= vs.len(),
    ensures
        match error_wrappers_from(vs, j) {
            Ok(ws) => forall|m: int| 0 <= m < ws.len() ==> wrapper_ok(vs, #[trigger] ws[m]),
            Err(e) => e matches MacroErrorView::UnsupportedPathToken { variant, attr_index, index } && variant < vs.len()
                && attr_index < vs[variant as int].attrs.len() && index < vs[variant as int].attrs[attr_index as int].list->0.len(),
        },
    decreases vs.len() - j,
{
    if j < vs.len() {
        lemma_wrappers_ok(vs, j + 1);
        lemma_attr_impls_ok(vs, j, 0);
        match impls_of_attrs(vs[j], j, 0) {
            Ok(ps) => match error_wrappers_from(vs, j + 1) {
                Ok(rest) => {
                    let mine = ps.map_values(|p: (int, int, int)| (j, p.0, p.1, p.2));
                    let all = mine + rest;
                    assert forall|m: int| 0 <= m < all.len() implies wrapper_ok(vs, #[trigger] all[m]) by {
                        if m < mine.len() {
                            assert(all[m] == mine[m]);
                            assert(wrapper_ok(vs, (j, ps[m].0, ps[m].1, ps[m].2)));
                        } else {
                            assert(all[m] == rest[m - mine.len()]);
                        }
                    }
                },
                Err(_) => {},
            },
            Err(_) => {},
        }
    }
}

/// Every `From` impl that `ErrorWrapper` plans names a path inside a
/// `from_err(..)` list of the derived enum: a variant, one of its
/// `from_err` attributes, and a range of that list's tokens that starts
/// with an identifier; a refused token is a token of such a list.
pub proof fn law_wrappers_name_listed_paths(vs: Seq<VariantView>)
    ensures
        match error_wrapper_plan(Some(vs)) {
            Ok(ws) => forall|m: int| 0 <= m < ws.len() ==> wrapper_ok(vs, #[trigger] ws[m]),
            Err(e) => e matches MacroErrorView::UnsupportedPathToken { variant, attr_index, index } && variant < vs.len()
                && attr_index < vs[variant as int].attrs.len() && index < vs[variant as int].attrs[attr_index as int].list->0.len(),
        },
{
    lemma_wrappers_ok(vs, 0);
}

/// The kind that a keyword of a `response(..)` list names, written out:
/// `error` wraps one error, `errors` a list of them, `simple` none.
pub open spec fn keyword_kind(k: Seq<char>) -> ArmKind {
    if k == "error"@ {
        ArmKind::Error
    } else if k == "errors"@ {
        ArmKind::Errors
    } else {
        ArmKind::Simple
    }
}

/// The shape of a keyword of a `response(..)` list: `error` yields an arm of
/// kind `Error`, `errors` one of kind `Errors` and `simple` one of kind
/// `Simple`. Followed by a group whose first token is a literal, the arm is
/// labelled with that literal; last in the list, it is labelled with the
/// keyword itself.
pub proof fn law_keyword_shapes(variant: Seq<char>, toks: Seq<TokenView>, i: int, k: Seq<char>)
    requires
        0 <= i < toks.len(),
        toks[i] == TokenView::Ident(k),
        k == "error"@ || k == "errors"@ || k == "simple"@,
    ensures
        i + 1 == toks.len() ==> response_arms_from(variant, toks, i) == Ok::<Seq<ArmView>, MacroErrorView>(
            seq![ArmView::Defaulted(keyword_kind(k), k)],
        ),
        i + 1 < toks.len() ==> (toks[i + 1] matches TokenView::Group(GroupHeadView::Literal(lit)) ==> (
        response_arms_from(variant, toks, i) matches Ok(arms) ==> arms.len() >= 1 && arms[0] == ArmView::Labelled(
            keyword_kind(k),
            lit,
        ))),
{
    reveal_strlit("error");
    reveal_strlit("errors");
    reveal_strlit("simple");
    reveal_strlit("status");
    assert(k != "status"@) by {
        if k == "status"@ {
            assert(k[0] == 's' && k[1] == 't');
            assert(k.len() == 6);
            if k == "simple"@ {
                assert(k[1] == 'i');
            } else {
                assert(k[0] == 'e');
            }
        }
    }
    assert(kind_of_key(k) == Some(keyword_kind(k)));
}

proof fn lemma_attr_impls_complete(v: VariantView, j: int, k0: int, k: int, m: int)
    requires
        0 <= k0 <= k < v.attrs.len(),
        is_list_named(v.attrs[k], "from_err"@),
        from_err_paths(v.attrs[k].list->0, 0, None) is Ok,
        0 <= m < from_err_paths(v.attrs[k].list->0, 0, None)->Ok_0.len(),
        impls_of_attrs(v, j, k0) is Ok,
    ensures
        ({
            let p = from_err_paths(v.attrs[k].list->0, 0, None)->Ok_0[m];
            impls_of_attrs(v, j, k0)->Ok_0.contains((k, p.0, p.1))
        }),
    decreases v.attrs.len() - k0,
{
    let p = from_err_paths(v.attrs[k].list->0, 0, None)->Ok_0[m];
    if is_list_named(v.attrs[k0], "from_err"@) {
        let ps = from_err_paths(v.attrs[k0].list->0, 0, None)->Ok_0;
        let mine = ps.map_values(|q: (int, int)| (k0, q.0, q.1));
        let rest = impls_of_attrs(v, j, k0 + 1)->Ok_0;
        let all = mine + rest;
        if k0 == k {
            assert(all[m] == (k, p.0, p.1));
        } else {
            lemma_attr_impls_complete(v, j, k0 + 1, k, m);
            let x = choose|x: int| 0 <= x < rest.len() && rest[x] == (k, p.0, p.1);
            assert(all[mine.len() + x] == (k, p.0, p.1));
        }
    } else {
        assert(k0 != k);
        lemma_attr_impls_complete(v, j, k0 + 1, k, m);
    }
}

proof fn lemma_wrappers_complete(vs: Seq<VariantView>, j0: int, j: int, t: int)
    requires
        0 <= j0 <= j < vs.len(),
        error_wrappers_from(vs, j0) is Ok,
    ensures
        impls_of_attrs(vs[j], j, 0) is Ok,
        0 <= t < impls_of_attrs(vs[j], j, 0)->Ok_0.len() ==> ({
            let q = impls_of_attrs(vs[j], j, 0)->Ok_0[t];
            error_wrappers_from(vs, j0)->Ok_0.contains((j, q.0, q.1, q.2))
        }),
    decreases j - j0,
{
    let ps = impls_of_attrs(vs[j0], j0, 0)->Ok_0;
    let mine = ps.map_values(|q: (int, int, int)| (j0, q.0, q.1, q.2));
    let rest = error_wrappers_from(vs, j0 + 1)->Ok_0;
    let all = mine + rest;
    if j0 == j {
        if 0 <= t < ps.len() {
            assert(all[t] == (j, ps[t].0, ps[t].1, ps[t].2));
        }
    } else {
        lemma_wrappers_complete(vs, j0 + 1, j, t);
        if 0 <= t < impls_of_attrs(vs[j], j, 0)->Ok_0.len() {
            let q = impls_of_attrs(vs[j], j, 0)->Ok_0[t];
            let x = choose|x: int| 0 <= x < rest.len() && rest[x] == (j, q.0, q.1, q.2);
            assert(all[mine.len() + x] == (j, q.0, q.1, q.2));
        }
    }
}

/// `ErrorWrapper` misses no path: when it succeeds, every path of every
/// `from_err(..)` list of every variant has its `From` impl in the plan,
/// naming that variant, that attribute and that path's tokens.
pub proof fn law_every_listed_path_is_wrapped(vs: Seq<VariantView>, j: int, k: int, m: int)
    requires
        0 <= j < vs.len(),
        0 <= k < vs[j].attrs.len(),
        is_list_named(vs[j].attrs[k], "from_err"@),
        from_err_paths(vs[j].attrs[k].list->0, 0, None) is Ok,
        0 <= m < from_err_paths(vs[j].attrs[k].list->0, 0, None)->Ok_0.len(),
        error_wrapper_plan(Some(vs)) is Ok,
    ensures
        ({
            let p = from_err_paths(vs[j].attrs[k].list->0, 0, None)->Ok_0[m];
            error_wrapper_plan(Some(vs))->Ok_0.contains((j, k, p.0, p.1))
        }),
{
    let p = from_err_paths(vs[j].attrs[k].list->0, 0, None)->Ok_0[m];
    lemma_wrappers_complete(vs, 0, j, 0);
    lemma_attr_impls_complete(vs[j], j, 0, k, m);
    let ps = impls_of_attrs(vs[j], j, 0)->Ok_0;
    let t = choose|t: int| 0 <= t < ps.len() && ps[t] == (k, p.0, p.1);
    lemma_wrappers_complete(vs, 0, j, t);
}

} // verus!
