//! Finding the session token a request carries: in the session cookie of a
//! `Cookie` header, or after `Bearer ` in an `Authorization` header.

use vstd::prelude::*;
use vstd::string::{StrSliceExecFns, StringExecFns};
use crate::auth::COOKIE_NAME;

verus! {

/// Unicode white space, as `char::is_whitespace` documents it.
pub open spec fn is_space(c: char) -> bool {
    c == ' ' || ('\t' <= c <= '\r') || c == '\u{85}' || c == '\u{A0}' || c == '\u{1680}'
        || ('\u{2000}' <= c <= '\u{200A}') || c == '\u{2028}' || c == '\u{2029}' || c == '\u{202F}'
        || c == '\u{205F}' || c == '\u{3000}'
}

/// `s` without its leading white space.
pub open spec fn trim_start(s: Seq<char>) -> Seq<char>
    decreases s.len(),
{
    if s.len() > 0 && is_space(s[0]) {
        trim_start(s.skip(1))
    } else {
        s
    }
}

/// `s` without its trailing white space.
pub open spec fn trim_end(s: Seq<char>) -> Seq<char>
    decreases s.len(),
{
    if s.len() > 0 && is_space(s.last()) {
        trim_end(s.drop_last())
    } else {
        s
    }
}

/// `s` without leading or trailing white space.
pub open spec fn trim(s: Seq<char>) -> Seq<char> {
    trim_end(trim_start(s))
}

/// Position of the first `;` in `s`, or its length if there is none.
pub open spec fn first_sep(s: Seq<char>) -> int
    decreases s.len(),
{
    if s.len() == 0 || s[0] == ';' {
        0
    } else {
        1 + first_sep(s.skip(1))
    }
}

/// The value of the first `;`-separated, trimmed pair of `header` that
/// starts with `key`: what follows `key` in it.
pub open spec fn pair_value(header: Seq<char>, key: Seq<char>) -> Option<Seq<char>>
    decreases header.len(),
{
    let i = first_sep(header);
    let pair = trim(header.take(i));
    if key.is_prefix_of(pair) {
        Some(pair.skip(key.len() as int))
    } else if 0 <= i < header.len() {
        pair_value(header.skip(i + 1), key)
    } else {
        None
    }
}

/// What follows `prefix` in `s`, where `s` starts with it.
pub open spec fn after_prefix(s: Seq<char>, prefix: Seq<char>) -> Option<Seq<char>> {
    if prefix.is_prefix_of(s) {
        Some(s.skip(prefix.len() as int))
    } else {
        None
    }
}

/// The session token in a `Cookie` header value.
pub open spec fn cookie_token(cookie: Seq<char>) -> Option<Seq<char>> {
    pair_value(cookie, COOKIE_NAME@ + "="@)
}

/// The bearer token in an `Authorization` header value.
pub open spec fn bearer_token(authorization: Seq<char>) -> Option<Seq<char>> {
    after_prefix(authorization, "Bearer "@)
}

proof fn lemma_first_sep(s: Seq<char>, i: int)
    requires
        0 <= i <= s.len(),
        forall|k: int| 0 <= k < i ==> s[k] != ';',
        i == s.len() || s[i] == ';',
    ensures
        first_sep(s) == i,
    decreases i,
{
    if i > 0 {
        lemma_first_sep(s.skip(1), i - 1);
    }
}

proof fn lemma_trim_start(s: Seq<char>, a: int)
    requires
        0 <= a <= s.len(),
        forall|k: int| 0 <= k < a ==> is_space(#[trigger] s[k]),
        a == s.len() || !is_space(s[a]),
    ensures
        trim_start(s) == s.skip(a),
    decreases a,
{
    if a > 0 {
        lemma_trim_start(s.skip(1), a - 1);
        assert(s.skip(1).skip(a - 1) =~= s.skip(a));
    } else {
        assert(s.skip(0) =~= s);
    }
}

proof fn lemma_trim_end(s: Seq<char>, b: int)
    requires
        0 <= b <= s.len(),
        forall|k: int| b <= k < s.len() ==> is_space(#[trigger] s[k]),
        b == 0 || !is_space(s[b - 1]),
    ensures
        trim_end(s) == s.take(b),
    decreases s.len() - b,
{
    if b < s.len() {
        lemma_trim_end(s.drop_last(), b);
        assert(s.drop_last().take(b) =~= s.take(b));
    } else {
        assert(s.take(b) =~= s);
    }
}

fn is_space_char(c: char) -> (b: bool)
    ensures
        b == is_space(c),
{
    c == ' ' || ('\t' <= c && c <= '\r') || c == '\u{85}' || c == '\u{A0}' || c == '\u{1680}'
        || ('\u{2000}' <= c && c <= '\u{200A}') || c == '\u{2028}' || c == '\u{2029}' || c == '\u{202F}'
        || c == '\u{205F}' || c == '\u{3000}'
}

/// `s` with leading and trailing white space removed.
fn trimmed(s: &str) -> (r: &str)
    ensures
        r@ == trim(s@),
{
    let n = s.unicode_len();
    let mut a: usize = 0;
    while a < n && is_space_char(s.get_char(a))
        invariant
            n == s@.len(),
            0 <= a <= n,
            forall|k: int| 0 <= k < a ==> is_space(#[trigger] s@[k]),
        decreases n - a,
    {
        a += 1;
    }
    proof {
        lemma_trim_start(s@, a as int);
    }
    let rest = s.substring_char(a, n);
    let m = rest.unicode_len();
    let mut b: usize = m;
    while b > 0 && is_space_char(rest.get_char(b - 1))
        invariant
            m == rest@.len(),
            0 <= b <= m,
            forall|k: int| b <= k < m ==> is_space(#[trigger] rest@[k]),
        decreases b,
    {
        b -= 1;
    }
    proof {
        lemma_trim_end(rest@, b as int);
    }
    rest.substring_char(0, b)
}

/// Whether `s` starts with `prefix`.
fn starts_with(s: &str, prefix: &str) -> (b: bool)
    ensures
        b == prefix@.is_prefix_of(s@),
{
    let n = s.unicode_len();
    let p = prefix.unicode_len();
    if p > n {
        return false;
    }
    let mut i: usize = 0;
    while i < p
        invariant
            n == s@.len(),
            p == prefix@.len(),
            p <= n,
            0 <= i <= p,
            forall|k: int| 0 <= k < i ==> prefix@[k] == s@[k],
        decreases p - i,
    {
        if prefix.get_char(i) != s.get_char(i) {
            return false;
        }
        i += 1;
    }
    true
}

/// What follows the first trimmed `;`-separated pair of `header` that
/// starts with `key`.
pub fn find_pair_value(header: &str, key: &str) -> (r: Option<String>)
    ensures
        r matches Some(v) ==> pair_value(header@, key@) == Some(v@),
        r is None ==> pair_value(header@, key@) is None,
    decreases header@.len(),
{
    let n = header.unicode_len();
    let mut i: usize = 0;
    while i < n && header.get_char(i) != ';'
        invariant
            n == header@.len(),
            0 <= i <= n,
            forall|k: int| 0 <= k < i ==> header@[k] != ';',
        decreases n - i,
    {
        i += 1;
    }
    proof {
        lemma_first_sep(header@, i as int);
    }
    let pair = trimmed(header.substring_char(0, i));
    if starts_with(pair, key) {
        let value = pair.substring_char(key.unicode_len(), pair.unicode_len());
        return Some(String::from_str(value));
    }
    if i < n {
        find_pair_value(header.substring_char(i + 1, n), key)
    } else {
        None
    }
}

/// What follows `prefix` in `s`, where `s` starts with it.
pub fn strip_prefix(s: &str, prefix: &str) -> (r: Option<String>)
    ensures
        r matches Some(v) ==> after_prefix(s@, prefix@) == Some(v@),
        r is None ==> after_prefix(s@, prefix@) is None,
{
    if starts_with(s, prefix) {
        Some(String::from_str(s.substring_char(prefix.unicode_len(), s.unicode_len())))
    } else {
        None
    }
}

/// The text of an optional header value.
pub open spec fn header_text(h: Option<&str>) -> Option<Seq<char>> {
    match h {
        Some(v) => Some(v@),
        None => None,
    }
}

/// The text of an optional string.
pub open spec fn string_text(r: Option<String>) -> Option<Seq<char>> {
    match r {
        Some(v) => Some(v@),
        None => None,
    }
}

/// The session token in an optional `Cookie` header.
pub open spec fn cookie_token_in(cookie: Option<Seq<char>>) -> Option<Seq<char>> {
    match cookie {
        Some(c) => cookie_token(c),
        None => None,
    }
}

/// The bearer token in an optional `Authorization` header.
pub open spec fn bearer_token_in(authorization: Option<Seq<char>>) -> Option<Seq<char>> {
    match authorization {
        Some(a) => bearer_token(a),
        None => None,
    }
}

/// `first` where it holds a token, else `second`.
pub open spec fn first_found(first: Option<Seq<char>>, second: Option<Seq<char>>) -> Option<Seq<char>> {
    if first is Some {
        first
    } else {
        second
    }
}

fn cookie_token_exec(cookie: Option<&str>) -> (r: Option<String>)
    ensures
        string_text(r) == cookie_token_in(header_text(cookie)),
{
    match cookie {
        Some(c) => {
            let mut key = String::from_str(COOKIE_NAME);
            key.append("=");
            find_pair_value(c, key.as_str())
        },
        None => None,
    }
}

fn bearer_token_exec(authorization: Option<&str>) -> (r: Option<String>)
    ensures
        string_text(r) == bearer_token_in(header_text(authorization)),
{
    match authorization {
        Some(a) => strip_prefix(a, "Bearer "),
        None => None,
    }
}

/// The session token of a request, from its `Cookie` header value, or
/// failing that from its `Authorization` header value.
pub fn extract_token(cookie: Option<&str>, authorization: Option<&str>) -> (r: Option<String>)
    ensures
        string_text(r) == first_found(
            cookie_token_in(header_text(cookie)),
            bearer_token_in(header_text(authorization)),
        ),
{
    let from_cookie = cookie_token_exec(cookie);
    if from_cookie.is_some() {
        return from_cookie;
    }
    bearer_token_exec(authorization)
}

/// The session token of a channel request, from its `Authorization` header
/// value, or failing that from its `Cookie` header value.
pub fn extract_bearer_or_cookie(authorization: Option<&str>, cookie: Option<&str>) -> (r: Option<String>)
    ensures
        string_text(r) == first_found(
            bearer_token_in(header_text(authorization)),
            cookie_token_in(header_text(cookie)),
        ),
{
    let from_header = bearer_token_exec(authorization);
    if from_header.is_some() {
        return from_header;
    }
    cookie_token_exec(cookie)
}

} // verus!
