//! Session values handed to clients: the claims a session token carries,
//! the cookie that holds it, and the account's access key.

use vstd::prelude::*;
use vstd::string::StringExecFns;
use crate::text::{decimal, decimal_string, hex_of, hex_string, lemma_hex_len, signed_decimal, signed_decimal_string};

verus! {

/// How long a session token is valid, in seconds (seven days).
pub const TOKEN_EXPIRY_SECS: i64 = 7 * 24 * 3600;

/// Name of the cookie that carries the session token.
pub const COOKIE_NAME: &'static str = "orsta_session";

/// Number of random bytes in an access key.
pub const EAKEY_BYTES: usize = 32;

/// What a session token asserts about its holder.
#[derive(Debug, Clone)]
pub struct Claims {
    /// The user's key, in decimal.
    pub sub: String,
    pub username: String,
    /// Expiry (Unix seconds).
    pub exp: usize,
    /// Issue time (Unix seconds).
    pub iat: usize,
}

/// An authenticated caller, as resolved from a session token or access key.
#[derive(Debug, Clone)]
pub struct AuthUser(pub Claims);

impl Claims {
    /// Claims for user `user_id` issued at `now`, valid for `TOKEN_EXPIRY_SECS`.
    pub fn new(user_id: i32, username: String, now: usize) -> (c: Claims)
        requires
            now + TOKEN_EXPIRY_SECS <= usize::MAX,
        ensures
            c.sub@ == signed_decimal(user_id as int),
            c.username == username,
            c.iat == now,
            c.exp == now + TOKEN_EXPIRY_SECS,
    {
        Claims {
            sub: signed_decimal_string(user_id as i64),
            username,
            exp: now + TOKEN_EXPIRY_SECS as usize,
            iat: now,
        }
    }
}

/// Claims for a caller that presented the access key of user `user_id`:
/// granted only while that user's key is switched on.
pub fn claims_for_api_key(user_id: i32, username: String, api_key_active: bool, now: usize) -> (r: Option<Claims>)
    requires
        now + TOKEN_EXPIRY_SECS <= usize::MAX,
    ensures
        !api_key_active ==> r.is_none(),
        api_key_active ==> (r matches Some(c) && c.sub@ == signed_decimal(user_id as int)
            && c.username == username && c.iat == now && c.exp == now + TOKEN_EXPIRY_SECS),
{
    if !api_key_active {
        return None;
    }
    Some(Claims::new(user_id, username, now))
}

/// The `Set-Cookie` value that stores `token` for the token's lifetime.
pub open spec fn session_cookie_text(token: Seq<char>) -> Seq<char> {
    COOKIE_NAME@ + "="@ + token + "; HttpOnly; SameSite=Strict; Max-Age="@ + decimal(
        TOKEN_EXPIRY_SECS as nat,
    ) + "; Path=/"@
}

/// The `Set-Cookie` value that expires the session at once.
pub open spec fn clear_cookie_text() -> Seq<char> {
    COOKIE_NAME@ + "=; HttpOnly; SameSite=Strict; Max-Age=0; Path=/"@
}

/// `Set-Cookie` header value for the session token.
pub fn session_cookie(token: &str) -> (r: String)
    ensures
        r@ == session_cookie_text(token@),
{
    let mut s = String::from_str(COOKIE_NAME);
    s.append("=");
    s.append(token);
    s.append("; HttpOnly; SameSite=Strict; Max-Age=");
    let age = decimal_string(TOKEN_EXPIRY_SECS as u64);
    s.append(age.as_str());
    s.append("; Path=/");
    s
}

/// `Set-Cookie` header value that expires the session immediately.
pub fn clear_session_cookie() -> (r: String)
    ensures
        r@ == clear_cookie_text(),
{
    let mut s = String::from_str(COOKIE_NAME);
    s.append("=; HttpOnly; SameSite=Strict; Max-Age=0; Path=/");
    s
}

/// Relies on `rand::random` (rand 0.8) for an array of random bytes; nothing
/// is known of their values.
#[verifier::external_body]
fn random_key_bytes() -> (b: [u8; 32]) {
    rand::random()
}

/// A fresh access key: 32 random bytes as 64 lowercase hexadecimal digits.
pub fn generate_eakey() -> (r: String)
    ensures
        exists|bytes: Seq<u8>| bytes.len() == EAKEY_BYTES && r@ == hex_of(bytes),
        r@.len() == 2 * EAKEY_BYTES,
{
    let bytes = random_key_bytes();
    let r = hex_string(&bytes);
    assert(bytes@.len() == EAKEY_BYTES);
    proof {
        lemma_hex_len(bytes@);
    }
    r
}

} // verus!
