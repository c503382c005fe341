//! Passwords, bearer tokens, and the rule that a token opens only the
//! timer it names.
use argon2::password_hash::rand_core::OsRng;
use argon2::password_hash::{PasswordHash, PasswordHasher, PasswordVerifier, SaltString};
use vstd::prelude::*;
use vstd::string::*;

use crate::models::Claims;

verus! {

/// The issuer that every token carries.
pub const ISSUER: &'static str = "de:itsblue:distributed-timer";

/// Whether `password` is the one that the verifier string `hash` was made from.
pub uninterp spec fn password_verifies(password: Seq<char>, hash: Seq<char>) -> bool;

/// The signed token that carries the claims `id`, `exp` and `iss`, under `key`.
pub uninterp spec fn signed_token(id: Seq<char>, exp: usize, iss: Seq<char>, key: Seq<char>) -> Seq<
    char,
>;

/// The `id` claim of `token` if its signature is valid under `key` and its
/// issuer is `iss`; nothing otherwise.
pub uninterp spec fn token_subject(token: Seq<char>, key: Seq<char>, iss: Seq<char>) -> Option<
    Seq<char>,
>;

/// The token issued for the timer `id` under `key`.
pub open spec fn token_for(id: Seq<char>, key: Seq<char>) -> Seq<char> {
    signed_token(id, 0, ISSUER@, key)
}

/// Relies on argon2's `PasswordHasher::hash_password` with the default
/// parameters and a fresh salt from the operating system; the salt is random,
/// so nothing is known of the result.
#[verifier::external_body]
pub(crate) fn hash_password(password: &str) -> (r: String) {
    let salt = SaltString::generate(&mut OsRng);
    argon2::Argon2::default().hash_password(password.as_bytes(), &salt).unwrap().to_string()
}

/// Relies on argon2's `PasswordHash::new` and `PasswordVerifier::verify_password`:
/// the answer depends on the password and the verifier string alone; a verifier
/// string that does not parse verifies no password.
#[verifier::external_body]
pub(crate) fn check_password_hash(password: &str, password_hash: &str) -> (r: bool)
    ensures
        r == password_verifies(password@, password_hash@),
{
    match PasswordHash::new(password_hash) {
        Ok(parsed) => argon2::Argon2::default().verify_password(password.as_bytes(), &parsed).is_ok(),
        Err(_) => false,
    }
}

/// Relies on jsonwebtoken's `encode` with the default header (HS256): the
/// claims, signed with `key`, as a compact token.
#[verifier::external_body]
fn encode_token(claims: &Claims, key: &str) -> (r: String)
    ensures
        r@ == signed_token(claims.id@, claims.exp, claims.iss@, key@),
{
    let mut map = serde_json::Map::new();
    map.insert("id".to_string(), serde_json::Value::from(claims.id.clone()));
    map.insert("exp".to_string(), serde_json::Value::from(claims.exp));
    map.insert("iss".to_string(), serde_json::Value::from(claims.iss.clone()));
    let key = jsonwebtoken::EncodingKey::from_secret(key.as_bytes());
    jsonwebtoken::encode(&jsonwebtoken::Header::default(), &map, &key).unwrap()
}

/// Relies on jsonwebtoken's `decode` with HS256, the issuer `iss` required
/// and expiry not checked: the `id` claim of a token that passes, else none.
#[verifier::external_body]
fn decode_subject(token: &str, key: &str, iss: &str) -> (r: Option<String>)
    ensures
        r is Some <==> token_subject(token@, key@, iss@) is Some,
        r is Some ==> r->0@ == token_subject(token@, key@, iss@)->0,
{
    let mut validation = jsonwebtoken::Validation::new(jsonwebtoken::Algorithm::HS256);
    validation.set_issuer(&[iss]);
    validation.validate_exp = false;
    let key = jsonwebtoken::DecodingKey::from_secret(key.as_bytes());
    let data = jsonwebtoken::decode::<serde_json::Value>(token, &key, &validation).ok()?;
    data.claims.get("id").and_then(|v| v.as_str()).map(|s| s.to_string())
}

impl Claims {
    /// The claims of a token for the timer `id`: expiry 0, the service's issuer.
    pub fn for_timer(id: String) -> (r: Claims)
        ensures
            r.id == id,
            r.exp == 0,
            r.iss@ == ISSUER@,
    {
        Claims { id, exp: 0, iss: String::from_str(ISSUER) }
    }
}

/// The token for the timer `id`, signed with `key`.
pub fn create_jwt(id: String, key: &str) -> (r: String)
    ensures
        r@ == token_for(id@, key@),
{
    let claims = Claims::for_timer(id);
    encode_token(&claims, key)
}

/// The path of a timer's own resource: `/` and its id.
pub open spec fn timer_path(id: Seq<char>) -> Seq<char> {
    seq!['/'] + id
}

/// Whether a request to `path` is let through, given the subject of its token
/// (none when the token is not valid).
pub open spec fn allows(path: Seq<char>, subject: Option<Seq<char>>) -> bool {
    match subject {
        Some(id) => path == timer_path(id),
        None => false,
    }
}

/// Whether a token whose subject is `subject` opens the resource at `path`.
pub fn subject_matches_path(path: &str, subject: Option<String>) -> (r: bool)
    ensures
        r == allows(path@, match subject {
            Some(s) => Some(s@),
            None => None,
        }),
{
    match subject {
        Some(id) => {
            let mut expected = String::from_str("/");
            proof {
                reveal_strlit("/");
            }
            expected.append(id.as_str());
            let actual = path.to_owned();
            assert(expected@ =~= timer_path(id@));
            actual == expected
        },
        None => false,
    }
}

/// Lets a request to `path` through exactly when `token` is valid under `key`,
/// carries the service's issuer, and names the timer at `path`.
pub fn authorize(path: &str, token: &str, key: &str) -> (r: bool)
    ensures
        r == allows(path@, token_subject(token@, key@, ISSUER@)),
{
    let subject = decode_subject(token, key, ISSUER);
    subject_matches_path(path, subject)
}

/// A request is refused whenever its token does not pass (bad signature or
/// another issuer) or passes with a subject other than the id in the path.
pub proof fn lemma_token_gating(id: Seq<char>, token: Seq<char>, key: Seq<char>)
    ensures
        token_subject(token, key, ISSUER@) is None ==> !allows(
            timer_path(id),
            token_subject(token, key, ISSUER@),
        ),
        token_subject(token, key, ISSUER@) is Some && token_subject(token, key, ISSUER@)->0 != id
            ==> !allows(timer_path(id), token_subject(token, key, ISSUER@)),
        token_subject(token, key, ISSUER@) == Some(id) ==> allows(
            timer_path(id),
            token_subject(token, key, ISSUER@),
        ),
{
    if let Some(s) = token_subject(token, key, ISSUER@) {
        if s != id {
            assert(timer_path(s).subrange(1, timer_path(s).len() as int) =~= s);
            assert(timer_path(id).subrange(1, timer_path(id).len() as int) =~= id);
        }
    }
}

} // verus!
