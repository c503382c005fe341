//! The decisions of the timer HTTP interface: what each request is answered
//! with, given what the store holds.
use vstd::prelude::*;

use crate::auth::{check_password_hash, create_jwt, hash_password, password_verifies, token_for};
use crate::models::{
    created_timer,
    response_of,
    updated_timer,
    TimerCreationRequest,
    TimerCreationResponse,
    TimerResponse,
    TimerUpdateRequest,
    TokenRequest,
    TokenResponse,
};
use crate::timer::{all_sounds_well_placed, sounds_placed, Timer};

verus! {

/// A refusal, answered with an HTTP status and an empty body.
#[derive(Clone, Copy, Debug, PartialEq, Eq, Structural)]
pub enum ApiError {
    BadRequest,
    Unauthorized,
    NotFound,
    Conflict,
}

impl ApiError {
    /// The HTTP status code of the refusal.
    pub fn status(&self) -> (r: u16)
        ensures
            r == match *self {
                ApiError::BadRequest => 400u16,
                ApiError::Unauthorized => 401u16,
                ApiError::NotFound => 404u16,
                ApiError::Conflict => 409u16,
            },
    {
        match self {
            ApiError::BadRequest => 400,
            ApiError::Unauthorized => 401,
            ApiError::NotFound => 404,
            ApiError::Conflict => 409,
        }
    }
}

/// The pattern that a timer id must match.
pub const ID_PATTERN: &'static str = "^[a-zA-Z0-9-_]+$";

/// A character allowed in a timer id: an ASCII letter or digit, `_` or `-`.
pub open spec fn is_id_char(c: char) -> bool {
    ('a' <= c && c <= 'z') || ('A' <= c && c <= 'Z') || ('0' <= c && c <= '9') || c == '_' || c
        == '-'
}

/// A timer id: one or more allowed characters.
pub open spec fn is_valid_id(s: Seq<char>) -> bool {
    s.len() > 0 && forall|i: int| 0 <= i < s.len() ==> is_id_char(#[trigger] s[i])
}

/// Relies on regex's `Regex::new` and `Regex::is_match`: with `^` and `$`
/// anchoring the whole text, the pattern of one class repeated matches exactly
/// the non-empty texts made of that class.
#[verifier::external_body]
fn matches_id_pattern(pattern: &str, text: &str) -> (r: bool)
    requires
        pattern@ == ID_PATTERN@,
    ensures
        r == is_valid_id(text@),
{
    regex::Regex::new(pattern).unwrap().is_match(text)
}

/// Whether `id` may name a timer.
pub fn is_valid_timer_id(id: &str) -> (r: bool)
    ensures
        r == is_valid_id(id@),
{
    matches_id_pattern(ID_PATTERN, id)
}

/// A creation request is accepted when its id is well formed and every
/// sound lies within its segment.
pub open spec fn creation_acceptable(req: TimerCreationRequest) -> bool {
    is_valid_id(req.id@) && sounds_placed(req.segments@)
}

/// Checks a creation request, hashes its password, and makes the timer to
/// store. Refuses with `BadRequest` a malformed id or a misplaced sound.
pub fn create_timer(request: TimerCreationRequest) -> (r: Result<Timer, ApiError>)
    ensures
        r is Ok <==> creation_acceptable(request),
        r is Err ==> r->Err_0 == ApiError::BadRequest,
        r is Ok ==> r->Ok_0 == created_timer(request, r->Ok_0.password),
{
    if !is_valid_timer_id(request.id.as_str()) {
        return Err(ApiError::BadRequest);
    }
    if !all_sounds_well_placed(&request.segments) {
        return Err(ApiError::BadRequest);
    }
    let password = hash_password(request.password.as_str());
    Ok(request.into(password))
}

/// The answer to a creation that the store took: the timer without its
/// password hash, and a token for its id.
pub fn creation_response(timer: Timer, key: &str) -> (r: TimerCreationResponse)
    ensures
        r.timer == response_of(timer),
        r.token@ == token_for(timer.id@, key@),
{
    let token = create_jwt(timer.id.clone(), key);
    TimerCreationResponse { timer: timer.into_response(), token }
}

/// The answer to a token request once its password has been checked: a
/// token for `id` when the password matched, else `Unauthorized`.
pub fn grant_token(id: String, password_ok: bool, key: &str) -> (r: Result<TokenResponse, ApiError>)
    ensures
        r is Ok <==> password_ok,
        r is Err ==> r->Err_0 == ApiError::Unauthorized,
        r is Ok ==> r->Ok_0.token@ == token_for(id@, key@),
{
    if !password_ok {
        return Err(ApiError::Unauthorized);
    }
    let token = create_jwt(id, key);
    Ok(TokenResponse { token })
}

/// Issues a token for a stored timer whose password the request gives;
/// refuses with `Unauthorized` an unknown timer or a wrong password.
pub fn create_token(request: TokenRequest, stored: Option<Timer>, key: &str) -> (r: Result<
    TokenResponse,
    ApiError,
>)
    ensures
        r is Ok <==> (stored is Some && password_verifies(
            request.password@,
            stored->0.password@,
        )),
        r is Err ==> r->Err_0 == ApiError::Unauthorized,
        r is Ok ==> r->Ok_0.token@ == token_for(request.id@, key@),
{
    match stored {
        None => Err(ApiError::Unauthorized),
        Some(timer) => {
            let ok = check_password_hash(request.password.as_str(), timer.password.as_str());
            grant_token(request.id, ok, key)
        },
    }
}

/// The answer to reading a timer: the timer without its password hash, or
/// `Unauthorized` when the store has none under that id.
pub fn get_timer(stored: Option<Timer>) -> (r: Result<TimerResponse, ApiError>)
    ensures
        stored is None ==> r == Err::<TimerResponse, ApiError>(ApiError::Unauthorized),
        stored is Some ==> r == Ok::<TimerResponse, ApiError>(response_of(stored->0)),
{
    match stored {
        Some(t) => Ok(t.into_response()),
        None => Err(ApiError::Unauthorized),
    }
}

/// The new value of a stored timer under an update request, or
/// `Unauthorized` when the store has none under that id.
pub fn update_timer(request: TimerUpdateRequest, stored: Option<Timer>) -> (r: Result<
    Timer,
    ApiError,
>)
    ensures
        stored is None ==> r == Err::<Timer, ApiError>(ApiError::Unauthorized),
        stored is Some ==> r == Ok::<Timer, ApiError>(updated_timer(request, stored->0)),
{
    match stored {
        Some(old) => Ok(request.apply(old)),
        None => Err(ApiError::Unauthorized),
    }
}

/// The answer to deleting a timer: `NotFound` when the store could not
/// delete it.
pub fn delete_timer(deleted: bool) -> (r: Result<(), ApiError>)
    ensures
        r is Ok <==> deleted,
        r is Err ==> r->Err_0 == ApiError::NotFound,
{
    if deleted {
        Ok(())
    } else {
        Err(ApiError::NotFound)
    }
}

} // verus!
