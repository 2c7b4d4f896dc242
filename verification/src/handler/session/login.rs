use vstd::prelude::*;
use vstd::string::*;
use crate::common::cookies::{session_cookie, session_cookie_header};
use crate::common::error::{
    ApiResponse, check_required_fields, lacks_required_field, is_error_response, is_json_response, json_response_with_cookie, message_body,
    message_body_text, return_response_error,
};
use crate::common::is_session_token;
use crate::common::issue_session;
use crate::common::password::{bcrypt_verify, is_bcrypt_hash, is_bcrypt_hash_of, verify_password};
use crate::common::structs::{LoginRequest, Sessions, UsersQuery};
use crate::common::timing::{current_timestamp, session_lifetime, timestamp_bound};

verus! {

/// What the login handler does once the user row has been looked up.
pub enum LoginDecision {
    /// Answer with this response and stop.
    Refuse(ApiResponse),
    /// Store `session`, then answer with `answer_after_write(response, failure)`:
    /// `response` sets the cookie, a failed insert gets a 500 instead.
    Grant { session: Sessions, response: ApiResponse },
    /// The request cannot be served: the stored row lacks a column it needs,
    /// or its password hash cannot be read. The handler gives up (panics).
    Abort,
}

/// The response that confirms a login and sets the session cookie.
pub open spec fn is_login_success(r: ApiResponse, token: Seq<char>) -> bool {
    is_json_response(r, 200, Some(session_cookie(token)), message_body(true, "User logged in."@))
}

/// The response that confirms a login and sets the cookie for `token`.
pub fn login_success_response(token: &str) -> (res: ApiResponse)
    ensures
        is_login_success(res, token@),
{
    let cookie = session_cookie_header(token);
    let body = message_body_text(true, "User logged in.");
    json_response_with_cookie(200, cookie, body)
}

/// The session a granted login creates for the user `user_id`.
pub open spec fn is_fresh_session_for(s: Sessions, user_id: Seq<char>) -> bool {
    &&& s.user_id@ == user_id
    &&& is_session_token(s.session_id@)
    &&& s.expire_at == s.created_at + session_lifetime()
}

/// Decides a login attempt. An empty username or password is refused with
/// 400 "All fields required." (before any lookup: see `check_required_fields`).
/// Otherwise `user` is the row found for the requested username (`None`
/// where the lookup failed): an unknown user gets a 500 "Invalid username or
/// password"; a password that does not match the stored bcrypt hash gets a
/// 401 "Invalid username or password."; a matching one opens a session for
/// the user, expiring two days after it is created.
pub fn decide_login(payload: &LoginRequest, user: Option<UsersQuery>) -> (res: LoginDecision)
    ensures
        is_login_decision(res, *payload, user),
        // The password the stored hash was made of, in full, opens a session
        // for the stored user.
        !lacks_required_field(payload.username@, payload.password@) ==> (user matches Some(u) ==> (
        u.hashed_password matches Some(h) ==> (u.user_id is Some && is_bcrypt_hash_of(h@, payload.password@)
            ==> (res matches LoginDecision::Grant { session, response } && u.user_id == Some(session.user_id))))),
        // A session is only ever opened for the stored user.
        res matches LoginDecision::Grant { session, .. } ==> (user matches Some(u) && u.user_id == Some(session.user_id)),
        res matches LoginDecision::Grant { session, .. } ==> -timestamp_bound() < session.created_at < timestamp_bound(),
{
    let now = current_timestamp();
    decide_login_at(payload, user, now)
}

/// `res` is how a login attempt with `payload` is decided, `user` being the
/// row found for its username (`None` where the lookup failed).
pub open spec fn is_login_decision(res: LoginDecision, payload: LoginRequest, user: Option<UsersQuery>) -> bool {
    &&& (lacks_required_field(payload.username@, payload.password@) ==> (res matches LoginDecision::Refuse(r)
            && is_error_response(r, 400, "All fields required."@)))
    &&& (!lacks_required_field(payload.username@, payload.password@) ==> (user is None ==> (
        res matches LoginDecision::Refuse(r) && is_error_response(r, 500, "Invalid username or password"@))))
    &&& (!lacks_required_field(payload.username@, payload.password@) ==> (user matches Some(u) ==> match u.hashed_password {
            None => res is Abort,
            Some(h) => match bcrypt_verify(payload.password@, h@) {
                None => res is Abort,
                Some(false) => res matches LoginDecision::Refuse(r) && is_error_response(
                    r,
                    401,
                    "Invalid username or password."@,
                ),
                Some(true) => match u.user_id {
                    None => res is Abort,
                    Some(id) => res matches LoginDecision::Grant { session, response }
                        && is_fresh_session_for(session, id@)
                        && is_login_success(response, session.session_id@),
                },
            },
        }))
    &&& (!lacks_required_field(payload.username@, payload.password@) ==> (user matches Some(u) ==> (
        u.hashed_password matches Some(h) ==> (u.user_id is Some && is_bcrypt_hash_of(h@, payload.password@)
            ==> res is Grant))))
    &&& (user matches Some(u) ==> (u.hashed_password matches Some(h) ==> (u.user_id is Some && is_bcrypt_hash(h@)
            ==> !(res is Abort))))
}

/// Decides a login attempt at time `now` (see `decide_login`); a granted
/// session is created at `now`.
pub fn decide_login_at(payload: &LoginRequest, user: Option<UsersQuery>, now: i64) -> (res: LoginDecision)
    requires
        -timestamp_bound() < now < timestamp_bound(),
    ensures
        is_login_decision(res, *payload, user),
        // The password the stored hash was made of, in full, opens a session
        // for the stored user.
        !lacks_required_field(payload.username@, payload.password@) ==> (user matches Some(u) ==> (
        u.hashed_password matches Some(h) ==> (u.user_id is Some && is_bcrypt_hash_of(h@, payload.password@)
            ==> (res matches LoginDecision::Grant { session, response } && u.user_id == Some(session.user_id))))),
        // A session is only ever opened for the stored user.
        res matches LoginDecision::Grant { session, .. } ==> (user matches Some(u) && u.user_id == Some(session.user_id)),
        res matches LoginDecision::Grant { session, .. } ==> session.created_at == now,
{
    if let Some(refusal) = check_required_fields(payload.username.as_str(), payload.password.as_str()) {
        return LoginDecision::Refuse(refusal);
    }
    let u = match user {
        None => {
            return LoginDecision::Refuse(
                return_response_error(String::from_str("Invalid username or password"), 500),
            );
        },
        Some(u) => u,
    };
    let hash = match &u.hashed_password {
        None => {
            return LoginDecision::Abort;
        },
        Some(h) => h,
    };
    let verified = verify_password(payload.password.as_str(), hash.as_str());
    match verified {
        Err(_) => LoginDecision::Abort,
        Ok(false) => LoginDecision::Refuse(
            return_response_error(String::from_str("Invalid username or password."), 401),
        ),
        Ok(true) => {
            match u.user_id {
                None => LoginDecision::Abort,
                Some(id) => {
                    let session = issue_session(id, now);
                    let response = login_success_response(session.session_id.as_str());
                    LoginDecision::Grant { session, response }
                },
            }
        },
    }
}

} // verus!
