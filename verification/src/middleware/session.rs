use vstd::prelude::*;
use vstd::string::*;
use crate::common::cookies::{find_session_token, session_cookie, session_cookie_header, session_token_of};
use crate::common::error::{
    ApiResponse, is_error_response, is_json_response, json_response_with_cookie, message_body,
    message_body_text, return_response_error,
};
use crate::common::structs::SessionsQuery;
use crate::common::structs::Sessions;
use crate::common::timing::{current_timestamp, session_lifetime, timestamp_bound};

verus! {

/// The first step of the session check on a protected route.
pub enum GateStep {
    /// Answer with this response; the route is not reached.
    Respond(ApiResponse),
    /// Look up the session with this token, then call `judge_session`.
    LookUp(String),
}

/// The refusal sent when a request carries no usable session.
pub open spec fn is_unauthorized(r: ApiResponse) -> bool {
    is_error_response(r, 401, "You are not authorized to perform this action."@)
}

/// First step of the session check: without a database connection the
/// answer is 500; without a `Cookie` header, or without a `session=` cookie
/// in it, the answer is 401; otherwise the session token is to be looked up.
pub fn session_gate(pool_available: bool, cookies: Option<&str>) -> (res: GateStep)
    ensures
        !pool_available ==> (res matches GateStep::Respond(r) && is_error_response(
            r,
            500,
            "Database connection not found."@,
        )),
        pool_available && cookies is None ==> (res matches GateStep::Respond(r) && is_unauthorized(r)),
        pool_available ==> (cookies matches Some(h) ==> match session_token_of(h@) {
            None => res matches GateStep::Respond(r) && is_unauthorized(r),
            Some(t) => res matches GateStep::LookUp(token) && token@ == t,
        }),
{
    if !pool_available {
        return GateStep::Respond(
            return_response_error(String::from_str("Database connection not found."), 500),
        );
    }
    if let Some(header) = cookies {
        if let Some(token) = find_session_token(header) {
            return GateStep::LookUp(token);
        }
    }
    GateStep::Respond(
        return_response_error(String::from_str("You are not authorized to perform this action."), 401),
    )
}

/// What the session check decides once the session has been looked up.
pub enum SessionVerdict {
    /// The session is valid: hand it to the route and run it.
    Admit(SessionsQuery),
    /// The session has expired: delete it, then answer with this response,
    /// which clears the cookie.
    Expired(ApiResponse),
    /// No such session: answer with this response.
    Reject(ApiResponse),
}

/// A session with this expiry has expired at `now`: it has no expiry, or
/// the expiry lies before `now` (`expire_at < Some(now)` on `Option`s).
pub open spec fn is_expired(expire_at: Option<i64>, now: i64) -> bool {
    match expire_at {
        None => true,
        Some(e) => e < now,
    }
}

/// The message that reports an expired session.
pub open spec fn expired_message(token: Seq<char>) -> Seq<char> {
    "Session "@ + token + " expired"@
}

/// `res` is the verdict on a session looked up under `token`, at time `now`.
pub open spec fn is_verdict(res: SessionVerdict, token: Seq<char>, found: Option<SessionsQuery>, now: i64) -> bool {
    match found {
        None => res matches SessionVerdict::Reject(r) && is_error_response(r, 401, "You are not logged in."@),
        Some(s) => if is_expired(s.expire_at, now) {
            res matches SessionVerdict::Expired(r) && is_json_response(
                r,
                401,
                Some(session_cookie(seq![])),
                message_body(false, expired_message(token)),
            )
        } else {
            res == SessionVerdict::Admit(s)
        },
    }
}

/// Second step of the session check, at time `now`: a session that was not
/// found gets 401 "You are not logged in."; one that has expired is to be deleted and answered with a
/// 401 that clears the cookie; a valid one is admitted.
pub fn judge_session_at(token: &str, found: Option<SessionsQuery>, now: i64) -> (res: SessionVerdict)
    ensures
        is_verdict(res, token@, found, now),
{
    match found {
        None => SessionVerdict::Reject(return_response_error(String::from_str("You are not logged in."), 401)),
        Some(s) => {
            let expired = match s.expire_at {
                None => true,
                Some(e) => e < now,
            };
            if expired {
                let mut message = String::from_str("Session ");
                message.append(token);
                message.append(" expired");
                let cookie = session_cookie_header("");
                proof {
                    reveal_strlit("");
                }
                let body = message_body_text(false, message.as_str());
                SessionVerdict::Expired(json_response_with_cookie(401, cookie, body))
            } else {
                SessionVerdict::Admit(s)
            }
        },
    }
}

/// Second step of the session check, at the current time.
pub fn judge_session(token: &str, found: Option<SessionsQuery>) -> (res: SessionVerdict)
    ensures
        exists|now: i64| -timestamp_bound() < now < timestamp_bound() && #[trigger] is_verdict(res, token@, found, now),
{
    let now = current_timestamp();
    judge_session_at(token, found, now)
}

/// A session lasts two days: once issued (expiring one lifetime after its
/// creation) and stored, the session check admits it at any time up to
/// two days after its creation and turns it away as expired afterwards.
pub proof fn law_session_lasts_its_lifetime(s: Sessions, token: Seq<char>, now: i64, verdict: SessionVerdict)
    requires
        s.expire_at == s.created_at + session_lifetime(),
        is_verdict(verdict, token, Some(s.as_stored()), now),
    ensures
        verdict is Admit <==> now <= s.created_at + session_lifetime(),
        verdict is Expired <==> now > s.created_at + session_lifetime(),
        verdict is Admit ==> verdict == SessionVerdict::Admit(s.as_stored()),
{
}

} // verus!
