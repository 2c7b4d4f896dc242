use vstd::prelude::*;
use vstd::string::*;
use crate::common::cookies::{find_session_token, session_cookie, session_cookie_header, session_token_of};
use crate::common::error::{
    ApiResponse, is_error_response, is_json_response, json_response_with_cookie, message_body, message_body_text,
    return_response_error,
};

verus! {

/// What the logout handler deletes and answers.
pub struct LogoutPlan {
    /// The session to delete, where the `Cookie` header names one.
    pub token: Option<String>,
    /// The answer where there is nothing to delete or the deletion succeeds.
    pub response: ApiResponse,
}

/// The answer to a logout: 200, the session cookie cleared, "User logged out.".
pub open spec fn is_logout_response(r: ApiResponse) -> bool {
    is_json_response(r, 200, Some(session_cookie(seq![])), message_body(true, "User logged out."@))
}

/// Plans a logout from the value of the request's `Cookie` header: the
/// session it names is to be deleted, and the answer clears the cookie.
pub fn plan_logout(cookies: &str) -> (res: LogoutPlan)
    ensures
        res.token is Some <==> session_token_of(cookies@) is Some,
        res.token matches Some(t) ==> session_token_of(cookies@) == Some(t@),
        is_logout_response(res.response),
{
    let token = find_session_token(cookies);
    let cookie = session_cookie_header("");
    proof {
        reveal_strlit("");
    }
    let body = message_body_text(true, "User logged out.");
    let response = json_response_with_cookie(200, cookie, body);
    LogoutPlan { token, response }
}

/// The answer to a logout once the deletion has been tried: where the
/// session named by the cookie could not be deleted, 401 "Could not log
/// out."; otherwise the plan's answer, which clears the cookie.
pub fn answer_logout(plan: LogoutPlan, deletion_failed: bool) -> (res: ApiResponse)
    ensures
        plan.token is Some && deletion_failed ==> is_error_response(res, 401, "Could not log out."@),
        !(plan.token is Some && deletion_failed) ==> res == plan.response,
{
    if plan.token.is_some() && deletion_failed {
        return_response_error(String::from_str("Could not log out."), 401)
    } else {
        plan.response
    }
}

} // verus!
