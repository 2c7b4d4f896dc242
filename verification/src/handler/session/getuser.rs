use vstd::prelude::*;
use vstd::string::*;
use crate::common::error::{
    ApiResponse, debug_quote, debug_string_literal, is_error_response, is_json_response, json_response,
    message_body, message_body_text, return_response_error,
};
use crate::common::structs::{SessionsQuery, UserParams};

verus! {

/// The message shown to a user viewing their own profile.
pub open spec fn profile_message(user_id: Seq<char>) -> Seq<char> {
    "Logged in as user with id: "@ + debug_string_literal(user_id)
}

/// The answer to a profile request made with session `session` for the user
/// in `params`: 403 unless the session belongs to that user, else 200 with
/// the user's id (in its `Debug` form).
pub fn get_profile_response(session: &SessionsQuery, params: &UserParams) -> (res: ApiResponse)
    requires
        session.user_id is Some,
    ensures
        params.user_id@ != session.user_id->0@ ==> is_error_response(
            res,
            403,
            "You are not authorized to view this profile"@,
        ),
        params.user_id@ == session.user_id->0@ ==> is_json_response(
            res,
            200,
            None,
            message_body(true, profile_message(params.user_id@)),
        ),
        // The owner sees a 200 naming the whole requested id, in its `Debug` form.
        params.user_id@ == session.user_id->0@ ==> (res.status == 200 && res.body@ == message_body(
            true,
            "Logged in as user with id: "@ + debug_string_literal(params.user_id@),
        )),
{
    let owner = session.user_id.as_ref().unwrap();
    if params.user_id != *owner {
        return return_response_error(String::from_str("You are not authorized to view this profile"), 403);
    }
    let mut message = String::from_str("Logged in as user with id: ");
    let id_text = debug_quote(params.user_id.as_str());
    message.append(id_text.as_str());
    let body = message_body_text(true, message.as_str());
    json_response(200, body)
}

} // verus!
