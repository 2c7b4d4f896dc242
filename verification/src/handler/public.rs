use vstd::prelude::*;
use crate::common::error::{ApiResponse, is_json_response, json_response, message_body, message_body_text};

verus! {

/// The public message: 200 and "This message is available to all users.".
pub fn public_view_response() -> (res: ApiResponse)
    ensures
        is_json_response(res, 200, None, message_body(true, "This message is available to all users."@)),
{
    let body = message_body_text(true, "This message is available to all users.");
    json_response(200, body)
}

} // verus!
