use vstd::prelude::*;
use vstd::string::*;
use crate::common::cookies::{session_cookie, session_cookie_header};
use crate::common::error::{
    ApiResponse, answer_after_write, check_required_fields, failed_query_message, is_error_response,
    is_json_response, json_quote, json_response_with_cookie, json_string_literal, lacks_required_field,
};
use crate::common::password::{BCRYPT_COST, bcrypt_hash, hash_password_with_salt, is_bcrypt_hash, is_bcrypt_hash_of};
use crate::common::structs::{RegisterRequest, Sessions, Users};
use crate::common::timing::{current_timestamp, session_lifetime, timestamp_bound};
use crate::common::{generate_random_bytes, generate_uuid, is_session_token, is_uuid_v4_text, issue_session};

verus! {

/// What the registration handler stores and answers.
pub struct RegisterPlan {
    /// The user row to insert.
    pub user: Users,
    /// The session row to insert, opened for the new user.
    pub session: Sessions,
    /// The answer once both rows are stored.
    pub response: ApiResponse,
}

/// The first step of a registration.
pub enum RegisterStep {
    /// Answer with this response; nothing is stored.
    Refuse(ApiResponse),
    /// Insert the user row of the plan, then call `after_user_insert`.
    Insert(RegisterPlan),
}

/// The step after the user row has been inserted (or not).
pub enum AfterUserInsert {
    /// Answer with this response; the session row is not stored.
    Respond(ApiResponse),
    /// Insert the session row of the plan, then call `after_session_insert`.
    InsertSession(RegisterPlan),
}

/// The body of a successful registration:
/// `{"data":{"message":"User created."},"success":true,"userInfo":{"id":<id>,"username":<name>}}`.
pub open spec fn registration_body(username: Seq<char>, user_id: Seq<char>) -> Seq<char> {
    "{\"data\":{\"message\":"@ + json_string_literal("User created."@)
        + "},\"success\":true,\"userInfo\":{\"id\":"@ + json_string_literal(user_id)
        + ",\"username\":"@ + json_string_literal(username) + "}}"@
}

/// The body of a successful registration for this user.
pub fn registration_body_text(username: &str, user_id: &str) -> (res: String)
    ensures
        res@ == registration_body(username@, user_id@),
{
    let mut out = String::from_str("{\"data\":{\"message\":");
    let message = json_quote("User created.");
    out.append(message.as_str());
    out.append("},\"success\":true,\"userInfo\":{\"id\":");
    let id = json_quote(user_id);
    out.append(id.as_str());
    out.append(",\"username\":");
    let name = json_quote(username);
    out.append(name.as_str());
    out.append("}}");
    out
}

/// `plan` is what registering `payload` stores and answers.
pub open spec fn is_registration_of(plan: RegisterPlan, payload: RegisterRequest) -> bool {
    let user = plan.user;
    let session = plan.session;
    &&& user.username@ == payload.username@
    &&& exists|salt: Seq<u8>|
        salt.len() == 16 && user.hashed_password@ == #[trigger] bcrypt_hash(payload.password@, BCRYPT_COST, salt)
    &&& is_uuid_v4_text(user.user_id@)
    &&& session.user_id@ == user.user_id@
    &&& is_session_token(session.session_id@)
    &&& session.created_at == user.created_at
    &&& session.expire_at == session.created_at + session_lifetime()
    &&& is_json_response(
        plan.response,
        201,
        Some(session_cookie(session.session_id@)),
        registration_body(user.username@, user.user_id@),
    )
}

/// Starts a registration. An empty username or password is refused with 400
/// "All fields required."; otherwise the plan holds the user row (a random
/// salt, the bcrypt hash of the password at the service's cost, a fresh
/// UUID), a session that lasts two days, and the 201 answer that sets the
/// session cookie and echoes the user's name and id.
pub fn plan_registration(payload: &RegisterRequest) -> (res: RegisterStep)
    ensures
        is_registration_step(res, *payload),
        // An empty field is refused, and only then.
        res is Refuse <==> lacks_required_field(payload.username@, payload.password@),
        // The submitted username is stored and echoed unchanged.
        res matches RegisterStep::Insert(plan) ==> (plan.user.username == payload.username
            && plan.response.body@ == registration_body(payload.username@, plan.user.user_id@)),
        res matches RegisterStep::Insert(plan) ==> -timestamp_bound() < plan.user.created_at < timestamp_bound(),
{
    let now = current_timestamp();
    plan_registration_at(payload, now)
}

/// `res` is the first step of registering `payload`.
pub open spec fn is_registration_step(res: RegisterStep, payload: RegisterRequest) -> bool {
    &&& (lacks_required_field(payload.username@, payload.password@) ==> (res matches RegisterStep::Refuse(r)
        && is_error_response(r, 400, "All fields required."@)))
    &&& (!lacks_required_field(payload.username@, payload.password@) ==> (res matches RegisterStep::Insert(plan)
        && is_registration_of(plan, payload)))
}

/// Starts a registration at time `now` (see `plan_registration`): the user
/// and the session are created at `now`.
pub fn plan_registration_at(payload: &RegisterRequest, now: i64) -> (res: RegisterStep)
    requires
        -timestamp_bound() < now < timestamp_bound(),
    ensures
        is_registration_step(res, *payload),
        // An empty field is refused, and only then.
        res is Refuse <==> lacks_required_field(payload.username@, payload.password@),
        // The submitted username is stored and echoed unchanged.
        res matches RegisterStep::Insert(plan) ==> (plan.user.username == payload.username
            && plan.response.body@ == registration_body(payload.username@, plan.user.user_id@)),
        res matches RegisterStep::Insert(plan) ==> plan.user.created_at == now,
{
    if let Some(refusal) = check_required_fields(payload.username.as_str(), payload.password.as_str()) {
        return RegisterStep::Refuse(refusal);
    }
    let salt = generate_random_bytes();
    let hashed_password = hash_password_with_salt(payload.password.as_str(), BCRYPT_COST, salt);
    let user_id = generate_uuid();
    let user = Users {
        user_id: user_id.clone(),
        created_at: now,
        hashed_password,
        username: payload.username.clone(),
    };
    let session = issue_session(user_id, now);
    let cookie = session_cookie_header(session.session_id.as_str());
    let body = registration_body_text(user.username.as_str(), user.user_id.as_str());
    let response = json_response_with_cookie(201, cookie, body);
    RegisterStep::Insert(RegisterPlan { user, session, response })
}

/// After the user row: where its insert failed (`failure` holds the error's
/// text) the answer is 500 "Failed to execute query: <err>" and no session is
/// stored; otherwise the session row is to be inserted next.
pub fn after_user_insert(plan: RegisterPlan, failure: Option<String>) -> (res: AfterUserInsert)
    ensures
        failure is None ==> res == AfterUserInsert::InsertSession(plan),
        failure matches Some(e) ==> (res matches AfterUserInsert::Respond(r) && is_error_response(
            r,
            500,
            failed_query_message(e@),
        )),
{
    match failure {
        None => AfterUserInsert::InsertSession(plan),
        Some(e) => AfterUserInsert::Respond(answer_after_write(plan.response, Some(e))),
    }
}

/// After the session row: the plan's 201 answer where its insert went
/// through, else 500 "Failed to execute query: <err>".
pub fn after_session_insert(plan: RegisterPlan, failure: Option<String>) -> (res: ApiResponse)
    ensures
        failure is None ==> res == plan.response,
        failure matches Some(e) ==> is_error_response(res, 500, failed_query_message(e@)),
{
    answer_after_write(plan.response, failure)
}

/// A registered user can log in with the password they registered with, and
/// a login against their row never gives up: the row registration stores,
/// read back, has a user id and holds a bcrypt hash made of that password,
/// which is what `decide_login` grants a session for and never aborts on.
pub proof fn law_registered_password_is_accepted(plan: RegisterPlan, payload: RegisterRequest)
    requires
        is_registration_of(plan, payload),
    ensures
        plan.user.as_stored().user_id == Some(plan.user.user_id),
        plan.user.as_stored().hashed_password matches Some(h) && is_bcrypt_hash_of(h@, payload.password@)
            && is_bcrypt_hash(h@),
{
    let salt = choose|salt: Seq<u8>|
        salt.len() == 16 && plan.user.hashed_password@ == #[trigger] bcrypt_hash(payload.password@, BCRYPT_COST, salt);
    assert(4 <= BCRYPT_COST <= 31);
    assert(plan.user.hashed_password@ == bcrypt_hash(payload.password@, BCRYPT_COST, salt));
}

} // verus!
