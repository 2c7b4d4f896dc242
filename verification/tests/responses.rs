use axum_auth::common::error::{json_response, message_body_text, return_response_error};
use axum_auth::common::structs::{SessionsQuery, UserParams};
use axum_auth::handler::public::public_view_response;
use axum_auth::handler::session::getuser::get_profile_response;
use axum_auth::handler::session::logout::{answer_logout, plan_logout};

#[test]
fn error_response_has_sorted_json_body() {
    let r = return_response_error("All fields required.".to_string(), 400);
    assert_eq!(r.status, 400);
    assert_eq!(r.content_type, "application/json");
    assert!(r.set_cookie.is_none());
    assert_eq!(r.body, r#"{"data":{"message":"All fields required."},"success":false}"#);
}

#[test]
fn message_is_escaped_as_a_json_string() {
    let body = message_body_text(true, "say \"hi\"\n\\");
    assert_eq!(body, r#"{"data":{"message":"say \"hi\"\n\\"},"success":true}"#);
    let parsed: serde_json::Value = serde_json::from_str(&body).unwrap();
    assert_eq!(parsed["data"]["message"], "say \"hi\"\n\\");
    assert_eq!(parsed["success"], true);
}

#[test]
fn json_response_keeps_status_and_body() {
    let r = json_response(204, "{}".to_string());
    assert_eq!(r.status, 204);
    assert_eq!(r.body, "{}");
    assert!(r.set_cookie.is_none());
}

#[test]
fn public_view_message() {
    let r = public_view_response();
    assert_eq!(r.status, 200);
    assert_eq!(r.content_type, "application/json");
    assert_eq!(r.body, r#"{"data":{"message":"This message is available to all users."},"success":true}"#);
}

fn session_of(user_id: &str) -> SessionsQuery {
    SessionsQuery {
        session_id: Some("tok".to_string()),
        user_id: Some(user_id.to_string()),
        created_at: Some(0),
        expire_at: Some(172_800),
    }
}

#[test]
fn profile_of_the_session_owner() {
    let r = get_profile_response(&session_of("u-1"), &UserParams { user_id: "u-1".to_string() });
    assert_eq!(r.status, 200);
    assert_eq!(r.body, r#"{"data":{"message":"Logged in as user with id: \"u-1\""},"success":true}"#);
}

#[test]
fn profile_id_is_shown_in_debug_form() {
    let id = "a\"b";
    let r = get_profile_response(&session_of(id), &UserParams { user_id: id.to_string() });
    let parsed: serde_json::Value = serde_json::from_str(&r.body).unwrap();
    assert_eq!(parsed["data"]["message"], format!("Logged in as user with id: {:?}", id));
}

#[test]
fn profile_of_another_user_is_forbidden() {
    let r = get_profile_response(&session_of("u-1"), &UserParams { user_id: "u-2".to_string() });
    assert_eq!(r.status, 403);
    assert_eq!(r.body, r#"{"data":{"message":"You are not authorized to view this profile"},"success":false}"#);
}

#[test]
fn logout_clears_the_cookie_and_names_the_session() {
    let plan = plan_logout("theme=dark; session=abc");
    assert_eq!(plan.token, Some("abc".to_string()));
    assert_eq!(plan.response.status, 200);
    assert_eq!(plan.response.set_cookie, Some("session=; Path=/session".to_string()));
    assert_eq!(plan.response.body, r#"{"data":{"message":"User logged out."},"success":true}"#);
}

#[test]
fn logout_without_session_cookie_still_succeeds() {
    let plan = plan_logout("");
    assert_eq!(plan.token, None);
    assert_eq!(plan.response.status, 200);
    assert_eq!(plan.response.set_cookie, Some("session=; Path=/session".to_string()));
}

#[test]
fn failed_deletion_on_logout_answers_401() {
    let plan = plan_logout("session=abc");
    let r = answer_logout(plan, true);
    assert_eq!(r.status, 401);
    assert!(r.set_cookie.is_none());
    assert_eq!(r.body, r#"{"data":{"message":"Could not log out."},"success":false}"#);
}

#[test]
fn successful_deletion_on_logout_answers_200() {
    let plan = plan_logout("session=abc");
    let r = answer_logout(plan, false);
    assert_eq!(r.status, 200);
    assert_eq!(r.set_cookie, Some("session=; Path=/session".to_string()));
}

#[test]
fn control_characters_are_written_as_serde_json_writes_them() {
    let body = message_body_text(false, "a\u{1}b\u{8}\u{c}\t\r\u{1f}\u{7f}é/");
    assert_eq!(body, "{\"data\":{\"message\":\"a\\u0001b\\b\\f\\t\\r\\u001f\u{7f}é/\"},\"success\":false}");
    let parsed: serde_json::Value = serde_json::from_str(&body).unwrap();
    assert_eq!(parsed["data"]["message"], "a\u{1}b\u{8}\u{c}\t\r\u{1f}\u{7f}é/");
}
