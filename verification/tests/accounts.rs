use axum_auth::common::error::{answer_after_write, check_required_fields};
use axum_auth::common::structs::{LoginRequest, RegisterRequest, UsersQuery};
use axum_auth::handler::session::login::{decide_login, decide_login_at, LoginDecision};
use axum_auth::handler::session::register::{
    after_session_insert, after_user_insert, plan_registration, plan_registration_at, AfterUserInsert, RegisterPlan,
    RegisterStep,
};

fn planned(req: &RegisterRequest) -> RegisterPlan {
    match plan_registration(req) {
        RegisterStep::Insert(plan) => plan,
        RegisterStep::Refuse(_) => panic!("expected a plan"),
    }
}

const ALL_FIELDS: &str = r#"{"data":{"message":"All fields required."},"success":false}"#;

fn stored_row(user_id: Option<&str>, hash: Option<&str>) -> UsersQuery {
    UsersQuery {
        user_id: user_id.map(|s| s.to_string()),
        created_at: Some(0),
        hashed_password: hash.map(|s| s.to_string()),
        username: Some("alice".to_string()),
    }
}

fn login(password: &str) -> LoginRequest {
    LoginRequest { username: "alice".to_string(), password: password.to_string() }
}

// A bcrypt hash of "password" with cost 4, from the bcrypt crate's own tests.
const HASH_OF_PASSWORD: &str = "$2a$04$UuTkLRZZ6QofpDOlMz32MuuxEHA43WOemOYHPz6.SjsVsyO1tDU96";

#[test]
fn registration_plans_user_session_and_answer() {
    let req = RegisterRequest { username: "alice".to_string(), password: "s3cret".to_string() };
    let plan = planned(&req);
    assert_eq!(plan.user.username, "alice");
    assert_eq!(plan.user.user_id.len(), 36);
    assert!(plan.user.hashed_password.starts_with("$2y$12$"));
    assert_eq!(plan.user.hashed_password.len(), 60);
    assert_ne!(plan.user.hashed_password, "s3cret");
    assert!(bcrypt::verify("s3cret", &plan.user.hashed_password).unwrap());
    assert_eq!(plan.session.user_id, plan.user.user_id);
    assert_eq!(plan.session.created_at, plan.user.created_at);
    assert_eq!(plan.session.expire_at, plan.session.created_at + 172_800);
    assert_eq!(plan.response.status, 201);
    assert_eq!(plan.response.set_cookie, Some(format!("session={}; Path=/session", plan.session.session_id)));
    assert_eq!(
        plan.response.body,
        format!(
            r#"{{"data":{{"message":"User created."}},"success":true,"userInfo":{{"id":"{}","username":"alice"}}}}"#,
            plan.user.user_id
        )
    );
}

#[test]
fn registration_with_empty_fields_is_refused() {
    for (u, p) in [("", "pw"), ("alice", ""), ("", "")] {
        let req = RegisterRequest { username: u.to_string(), password: p.to_string() };
        match plan_registration(&req) {
            RegisterStep::Refuse(r) => {
                assert_eq!(r.status, 400);
                assert!(r.set_cookie.is_none());
                assert_eq!(r.body, ALL_FIELDS);
            }
            RegisterStep::Insert(_) => panic!("expected a refusal"),
        }
    }
}

#[test]
fn failed_user_insert_answers_500_and_stores_no_session() {
    let plan = planned(&RegisterRequest { username: "alice".to_string(), password: "pw".to_string() });
    match after_user_insert(plan, Some("UNIQUE constraint failed: users.username".to_string())) {
        AfterUserInsert::Respond(r) => {
            assert_eq!(r.status, 500);
            assert!(r.set_cookie.is_none());
            assert_eq!(
                r.body,
                r#"{"data":{"message":"Failed to execute query: UNIQUE constraint failed: users.username"},"success":false}"#
            );
        }
        AfterUserInsert::InsertSession(_) => panic!("expected an answer"),
    }
}

#[test]
fn stored_rows_answer_201_and_failed_session_insert_500() {
    let plan = planned(&RegisterRequest { username: "alice".to_string(), password: "pw".to_string() });
    let plan = match after_user_insert(plan, None) {
        AfterUserInsert::InsertSession(plan) => plan,
        AfterUserInsert::Respond(_) => panic!("expected the session insert"),
    };
    let token = plan.session.session_id.clone();
    let ok = after_session_insert(plan, None);
    assert_eq!(ok.status, 201);
    assert_eq!(ok.set_cookie, Some(format!("session={}; Path=/session", token)));

    let plan = planned(&RegisterRequest { username: "bob".to_string(), password: "pw".to_string() });
    let r = after_session_insert(plan, Some("disk full".to_string()));
    assert_eq!(r.status, 500);
    assert!(r.set_cookie.is_none());
    assert_eq!(r.body, r#"{"data":{"message":"Failed to execute query: disk full"},"success":false}"#);
}

#[test]
fn registered_user_logs_in_with_the_same_password() {
    let req = RegisterRequest { username: "alice".to_string(), password: "s3cret".to_string() };
    let plan = planned(&req);
    let row = UsersQuery {
        user_id: Some(plan.user.user_id.clone()),
        created_at: Some(plan.user.created_at),
        hashed_password: Some(plan.user.hashed_password.clone()),
        username: Some(plan.user.username.clone()),
    };
    match decide_login(&login("s3cret"), Some(row)) {
        LoginDecision::Grant { session, response } => {
            assert_eq!(session.user_id, plan.user.user_id);
            assert_eq!(session.expire_at, session.created_at + 172_800);
            assert_eq!(session.session_id.len(), 64);
            assert_eq!(response.status, 200);
            assert_eq!(response.set_cookie, Some(format!("session={}; Path=/session", session.session_id)));
            assert_eq!(response.body, r#"{"data":{"message":"User logged in."},"success":true}"#);
        }
        _ => panic!("expected a session"),
    }
}

#[test]
fn empty_login_fields_are_refused_before_anything_else() {
    let req = LoginRequest { username: String::new(), password: String::new() };
    match decide_login(&req, None) {
        LoginDecision::Refuse(r) => {
            assert_eq!(r.status, 400);
            assert_eq!(r.body, ALL_FIELDS);
        }
        _ => panic!("expected a refusal"),
    }
    let req = LoginRequest { username: "alice".to_string(), password: String::new() };
    assert!(matches!(
        decide_login(&req, Some(stored_row(Some("u-1"), Some(HASH_OF_PASSWORD)))),
        LoginDecision::Refuse(_)
    ));
    assert!(check_required_fields("alice", "").is_some());
    assert!(check_required_fields("", "pw").is_some());
    assert!(check_required_fields("alice", "pw").is_none());
}

#[test]
fn failed_session_insert_on_login_answers_500() {
    match decide_login(&login("password"), Some(stored_row(Some("u-1"), Some(HASH_OF_PASSWORD)))) {
        LoginDecision::Grant { response, .. } => {
            let r = answer_after_write(response, Some("database is locked".to_string()));
            assert_eq!(r.status, 500);
            assert!(r.set_cookie.is_none());
            assert_eq!(r.body, r#"{"data":{"message":"Failed to execute query: database is locked"},"success":false}"#);
        }
        _ => panic!("expected a session"),
    }
}

#[test]
fn registered_row_never_aborts_a_login() {
    let plan = planned(&RegisterRequest { username: "alice".to_string(), password: "right".to_string() });
    let row = UsersQuery {
        user_id: Some(plan.user.user_id.clone()),
        created_at: Some(plan.user.created_at),
        hashed_password: Some(plan.user.hashed_password.clone()),
        username: Some(plan.user.username.clone()),
    };
    assert!(matches!(decide_login(&login("wrong"), Some(row)), LoginDecision::Refuse(_)));
}

#[test]
fn unknown_user_gets_500() {
    match decide_login(&login("x"), None) {
        LoginDecision::Refuse(r) => {
            assert_eq!(r.status, 500);
            assert_eq!(r.body, r#"{"data":{"message":"Invalid username or password"},"success":false}"#);
        }
        _ => panic!("expected a refusal"),
    }
}

#[test]
fn wrong_password_gets_401() {
    match decide_login(&login("wrong"), Some(stored_row(Some("u-1"), Some(HASH_OF_PASSWORD)))) {
        LoginDecision::Refuse(r) => {
            assert_eq!(r.status, 401);
            assert_eq!(r.body, r#"{"data":{"message":"Invalid username or password."},"success":false}"#);
        }
        _ => panic!("expected a refusal"),
    }
}

#[test]
fn right_password_opens_a_session() {
    match decide_login(&login("password"), Some(stored_row(Some("u-1"), Some(HASH_OF_PASSWORD)))) {
        LoginDecision::Grant { session, .. } => assert_eq!(session.user_id, "u-1"),
        _ => panic!("expected a session"),
    }
}

#[test]
fn unreadable_hash_aborts() {
    assert!(matches!(decide_login(&login("x"), Some(stored_row(Some("u-1"), Some("not a hash")))), LoginDecision::Abort));
}

#[test]
fn row_without_hash_aborts() {
    assert!(matches!(decide_login(&login("x"), Some(stored_row(Some("u-1"), None))), LoginDecision::Abort));
}

#[test]
fn row_without_user_id_aborts_only_on_success() {
    assert!(matches!(decide_login(&login("password"), Some(stored_row(None, Some(HASH_OF_PASSWORD)))), LoginDecision::Abort));
    assert!(matches!(decide_login(&login("wrong"), Some(stored_row(None, Some(HASH_OF_PASSWORD)))), LoginDecision::Refuse(_)));
}

#[test]
fn login_at_a_given_time_creates_the_session_then() {
    match decide_login_at(&login("password"), Some(stored_row(Some("u-1"), Some(HASH_OF_PASSWORD))), 1_700_000_000) {
        LoginDecision::Grant { session, .. } => {
            assert_eq!(session.created_at, 1_700_000_000);
            assert_eq!(session.expire_at, 1_700_000_000 + 172_800);
        }
        _ => panic!("expected a session"),
    }
}

#[test]
fn login_now_creates_the_session_now() {
    let before = chrono::Utc::now().timestamp();
    match decide_login(&login("password"), Some(stored_row(Some("u-1"), Some(HASH_OF_PASSWORD)))) {
        LoginDecision::Grant { session, .. } => {
            let after = chrono::Utc::now().timestamp();
            assert!(before <= session.created_at && session.created_at <= after);
        }
        _ => panic!("expected a session"),
    }
}

#[test]
fn registration_at_a_given_time_creates_user_and_session_then() {
    let req = RegisterRequest { username: "alice".to_string(), password: "pw".to_string() };
    match plan_registration_at(&req, 1_600_000_000) {
        RegisterStep::Insert(plan) => {
            assert_eq!(plan.user.created_at, 1_600_000_000);
            assert_eq!(plan.session.created_at, 1_600_000_000);
            assert_eq!(plan.session.expire_at, 1_600_000_000 + 172_800);
        }
        RegisterStep::Refuse(_) => panic!("expected a plan"),
    }
}

#[test]
fn registration_now_creates_the_user_now() {
    let before = chrono::Utc::now().timestamp();
    let plan = planned(&RegisterRequest { username: "alice".to_string(), password: "pw".to_string() });
    let after = chrono::Utc::now().timestamp();
    assert!(before <= plan.user.created_at && plan.user.created_at <= after);
}
