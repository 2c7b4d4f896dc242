use axum_auth::common::issue_session;
use axum_auth::common::structs::SessionsQuery;
use axum_auth::middleware::session::{judge_session, judge_session_at, session_gate, GateStep, SessionVerdict};

const UNAUTHORIZED: &str = r#"{"data":{"message":"You are not authorized to perform this action."},"success":false}"#;

fn stored(expire_at: Option<i64>) -> SessionsQuery {
    SessionsQuery {
        session_id: Some("tok".to_string()),
        user_id: Some("u-1".to_string()),
        created_at: Some(100),
        expire_at,
    }
}

#[test]
fn gate_without_database() {
    match session_gate(false, Some("session=abc")) {
        GateStep::Respond(r) => {
            assert_eq!(r.status, 500);
            assert_eq!(r.body, r#"{"data":{"message":"Database connection not found."},"success":false}"#);
        }
        GateStep::LookUp(_) => panic!("expected a response"),
    }
}

#[test]
fn gate_without_cookie_header() {
    match session_gate(true, None) {
        GateStep::Respond(r) => {
            assert_eq!(r.status, 401);
            assert_eq!(r.body, UNAUTHORIZED);
        }
        GateStep::LookUp(_) => panic!("expected a response"),
    }
}

#[test]
fn gate_without_session_cookie() {
    match session_gate(true, Some("theme=dark")) {
        GateStep::Respond(r) => assert_eq!(r.status, 401),
        GateStep::LookUp(_) => panic!("expected a response"),
    }
}

#[test]
fn gate_looks_up_the_session_token() {
    match session_gate(true, Some("theme=dark; session=abc")) {
        GateStep::LookUp(t) => assert_eq!(t, "abc"),
        GateStep::Respond(_) => panic!("expected a lookup"),
    }
}

#[test]
fn unknown_session_is_rejected() {
    match judge_session_at("abc", None, 0) {
        SessionVerdict::Reject(r) => {
            assert_eq!(r.status, 401);
            assert_eq!(r.body, r#"{"data":{"message":"You are not logged in."},"success":false}"#);
        }
        _ => panic!("expected a rejection"),
    }
}

#[test]
fn live_session_is_admitted_up_to_its_expiry() {
    for now in [100, 150, 200] {
        match judge_session_at("tok", Some(stored(Some(200))), now) {
            SessionVerdict::Admit(s) => assert_eq!(s.user_id, Some("u-1".to_string())),
            _ => panic!("expected admission at {}", now),
        }
    }
}

#[test]
fn expired_session_is_cleared() {
    match judge_session_at("tok", Some(stored(Some(200))), 201) {
        SessionVerdict::Expired(r) => {
            assert_eq!(r.status, 401);
            assert_eq!(r.set_cookie, Some("session=; Path=/session".to_string()));
            assert_eq!(r.body, r#"{"data":{"message":"Session tok expired"},"success":false}"#);
        }
        _ => panic!("expected expiry"),
    }
}

#[test]
fn session_without_expiry_counts_as_expired() {
    assert!(matches!(judge_session_at("tok", Some(stored(None)), 0), SessionVerdict::Expired(_)));
}

#[test]
fn fresh_session_is_admitted_now() {
    let s = issue_session("u-1".to_string(), chrono::Utc::now().timestamp());
    let q = SessionsQuery {
        session_id: Some(s.session_id.clone()),
        user_id: Some(s.user_id.clone()),
        created_at: Some(s.created_at),
        expire_at: Some(s.expire_at),
    };
    assert!(matches!(judge_session(&s.session_id, Some(q)), SessionVerdict::Admit(_)));
}

#[test]
fn session_lasts_exactly_two_days() {
    let s = issue_session("u-1".to_string(), 1_000);
    let q = SessionsQuery {
        session_id: Some(s.session_id.clone()),
        user_id: Some(s.user_id.clone()),
        created_at: Some(s.created_at),
        expire_at: Some(s.expire_at),
    };
    assert!(matches!(judge_session_at(&s.session_id, Some(q.clone()), 1_000 + 172_800), SessionVerdict::Admit(_)));
    assert!(matches!(judge_session_at(&s.session_id, Some(q), 1_000 + 172_801), SessionVerdict::Expired(_)));
}

#[test]
fn expired_message_echoes_the_token() {
    match judge_session_at("t\"k", Some(stored(Some(0))), 1) {
        SessionVerdict::Expired(r) => {
            let v: serde_json::Value = serde_json::from_str(&r.body).unwrap();
            assert_eq!(v["data"]["message"], "Session t\"k expired");
        }
        _ => panic!("expected expiry"),
    }
}
