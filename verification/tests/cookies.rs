use axum_auth::common::cookies::{find_session_token, session_cookie_header};
use axum_auth::common::generate_token;

/// What the original computes: split at `;`, trim, first piece starting with `session=`.
fn reference(header: &str) -> Option<String> {
    header
        .split(';')
        .find(|c| c.trim().starts_with("session="))
        .map(|c| c.trim().strip_prefix("session=").unwrap_or("").to_string())
}

#[test]
fn session_cookie_header_has_name_value_and_path() {
    assert_eq!(session_cookie_header("abc"), "session=abc; Path=/session");
    assert_eq!(session_cookie_header(""), "session=; Path=/session");
}

#[test]
fn finds_session_token_in_cookie_headers() {
    assert_eq!(find_session_token("session=abc"), Some("abc".to_string()));
    assert_eq!(find_session_token("theme=dark; session=abc; lang=en"), Some("abc".to_string()));
    assert_eq!(find_session_token("  session=abc  "), Some("abc".to_string()));
    assert_eq!(find_session_token("session="), Some("".to_string()));
    assert_eq!(find_session_token("session=a b"), Some("a b".to_string()));
    assert_eq!(find_session_token("session=first; session=second"), Some("first".to_string()));
}

#[test]
fn no_session_token_without_a_session_cookie() {
    assert_eq!(find_session_token(""), None);
    assert_eq!(find_session_token("theme=dark; lang=en"), None);
    assert_eq!(find_session_token("xsession=abc"), None);
    assert_eq!(find_session_token("session abc"), None);
    assert_eq!(find_session_token("Session=abc"), None);
    assert_eq!(find_session_token(";;;"), None);
}

#[test]
fn unicode_white_space_is_trimmed_like_str_trim() {
    let h = "\u{3000}session=tok\u{a0}; x=1";
    assert_eq!(find_session_token(h), Some("tok".to_string()));
    assert_eq!(find_session_token(h), reference(h));
}

#[test]
fn agrees_with_split_trim_starts_with_on_many_headers() {
    let pieces = ["session=", "session=v", " session=w ", "a=b", " ", ";", "\t", "sess", "ion=", "x", "é", "\u{2003}"];
    let mut seed: u64 = 0x9e37_79b9_7f4a_7c15;
    for _ in 0..3000 {
        let mut h = String::new();
        seed ^= seed << 13;
        seed ^= seed >> 7;
        seed ^= seed << 17;
        let n = (seed % 7) as usize;
        let mut s = seed;
        for _ in 0..n {
            h.push_str(pieces[(s % pieces.len() as u64) as usize]);
            s /= pieces.len() as u64;
        }
        assert_eq!(find_session_token(&h), reference(&h), "header {:?}", h);
    }
}

#[test]
fn issued_cookie_is_read_back_from_returned_headers() {
    let token = generate_token();
    let set_cookie = session_cookie_header(&token);
    assert_eq!(find_session_token(&set_cookie), Some(token.clone()));
    let pair = format!("session={}", token);
    assert_eq!(find_session_token(&pair), Some(token.clone()));
    let header = format!("theme=dark; {}; lang=en", pair);
    assert_eq!(find_session_token(&header), Some(token));
}
