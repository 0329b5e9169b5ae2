use fetcher::auth::{access_token_request, consent_url, parse_oauth2_response,
    parse_refresh_response, refresh_token_request, token_endpoint_url, AccessToken, GoogleAuth,
    TokenQuery};
use fetcher::json::JsonValue;

fn auth_with_token(expires_at: u64) -> GoogleAuth {
    let mut a = GoogleAuth::new("id".to_string(), "secret".to_string(), "refresh".to_string());
    a.access_token = Some(AccessToken { token: "tok".to_string(), expires_at });
    a
}

#[test]
fn request_exactly_at_expiry_triggers_refresh() {
    // The refresh boundary: at expires_at the token is no longer usable.
    let a = auth_with_token(1000);
    assert!(matches!(a.token_query(1000), TokenQuery::RefreshNeeded));
}

#[test]
fn request_strictly_before_expiry_uses_stored_token() {
    let a = auth_with_token(1000);
    match a.token_query(999) {
        TokenQuery::Ready(t) => assert_eq!(t, "tok"),
        _ => panic!("expected the stored token"),
    }
}

#[test]
fn fresh_credential_needs_refresh() {
    let a = GoogleAuth::new("i".to_string(), "s".to_string(), "r".to_string());
    assert!(matches!(a.token_query(0), TokenQuery::RefreshNeeded));
}

#[test]
fn apply_refresh_installs_token_until_now_plus_expiry() {
    let mut a = GoogleAuth::new("i".to_string(), "s".to_string(), "r".to_string());
    a.apply_refresh(500, "fresh".to_string(), 60);
    match a.token_query(559) {
        TokenQuery::Ready(t) => assert_eq!(t, "fresh"),
        _ => panic!("expected the fresh token before expiry"),
    }
    assert!(matches!(a.token_query(560), TokenQuery::RefreshNeeded));
}

#[test]
fn refresh_request_body_is_exact() {
    let body = refresh_token_request("cid", "cs", "code9");
    let expect = vec![
        ("client_id", "cid"),
        ("client_secret", "cs"),
        ("code", "code9"),
        ("redirect_uri", "urn:ietf:wg:oauth:2.0:oob"),
        ("grant_type", "authorization_code"),
    ];
    assert_eq!(body.len(), expect.len());
    for (got, want) in body.iter().zip(expect.iter()) {
        assert_eq!(got.0, want.0);
        assert_eq!(got.1, want.1);
    }
}

#[test]
fn access_request_body_is_exact() {
    let body = access_token_request("cid", "cs", "rtok");
    assert_eq!(body[2].0, "refresh_token");
    assert_eq!(body[2].1, "rtok");
    assert_eq!(body[4].1, "refresh_token");
}

#[test]
fn oauth2_response_reads_token_and_expiry() {
    let v = JsonValue::Object(vec![
        ("access_token".to_string(), JsonValue::Str("abc".to_string())),
        ("expires_in".to_string(), JsonValue::Int(3599)),
    ]);
    match parse_oauth2_response(&v) {
        Some((t, e)) => {
            assert_eq!(t, "abc");
            assert_eq!(e, 3599);
        }
        None => panic!("expected a parsed response"),
    }
}

#[test]
fn oauth2_response_without_token_is_rejected() {
    let v = JsonValue::Object(vec![(
        "expires_in".to_string(),
        JsonValue::Int(3599),
    )]);
    assert!(parse_oauth2_response(&v).is_none());
}

#[test]
fn refresh_response_reads_refresh_token() {
    let v = JsonValue::Object(vec![(
        "refresh_token".to_string(),
        JsonValue::Str("rt".to_string()),
    )]);
    assert_eq!(parse_refresh_response(&v).as_deref(), Some("rt"));
}

#[test]
fn endpoint_and_consent_urls_are_exact() {
    assert_eq!(token_endpoint_url(), "https://accounts.google.com/o/oauth2/token");
    assert_eq!(
        consent_url("https://mail.google.com/", "cid"),
        "https://accounts.google.com/o/oauth2/auth?scope=https://mail.google.com/&client_id=cid&response_type=code&redirect_uri=urn:ietf:wg:oauth:2.0:oob"
    );
}
