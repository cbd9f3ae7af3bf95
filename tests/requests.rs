use finreport::session_client::{
    password_token_result, patch_result, session_status_result, token_exchange_result,
    validation_result, HttpRequest, Method, RequestBody, SessionClient, SessionClientError,
};
use finreport::session_model::{
    AuthenticationInfo, AuthenticationInfoLink, OAuthResponse, Session, SessionStatus,
    XOnceAuthenticationInfo,
};

fn client() -> SessionClient {
    SessionClient::new(
        "https://api.example".to_string(),
        "https://auth.example".to_string(),
        "cid".to_string(),
        "secret".to_string(),
        "user".to_string(),
        "pin".to_string(),
        reqwest::Client::new(),
    )
}

fn session() -> Session {
    Session {
        access_token: "tok".to_string(),
        session_uuid: "sid".to_string(),
        refresh_token: "ref".to_string(),
    }
}

fn token() -> OAuthResponse {
    OAuthResponse {
        access_token: "a".to_string(),
        token_type: "bearer".to_string(),
        refresh_token: "r".to_string(),
        client_id: "k".to_string(),
        bpid: 0,
        contact_id: 0,
        expires_in: 599,
        scope: "s".to_string(),
    }
}

fn status(tan: bool, activated: bool) -> SessionStatus {
    SessionStatus { identifier: "id".to_string(), session_tan_active: tan, activated_2fa: activated }
}

fn header<'a>(r: &'a HttpRequest, name: &str) -> Option<&'a str> {
    r.headers.iter().find(|(n, _)| n == name).map(|(_, v)| v.as_str())
}

fn form(r: &HttpRequest) -> Vec<(String, String)> {
    match &r.body {
        RequestBody::Form(f) => f.clone(),
        other => panic!("unexpected body {:?}", other),
    }
}

fn pairs(items: &[(&str, &str)]) -> Vec<(String, String)> {
    items.iter().map(|(a, b)| (a.to_string(), b.to_string())).collect()
}

#[test]
fn new_client_gets_correlation_id() {
    let c = client();
    assert_eq!(c.url, "https://api.example");
    assert_eq!(c.oauth_url, "https://auth.example");
    assert_eq!(c.username, "user");
    let id: Vec<char> = c.session_id.chars().collect();
    assert_eq!(id.len(), 36);
    assert_eq!((id[8], id[13], id[18], id[23]), ('-', '-', '-', '-'));
    assert_eq!(id[14], '4');
    assert!(matches!(id[19], '8' | '9' | 'a' | 'b'));
    assert!(id.iter().all(|ch| *ch == '-' || ch.is_ascii_digit() || ('a'..='f').contains(ch)));
    assert_ne!(c.session_id, client().session_id);
}

#[test]
fn status_request_shape() {
    let c = client();
    let r = c.status_request(&session(), "42");
    assert_eq!(r.method, Method::Get);
    assert_eq!(r.url, "https://api.example/session/clients/user/v1/sessions");
    assert_eq!(header(&r, "accept"), Some("application/json"));
    assert_eq!(header(&r, "authorization"), Some("Bearer tok"));
    let info = format!(
        "{{\"clientRequestId\":{{\"sessionId\":\"{}\",\"requestId\":\"42\"}}}}",
        c.session_id
    );
    assert_eq!(header(&r, "x-http-request-info"), Some(info.as_str()));
    assert!(matches!(r.body, RequestBody::Empty));
}

#[test]
fn validate_request_shape() {
    let r = client().validate_request(&session(), "7");
    assert_eq!(r.method, Method::Post);
    assert_eq!(r.url, "https://api.example/session/clients/user/v1/sessions/sid/validate");
    assert_eq!(header(&r, "authorization"), Some("Bearer tok"));
    match &r.body {
        RequestBody::Json(t) => assert_eq!(
            t,
            "{\"identifier\":\"sid\",\"sessionTanActive\":true,\"activated2FA\":true}"
        ),
        other => panic!("unexpected body {:?}", other),
    }
}

#[test]
fn patch_request_shape() {
    let ch = XOnceAuthenticationInfo { challenge_id: "c-1".to_string() };
    let r = client().patch_request(&session(), &ch, "7");
    assert_eq!(r.method, Method::Patch);
    assert_eq!(r.url, "https://api.example/session/clients/user/v1/sessions/sid");
    assert_eq!(header(&r, "x-once-authentication-info"), Some("{\"id\":\"c-1\"}"));
    assert_eq!(header(&r, "x-once-authentication"), Some("000000"));
    assert_eq!(header(&r, "authorization"), Some("Bearer tok"));
    assert_eq!(r.headers.len(), 5);
}

#[test]
fn password_grant_shape() {
    let r = client().password_grant_request();
    assert_eq!(r.method, Method::Post);
    assert_eq!(r.url, "https://auth.example/oauth/token");
    assert_eq!(header(&r, "content-type"), Some("application/x-www-form-urlencoded"));
    assert_eq!(
        form(&r),
        pairs(&[
            ("client_id", "cid"),
            ("client_secret", "secret"),
            ("username", "user"),
            ("password", "pin"),
            ("grant_type", "password"),
        ])
    );
}

#[test]
fn secondary_flow_shape() {
    let r = client().secondary_flow_request(&session());
    assert_eq!(r.url, "https://auth.example/oauth/token");
    assert_eq!(
        form(&r),
        pairs(&[
            ("client_id", "cid"),
            ("client_secret", "secret"),
            ("token", "tok"),
            ("grant_type", "cd_secondary"),
        ])
    );
}

#[test]
fn refresh_grant_shape() {
    let r = client().refresh_token_request(&session());
    assert_eq!(
        form(&r),
        pairs(&[
            ("client_id", "cid"),
            ("client_secret", "secret"),
            ("refresh_token", "ref"),
            ("grant_type", "refresh_token"),
        ])
    );
}

#[test]
fn status_result_cases() {
    let ok = session_status_result(Some(200), Some(vec![status(true, true), status(false, false)]));
    assert!(ok.unwrap().is_valid());
    assert_eq!(session_status_result(Some(200), Some(vec![])).unwrap_err(), SessionClientError::Unknown);
    assert_eq!(session_status_result(Some(200), None).unwrap_err(), SessionClientError::Unknown);
    assert_eq!(
        session_status_result(Some(401), Some(vec![status(true, true)])).unwrap_err(),
        SessionClientError::Unauthorized
    );
    assert_eq!(session_status_result(Some(500), None).unwrap_err(), SessionClientError::Unknown);
    assert_eq!(session_status_result(None, None).unwrap_err(), SessionClientError::Unknown);
}

#[test]
fn validation_result_cases() {
    let info = AuthenticationInfo {
        challenge_id: "c-1".to_string(),
        typ: "P_TAN_PUSH".to_string(),
        available_types: vec!["P_TAN_PUSH".to_string()],
        link: AuthenticationInfoLink {
            rel: "r".to_string(),
            method: "PATCH".to_string(),
            content_type: "application/json".to_string(),
        },
    };
    assert_eq!(validation_result(Some(201), Some(info)).unwrap().challenge_id, "c-1");
    assert_eq!(validation_result(Some(201), None).unwrap_err(), SessionClientError::Unknown);
    assert_eq!(validation_result(Some(200), None).unwrap_err(), SessionClientError::Unknown);
    assert_eq!(validation_result(Some(401), None).unwrap_err(), SessionClientError::Unauthorized);
}

#[test]
fn patch_result_cases() {
    assert!(patch_result(Some(200), Some(status(true, true))).unwrap().is_valid());
    assert_eq!(patch_result(Some(200), None).unwrap_err(), SessionClientError::Unknown);
    assert_eq!(patch_result(Some(403), Some(status(true, true))).unwrap_err(), SessionClientError::Unknown);
    assert_eq!(patch_result(Some(401), None).unwrap_err(), SessionClientError::Unauthorized);
}

#[test]
fn token_result_cases() {
    assert_eq!(password_token_result(Some(200), Some(token())).unwrap().access_token, "a");
    assert_eq!(password_token_result(Some(204), Some(token())).unwrap().refresh_token, "r");
    assert!(password_token_result(Some(400), Some(token())).is_err());
    assert!(password_token_result(Some(200), None).is_err());
    assert!(password_token_result(None, None).is_err());
    assert_eq!(token_exchange_result(Some(200), Some(token())).unwrap().access_token, "a");
    assert_eq!(token_exchange_result(Some(201), Some(token())).unwrap_err(), SessionClientError::Unknown);
    assert_eq!(token_exchange_result(Some(401), None).unwrap_err(), SessionClientError::Unknown);
}
