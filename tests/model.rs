use finreport::loader::SessionLoader;
use finreport::session_model::{
    HttpRequestInfoHeader, OAuthResponse, Session, SessionStatus, XOnceAuthenticationInfo,
};
use finreport::utils::{request_id, request_id_from_millis};

fn token(access: &str, refresh: &str) -> OAuthResponse {
    OAuthResponse {
        access_token: access.to_string(),
        token_type: "bearer".to_string(),
        refresh_token: refresh.to_string(),
        client_id: "kdnr".to_string(),
        bpid: 1,
        contact_id: 2,
        expires_in: 599,
        scope: "TWO_FACTOR".to_string(),
    }
}

#[test]
fn from_oauth_takes_tokens_and_new_id() {
    let a = Session::from_oauth(token("acc", "ref"));
    let b = Session::from_oauth(token("acc", "ref"));
    assert_eq!(a.access_token, "acc");
    assert_eq!(a.refresh_token, "ref");
    assert!(is_uuid_v4_text(&a.session_uuid));
    assert_ne!(a.session_uuid, b.session_uuid);
}

#[test]
fn refreshed_session_keeps_id() {
    let s = Session {
        access_token: "a".to_string(),
        session_uuid: "id".to_string(),
        refresh_token: "r".to_string(),
    };
    let t = s.refreshed_session(token("a2", "r2"));
    assert_eq!(t.access_token, "a2");
    assert_eq!(t.refresh_token, "r2");
    assert_eq!(t.session_uuid, "id");
}

#[test]
fn session_json_has_three_fields() {
    let s = Session {
        access_token: "test_access_token".to_string(),
        session_uuid: "test_session_id".to_string(),
        refresh_token: "test_refresh_token".to_string(),
    };
    assert_eq!(
        s.to_json(),
        "{\"access_token\":\"test_access_token\",\"session_uuid\":\"test_session_id\",\"refresh_token\":\"test_refresh_token\"}"
    );
}

#[test]
fn json_strings_are_escaped() {
    let s = Session {
        access_token: "a\"b".to_string(),
        session_uuid: "x\\y".to_string(),
        refresh_token: "line\n".to_string(),
    };
    assert_eq!(
        s.to_json(),
        "{\"access_token\":\"a\\\"b\",\"session_uuid\":\"x\\\\y\",\"refresh_token\":\"line\\n\"}"
    );
}

#[test]
fn status_json_and_validity() {
    let st = SessionStatus {
        identifier: "id-1".to_string(),
        session_tan_active: true,
        activated_2fa: false,
    };
    assert!(!st.is_valid());
    assert_eq!(
        st.to_json(),
        "{\"identifier\":\"id-1\",\"sessionTanActive\":true,\"activated2FA\":false}"
    );
    let ok = SessionStatus {
        identifier: "id-1".to_string(),
        session_tan_active: true,
        activated_2fa: true,
    };
    assert!(ok.is_valid());
}

#[test]
fn challenge_json() {
    let ch = XOnceAuthenticationInfo { challenge_id: "c-1".to_string() };
    assert_eq!(ch.to_json(), "{\"id\":\"c-1\"}");
}

#[test]
fn info_header_json() {
    let h = HttpRequestInfoHeader::from("sess".to_string(), "123456789".to_string());
    assert_eq!(h.client_request_id.session_id, "sess");
    assert_eq!(h.client_request_id.request_id, "123456789");
    assert_eq!(
        h.to_json(),
        "{\"clientRequestId\":{\"sessionId\":\"sess\",\"requestId\":\"123456789\"}}"
    );
}

#[test]
fn request_id_keeps_last_nine_digits() {
    assert_eq!(request_id_from_millis(1700000000123), "000000123");
    assert_eq!(request_id_from_millis(1718000123456), "000123456");
    assert_eq!(request_id_from_millis(987654321), "987654321");
    assert_eq!(request_id_from_millis(1234), "1234");
    assert_eq!(request_id_from_millis(0), "0");
    assert_eq!(request_id_from_millis(1000000000), "000000000");
}

#[test]
fn request_id_is_short_and_numeric() {
    let id = request_id();
    assert!(!id.is_empty());
    assert!(id.len() <= 9);
    assert!(id.chars().all(|c| c.is_ascii_digit()));
}

#[test]
fn loader_keeps_path() {
    let l = SessionLoader::new("/tmp/session.json".to_string());
    assert_eq!(l.path, "/tmp/session.json");
}

/// Hyphenated lowercase hex, version digit 4, RFC 4122 variant digit.
pub fn is_uuid_v4_text(s: &str) -> bool {
    let c: Vec<char> = s.chars().collect();
    c.len() == 36
        && c.iter().enumerate().all(|(i, ch)| {
            if i == 8 || i == 13 || i == 18 || i == 23 {
                *ch == '-'
            } else {
                ch.is_ascii_digit() || ('a'..='f').contains(ch)
            }
        })
        && c[14] == '4'
        && matches!(c[19], '8' | '9' | 'a' | 'b')
}

#[test]
fn json_control_characters_use_unicode_escape() {
    let ch = XOnceAuthenticationInfo { challenge_id: "a\u{1}b\tc".to_string() };
    assert_eq!(ch.to_json(), "{\"id\":\"a\\u0001b\\tc\"}");
}
