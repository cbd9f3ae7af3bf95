use vstd::prelude::*;

use crate::json::{json_bool, json_string_of, push_json_bool, push_json_string};
use crate::session_client::{is_uuid_v4_text, new_uuid_string};

verus! {

/// A session record: bearer token, rotation token and the session's identifier.
/// This is also what is persisted between runs.
#[derive(Debug, PartialEq, Eq, Default)]
pub struct Session {
    pub access_token: String,
    pub session_uuid: String,
    pub refresh_token: String,
}

/// The token pair (and account data) returned by every grant of the token endpoint.
#[derive(Debug)]
pub struct OAuthResponse {
    pub access_token: String,
    pub token_type: String,
    pub refresh_token: String,
    pub client_id: String,
    pub bpid: u64,
    pub contact_id: u64,
    pub expires_in: u32,
    pub scope: String,
}

/// The server-side state of a session: its identifier and its two activation flags.
#[derive(Debug, Default)]
pub struct SessionStatus {
    pub identifier: String,
    pub session_tan_active: bool,
    pub activated_2fa: bool,
}

/// The challenge returned by a validation request, consumed by the patch that follows.
#[derive(Debug)]
pub struct XOnceAuthenticationInfo {
    pub challenge_id: String,
}

/// The challenge descriptor that the validation response carries in a header.
#[derive(Debug)]
pub struct AuthenticationInfo {
    pub challenge_id: String,
    pub typ: String,
    pub available_types: Vec<String>,
    pub link: AuthenticationInfoLink,
}

/// Where and how a challenge is to be answered.
#[derive(Debug)]
pub struct AuthenticationInfoLink {
    pub rel: String,
    pub method: String,
    pub content_type: String,
}

/// The correlation header sent with every authenticated request.
#[derive(Debug)]
pub struct HttpRequestInfoHeader {
    pub client_request_id: ClientRequestId,
}

/// The two parts of a request correlation id.
#[derive(Debug)]
pub struct ClientRequestId {
    pub session_id: String,
    pub request_id: String,
}

/// The JSON text of a correlation header.
pub open spec fn info_header_json(session_id: Seq<char>, request_id: Seq<char>) -> Seq<char> {
    "{\"clientRequestId\":{\"sessionId\":"@ + json_string_of(session_id) + ",\"requestId\":"@
        + json_string_of(request_id) + "}}"@
}

/// The JSON text of a session status record.
pub open spec fn session_status_json(identifier: Seq<char>, tan_active: bool, activated: bool) -> Seq<
    char,
> {
    "{\"identifier\":"@ + json_string_of(identifier) + ",\"sessionTanActive\":"@ + json_bool(
        tan_active,
    ) + ",\"activated2FA\":"@ + json_bool(activated) + "}"@
}

/// The JSON text of a challenge reference.
pub open spec fn challenge_json(challenge_id: Seq<char>) -> Seq<char> {
    "{\"id\":"@ + json_string_of(challenge_id) + "}"@
}

/// The JSON text of a persisted session.
pub open spec fn session_json(s: Session) -> Seq<char> {
    "{\"access_token\":"@ + json_string_of(s.access_token@) + ",\"session_uuid\":"@
        + json_string_of(s.session_uuid@) + ",\"refresh_token\":"@ + json_string_of(
        s.refresh_token@,
    ) + "}"@
}

impl Session {
    /// A fresh session made of the tokens of `oauth_response` and a newly
    /// generated local session id.
    pub fn from_oauth(oauth_response: OAuthResponse) -> (r: Session)
        ensures
            r.access_token == oauth_response.access_token,
            r.refresh_token == oauth_response.refresh_token,
            is_uuid_v4_text(r.session_uuid@),
    {
        Session {
            access_token: oauth_response.access_token,
            session_uuid: new_uuid_string(),
            refresh_token: oauth_response.refresh_token,
        }
    }

    /// A copy of this session, field by field.
    pub fn duplicate(&self) -> (r: Session)
        ensures
            r == *self,
    {
        Session {
            access_token: self.access_token.clone(),
            session_uuid: self.session_uuid.clone(),
            refresh_token: self.refresh_token.clone(),
        }
    }

    /// This session with the bearer and refresh tokens of `oauth_response`; the
    /// session id is kept.
    pub fn refreshed_session(&self, oauth_response: OAuthResponse) -> (r: Session)
        ensures
            r.access_token == oauth_response.access_token,
            r.refresh_token == oauth_response.refresh_token,
            r.session_uuid == self.session_uuid,
    {
        Session {
            access_token: oauth_response.access_token,
            session_uuid: self.session_uuid.clone(),
            refresh_token: oauth_response.refresh_token,
        }
    }

    /// This session as JSON text: an object with the fields `access_token`,
    /// `session_uuid` and `refresh_token`.
    pub fn to_json(&self) -> (r: String)
        ensures
            r@ == session_json(*self),
    {
        let mut out = String::from_str("{\"access_token\":");
        push_json_string(&mut out, self.access_token.as_str());
        out.append(",\"session_uuid\":");
        push_json_string(&mut out, self.session_uuid.as_str());
        out.append(",\"refresh_token\":");
        push_json_string(&mut out, self.refresh_token.as_str());
        out.append("}");
        out
    }
}

impl SessionStatus {
    /// A session is usable exactly when both of its flags are set.
    pub open spec fn valid(&self) -> bool {
        self.session_tan_active && self.activated_2fa
    }

    /// Whether the session is usable: both flags set.
    pub fn is_valid(&self) -> (r: bool)
        ensures
            r == self.valid(),
    {
        self.session_tan_active && self.activated_2fa
    }

    /// This status as JSON text, with the field names the remote system uses.
    pub fn to_json(&self) -> (r: String)
        ensures
            r@ == session_status_json(self.identifier@, self.session_tan_active, self.activated_2fa),
    {
        let mut out = String::from_str("{\"identifier\":");
        push_json_string(&mut out, self.identifier.as_str());
        out.append(",\"sessionTanActive\":");
        push_json_bool(&mut out, self.session_tan_active);
        out.append(",\"activated2FA\":");
        push_json_bool(&mut out, self.activated_2fa);
        out.append("}");
        out
    }
}

impl XOnceAuthenticationInfo {
    /// A copy of this challenge.
    pub fn duplicate(&self) -> (r: XOnceAuthenticationInfo)
        ensures
            r == *self,
    {
        XOnceAuthenticationInfo { challenge_id: self.challenge_id.clone() }
    }

    /// This challenge reference as JSON text: `{"id":...}`.
    pub fn to_json(&self) -> (r: String)
        ensures
            r@ == challenge_json(self.challenge_id@),
    {
        let mut out = String::from_str("{\"id\":");
        push_json_string(&mut out, self.challenge_id.as_str());
        out.append("}");
        out
    }
}

impl HttpRequestInfoHeader {
    /// The correlation header made of a session id and a request id.
    pub fn from(session_id: String, request_id: String) -> (r: Self)
        ensures
            r.client_request_id.session_id == session_id,
            r.client_request_id.request_id == request_id,
    {
        HttpRequestInfoHeader { client_request_id: ClientRequestId { session_id, request_id } }
    }

    /// This header as JSON text.
    pub fn to_json(&self) -> (r: String)
        ensures
            r@ == info_header_json(
                self.client_request_id.session_id@,
                self.client_request_id.request_id@,
            ),
    {
        let mut out = String::from_str("{\"clientRequestId\":{\"sessionId\":");
        push_json_string(&mut out, self.client_request_id.session_id.as_str());
        out.append(",\"requestId\":");
        push_json_string(&mut out, self.client_request_id.request_id.as_str());
        out.append("}}");
        out
    }
}

} // verus!
