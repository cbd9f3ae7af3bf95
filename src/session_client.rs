use vstd::prelude::*;

use crate::session_model::{
    challenge_json, info_header_json, session_status_json, AuthenticationInfo,
    HttpRequestInfoHeader, OAuthResponse, Session, SessionStatus, XOnceAuthenticationInfo,
};

verus! {

/// `reqwest::Client`, the HTTP client that requests are sent with; the library
/// only carries it.
#[verifier::external_type_specification]
#[verifier::external_body]
pub struct ExHttpClient(reqwest::Client);

/// How a step against the remote system failed.
#[derive(Debug, Clone, Copy, PartialEq, Eq, Structural)]
pub enum SessionClientError {
    /// The remote system rejected the bearer token.
    Unauthorized,
    /// Any other transport failure, unexpected status code or unreadable response.
    Unknown,
}

/// The HTTP methods that the session steps use.
#[derive(Debug, Clone, Copy, PartialEq, Eq, Structural)]
pub enum Method {
    Get,
    Post,
    Patch,
}

/// What a request carries as its body.
#[derive(Debug)]
pub enum RequestBody {
    Empty,
    /// JSON text.
    Json(String),
    /// Form fields, to be sent url-encoded.
    Form(Vec<(String, String)>),
}

/// A request to send: method, URL, headers in order, and body.
#[derive(Debug)]
pub struct HttpRequest {
    pub method: Method,
    pub url: String,
    pub headers: Vec<(String, String)>,
    pub body: RequestBody,
}

/// A body as text.
pub enum BodyView {
    Empty,
    Json(Seq<char>),
    Form(Seq<(Seq<char>, Seq<char>)>),
}

/// A request as text.
pub struct RequestView {
    pub method: Method,
    pub url: Seq<char>,
    pub headers: Seq<(Seq<char>, Seq<char>)>,
    pub body: BodyView,
}

/// A sequence of string pairs as text.
pub open spec fn pairs_view(v: Seq<(String, String)>) -> Seq<(Seq<char>, Seq<char>)> {
    v.map_values(|p: (String, String)| (p.0@, p.1@))
}

impl View for RequestBody {
    type V = BodyView;

    open spec fn view(&self) -> BodyView {
        match self {
            RequestBody::Empty => BodyView::Empty,
            RequestBody::Json(t) => BodyView::Json(t@),
            RequestBody::Form(f) => BodyView::Form(pairs_view(f@)),
        }
    }
}

impl View for HttpRequest {
    type V = RequestView;

    open spec fn view(&self) -> RequestView {
        RequestView {
            method: self.method,
            url: self.url@,
            headers: pairs_view(self.headers@),
            body: self.body@,
        }
    }
}

/// The client of the session endpoints: the HTTP client, the two base URLs,
/// the credentials, and the id that correlates this instance's requests.
pub struct SessionClient {
    pub client: reqwest::Client,
    pub url: String,
    pub oauth_url: String,
    pub client_id: String,
    pub client_secret: String,
    pub username: String,
    pub password: String,
    pub session_id: String,
}

/// A lowercase hexadecimal digit.
pub open spec fn is_lower_hex(c: char) -> bool {
    ('0' <= c && c <= '9') || ('a' <= c && c <= 'f')
}

/// The text of a random (version 4, RFC 4122 variant) UUID in hyphenated
/// form: 36 characters, lowercase hex in groups of 8-4-4-4-12, the version
/// digit `4` and a variant digit among `8 9 a b`.
pub open spec fn is_uuid_v4_text(s: Seq<char>) -> bool {
    &&& s.len() == 36
    &&& s[8] == '-' && s[13] == '-' && s[18] == '-' && s[23] == '-'
    &&& forall|i: int|
        0 <= i < 36 && i != 8 && i != 13 && i != 18 && i != 23 ==> is_lower_hex(#[trigger] s[i])
    &&& s[14] == '4'
    &&& s[19] == '8' || s[19] == '9' || s[19] == 'a' || s[19] == 'b'
}

/// Relies on `uuid::Uuid::new_v4` and its `Display`: the random bits are
/// masked to version 4 and the RFC 4122 variant, and written in lowercase
/// hyphenated form. The bits are random, so nothing more is stated.
#[verifier::external_body]
pub(crate) fn new_uuid_string() -> (r: String)
    ensures
        is_uuid_v4_text(r@),
{
    uuid::Uuid::new_v4().to_string()
}

/// The value of an authorization header for `token`.
pub open spec fn bearer(token: Seq<char>) -> Seq<char> {
    "Bearer "@ + token
}

/// The path of the session collection under the API base URL.
pub open spec fn sessions_url(base: Seq<char>) -> Seq<char> {
    base + "/session/clients/user/v1/sessions"@
}

/// The token endpoint under the OAuth base URL.
pub open spec fn token_url(oauth_base: Seq<char>) -> Seq<char> {
    oauth_base + "/oauth/token"@
}

/// The headers that every token request carries.
pub open spec fn token_headers() -> Seq<(Seq<char>, Seq<char>)> {
    seq![
        ("content-type"@, "application/x-www-form-urlencoded"@),
        ("accept"@, "application/json"@),
    ]
}

/// The placeholder TAN that the patch request carries; the challenge itself is
/// answered out of band.
pub open spec fn tan_placeholder() -> Seq<char> {
    "000000"@
}

impl SessionClient {
    /// The request that reads the status of the session behind `session`'s token.
    pub open spec fn status_request_spec(&self, session: Session, request_id: Seq<char>) -> RequestView {
        RequestView {
            method: Method::Get,
            url: sessions_url(self.url@),
            headers: seq![
                ("accept"@, "application/json"@),
                ("authorization"@, bearer(session.access_token@)),
                ("x-http-request-info"@, info_header_json(self.session_id@, request_id)),
            ],
            body: BodyView::Empty,
        }
    }

    /// The request that asks for the session to be validated: it asserts both flags.
    pub open spec fn validate_request_spec(&self, session: Session, request_id: Seq<char>) -> RequestView {
        RequestView {
            method: Method::Post,
            url: sessions_url(self.url@) + "/"@ + session.session_uuid@ + "/validate"@,
            headers: seq![
                ("accept"@, "application/json"@),
                ("authorization"@, bearer(session.access_token@)),
                ("x-http-request-info"@, info_header_json(self.session_id@, request_id)),
            ],
            body: BodyView::Json(session_status_json(session.session_uuid@, true, true)),
        }
    }

    /// The request that answers the challenge `challenge` and activates the session.
    pub open spec fn patch_request_spec(
        &self,
        session: Session,
        challenge: XOnceAuthenticationInfo,
        request_id: Seq<char>,
    ) -> RequestView {
        RequestView {
            method: Method::Patch,
            url: sessions_url(self.url@) + "/"@ + session.session_uuid@,
            headers: seq![
                ("accept"@, "application/json"@),
                ("authorization"@, bearer(session.access_token@)),
                ("x-http-request-info"@, info_header_json(self.session_id@, request_id)),
                ("x-once-authentication-info"@, challenge_json(challenge.challenge_id@)),
                ("x-once-authentication"@, tan_placeholder()),
            ],
            body: BodyView::Json(session_status_json(session.session_uuid@, true, true)),
        }
    }

    /// The password grant.
    pub open spec fn password_grant_spec(&self) -> RequestView {
        RequestView {
            method: Method::Post,
            url: token_url(self.oauth_url@),
            headers: token_headers(),
            body: BodyView::Form(
                seq![
                    ("client_id"@, self.client_id@),
                    ("client_secret"@, self.client_secret@),
                    ("username"@, self.username@),
                    ("password"@, self.password@),
                    ("grant_type"@, "password"@),
                ],
            ),
        }
    }

    /// The secondary-flow grant, which trades the current bearer token.
    pub open spec fn secondary_flow_spec(&self, session: Session) -> RequestView {
        RequestView {
            method: Method::Post,
            url: token_url(self.oauth_url@),
            headers: token_headers(),
            body: BodyView::Form(
                seq![
                    ("client_id"@, self.client_id@),
                    ("client_secret"@, self.client_secret@),
                    ("token"@, session.access_token@),
                    ("grant_type"@, "cd_secondary"@),
                ],
            ),
        }
    }

    /// The refresh grant, which trades the refresh token.
    pub open spec fn refresh_grant_spec(&self, session: Session) -> RequestView {
        RequestView {
            method: Method::Post,
            url: token_url(self.oauth_url@),
            headers: token_headers(),
            body: BodyView::Form(
                seq![
                    ("client_id"@, self.client_id@),
                    ("client_secret"@, self.client_secret@),
                    ("refresh_token"@, session.refresh_token@),
                    ("grant_type"@, "refresh_token"@),
                ],
            ),
        }
    }

    /// A client for the given endpoints and credentials, with a newly generated
    /// correlation id.
    pub fn new(
        url: String,
        oauth_url: String,
        client_id: String,
        client_secret: String,
        username: String,
        password: String,
        client: reqwest::Client,
    ) -> (r: Self)
        ensures
            r.url == url,
            r.oauth_url == oauth_url,
            r.client_id == client_id,
            r.client_secret == client_secret,
            r.username == username,
            r.password == password,
            r.client == client,
            is_uuid_v4_text(r.session_id@),
    {
        SessionClient {
            client,
            url,
            oauth_url,
            client_id,
            client_secret,
            username,
            password,
            session_id: new_uuid_string(),
        }
    }

    /// The correlation header for a request with id `request_id`.
    pub fn info_header(&self, request_id: &str) -> (r: String)
        ensures
            r@ == info_header_json(self.session_id@, request_id@),
    {
        HttpRequestInfoHeader::from(self.session_id.clone(), String::from_str(request_id)).to_json()
    }

    /// Builds the status request.
    pub fn status_request(&self, session: &Session, request_id: &str) -> (r: HttpRequest)
        ensures
            r@ == self.status_request_spec(*session, request_id@),
    {
        let headers = self.api_headers(session, request_id);
        HttpRequest {
            method: Method::Get,
            url: sessions_url_of(&self.url),
            headers,
            body: RequestBody::Empty,
        }
    }

    /// Builds the validation request.
    pub fn validate_request(&self, session: &Session, request_id: &str) -> (r: HttpRequest)
        ensures
            r@ == self.validate_request_spec(*session, request_id@),
    {
        let headers = self.api_headers(session, request_id);
        let mut url = sessions_url_of(&self.url);
        url.append("/");
        url.append(session.session_uuid.as_str());
        url.append("/validate");
        HttpRequest {
            method: Method::Post,
            url,
            headers,
            body: RequestBody::Json(activation_body(session)),
        }
    }

    /// Builds the patch request that answers `challenge`.
    pub fn patch_request(
        &self,
        session: &Session,
        challenge: &XOnceAuthenticationInfo,
        request_id: &str,
    ) -> (r: HttpRequest)
        ensures
            r@ == self.patch_request_spec(*session, *challenge, request_id@),
    {
        let mut headers = self.api_headers(session, request_id);
        let ghost h0 = headers@;
        headers.push(pair("x-once-authentication-info", challenge.to_json()));
        headers.push(pair("x-once-authentication", String::from_str("000000")));
        assert(pairs_view(headers@) =~= pairs_view(h0).push(
            ("x-once-authentication-info"@, challenge_json(challenge.challenge_id@)),
        ).push(("x-once-authentication"@, tan_placeholder())));
        let mut url = sessions_url_of(&self.url);
        url.append("/");
        url.append(session.session_uuid.as_str());
        let r = HttpRequest {
            method: Method::Patch,
            url,
            headers,
            body: RequestBody::Json(activation_body(session)),
        };
        assert(pairs_view(r.headers@) =~= self.patch_request_spec(*session, *challenge, request_id@).headers);
        r
    }

    /// Builds the password grant.
    pub fn password_grant_request(&self) -> (r: HttpRequest)
        ensures
            r@ == self.password_grant_spec(),
    {
        let mut form: Vec<(String, String)> = Vec::new();
        form.push(pair("client_id", self.client_id.clone()));
        form.push(pair("client_secret", self.client_secret.clone()));
        form.push(pair("username", self.username.clone()));
        form.push(pair("password", self.password.clone()));
        form.push(pair("grant_type", String::from_str("password")));
        assert(pairs_view(form@) =~= seq![
            ("client_id"@, self.client_id@),
            ("client_secret"@, self.client_secret@),
            ("username"@, self.username@),
            ("password"@, self.password@),
            ("grant_type"@, "password"@),
        ]);
        let r = self.token_request(form);
        r
    }

    /// Builds the secondary-flow grant for `session`'s bearer token.
    pub fn secondary_flow_request(&self, session: &Session) -> (r: HttpRequest)
        ensures
            r@ == self.secondary_flow_spec(*session),
    {
        let mut form: Vec<(String, String)> = Vec::new();
        form.push(pair("client_id", self.client_id.clone()));
        form.push(pair("client_secret", self.client_secret.clone()));
        form.push(pair("token", session.access_token.clone()));
        form.push(pair("grant_type", String::from_str("cd_secondary")));
        assert(pairs_view(form@) =~= seq![
            ("client_id"@, self.client_id@),
            ("client_secret"@, self.client_secret@),
            ("token"@, session.access_token@),
            ("grant_type"@, "cd_secondary"@),
        ]);
        let r = self.token_request(form);
        r
    }

    /// Builds the refresh grant for `session`'s refresh token.
    pub fn refresh_token_request(&self, session: &Session) -> (r: HttpRequest)
        ensures
            r@ == self.refresh_grant_spec(*session),
    {
        let mut form: Vec<(String, String)> = Vec::new();
        form.push(pair("client_id", self.client_id.clone()));
        form.push(pair("client_secret", self.client_secret.clone()));
        form.push(pair("refresh_token", session.refresh_token.clone()));
        form.push(pair("grant_type", String::from_str("refresh_token")));
        assert(pairs_view(form@) =~= seq![
            ("client_id"@, self.client_id@),
            ("client_secret"@, self.client_secret@),
            ("refresh_token"@, session.refresh_token@),
            ("grant_type"@, "refresh_token"@),
        ]);
        let r = self.token_request(form);
        r
    }

    /// The three headers of every request to the session endpoints.
    fn api_headers(&self, session: &Session, request_id: &str) -> (r: Vec<(String, String)>)
        ensures
            pairs_view(r@) =~= seq![
                ("accept"@, "application/json"@),
                ("authorization"@, bearer(session.access_token@)),
                ("x-http-request-info"@, info_header_json(self.session_id@, request_id@)),
            ],
    {
        let mut headers: Vec<(String, String)> = Vec::new();
        headers.push(pair("accept", String::from_str("application/json")));
        headers.push(pair("authorization", bearer_value(&session.access_token)));
        headers.push(pair("x-http-request-info", self.info_header(request_id)));
        headers
    }

    /// A request to the token endpoint with the given form.
    fn token_request(&self, form: Vec<(String, String)>) -> (r: HttpRequest)
        ensures
            r@.method == Method::Post,
            r@.url == token_url(self.oauth_url@),
            r@.headers == token_headers(),
            r.body == RequestBody::Form(form),
    {
        let mut url = self.oauth_url.clone();
        url.append("/oauth/token");
        let mut headers: Vec<(String, String)> = Vec::new();
        headers.push(pair("content-type", String::from_str("application/x-www-form-urlencoded")));
        headers.push(pair("accept", String::from_str("application/json")));
        assert(pairs_view(headers@) =~= token_headers());
        HttpRequest { method: Method::Post, url, headers, body: RequestBody::Form(form) }
    }
}

/// A header or form field.
pub(crate) fn pair(name: &str, value: String) -> (r: (String, String))
    ensures
        r.0@ == name@,
        r.1 == value,
{
    (String::from_str(name), value)
}

/// The authorization header value for `token`.
pub(crate) fn bearer_value(token: &String) -> (r: String)
    ensures
        r@ == bearer(token@),
{
    let mut v = String::from_str("Bearer ");
    v.append(token.as_str());
    v
}

/// The session collection's URL under `base`.
fn sessions_url_of(base: &String) -> (r: String)
    ensures
        r@ == sessions_url(base@),
{
    let mut url = base.clone();
    url.append("/session/clients/user/v1/sessions");
    url
}

/// The body of the validation and patch requests: `session`'s id with both flags set.
fn activation_body(session: &Session) -> (r: String)
    ensures
        r@ == session_status_json(session.session_uuid@, true, true),
{
    let status = SessionStatus {
        identifier: session.session_uuid.clone(),
        session_tan_active: true,
        activated_2fa: true,
    };
    status.to_json()
}

/// The status codes that the session steps distinguish.
pub const HTTP_OK: u16 = 200;

pub const HTTP_CREATED: u16 = 201;

pub const HTTP_UNAUTHORIZED: u16 = 401;

/// The error for a reply that is not the expected success: a rejected bearer
/// token, or anything else.
pub open spec fn failure_of(status: Option<u16>) -> SessionClientError {
    if status == Some(HTTP_UNAUTHORIZED) {
        SessionClientError::Unauthorized
    } else {
        SessionClientError::Unknown
    }
}

/// What the status step yields, given the reply's status code (none when no
/// reply came) and its records (none when they could not be read).
pub open spec fn session_status_outcome(
    status: Option<u16>,
    sessions: Option<Vec<SessionStatus>>,
) -> Result<SessionStatus, SessionClientError> {
    if status == Some(HTTP_OK) {
        if sessions is Some && sessions->0@.len() > 0 {
            Ok(sessions->0@[0])
        } else {
            Err(SessionClientError::Unknown)
        }
    } else {
        Err(failure_of(status))
    }
}

/// What the validation step yields, given the reply's status code and the
/// challenge read from its header (none when absent or unreadable).
pub open spec fn validation_outcome(
    status: Option<u16>,
    challenge: Option<AuthenticationInfo>,
) -> Result<XOnceAuthenticationInfo, SessionClientError> {
    if status == Some(HTTP_CREATED) {
        match challenge {
            Some(info) => Ok(XOnceAuthenticationInfo { challenge_id: info.challenge_id }),
            None => Err(SessionClientError::Unknown),
        }
    } else {
        Err(failure_of(status))
    }
}

/// What the patch step yields, given the reply's status code and the status
/// record read from its body.
pub open spec fn patch_outcome(
    status: Option<u16>,
    record: Option<SessionStatus>,
) -> Result<SessionStatus, SessionClientError> {
    if status == Some(HTTP_OK) {
        match record {
            Some(st) => Ok(st),
            None => Err(SessionClientError::Unknown),
        }
    } else {
        Err(failure_of(status))
    }
}

/// What the password grant yields: any success code with a readable token.
pub open spec fn password_token_outcome(
    status: Option<u16>,
    token: Option<OAuthResponse>,
) -> Result<OAuthResponse, SessionClientError> {
    match (status, token) {
        (Some(code), Some(t)) => if 200 <= code < 300 {
            Ok(t)
        } else {
            Err(SessionClientError::Unknown)
        },
        _ => Err(SessionClientError::Unknown),
    }
}

/// What the secondary-flow and refresh grants yield: status 200 with a readable token.
pub open spec fn token_exchange_outcome(
    status: Option<u16>,
    token: Option<OAuthResponse>,
) -> Result<OAuthResponse, SessionClientError> {
    match (status, token) {
        (Some(code), Some(t)) => if code == HTTP_OK {
            Ok(t)
        } else {
            Err(SessionClientError::Unknown)
        },
        _ => Err(SessionClientError::Unknown),
    }
}

fn failure(status: Option<u16>) -> (r: SessionClientError)
    ensures
        r == failure_of(status),
{
    match status {
        Some(code) => if code == HTTP_UNAUTHORIZED {
            SessionClientError::Unauthorized
        } else {
            SessionClientError::Unknown
        },
        None => SessionClientError::Unknown,
    }
}

/// Interprets the reply to the status request: the first record on 200, a
/// rejected token on 401, and an unknown failure otherwise.
pub fn session_status_result(status: Option<u16>, sessions: Option<Vec<SessionStatus>>) -> (r:
    Result<SessionStatus, SessionClientError>)
    ensures
        r == session_status_outcome(status, sessions),
{
    if status == Some(HTTP_OK) {
        match sessions {
            Some(mut v) => if v.len() > 0 {
                Ok(v.remove(0))
            } else {
                Err(SessionClientError::Unknown)
            },
            None => Err(SessionClientError::Unknown),
        }
    } else {
        Err(failure(status))
    }
}

/// Interprets the reply to the validation request: the challenge on 201.
pub fn validation_result(status: Option<u16>, challenge: Option<AuthenticationInfo>) -> (r: Result<
    XOnceAuthenticationInfo,
    SessionClientError,
>)
    ensures
        r == validation_outcome(status, challenge),
{
    if status == Some(HTTP_CREATED) {
        match challenge {
            Some(info) => Ok(XOnceAuthenticationInfo { challenge_id: info.challenge_id }),
            None => Err(SessionClientError::Unknown),
        }
    } else {
        Err(failure(status))
    }
}

/// Interprets the reply to the patch request: the updated record on 200.
pub fn patch_result(status: Option<u16>, record: Option<SessionStatus>) -> (r: Result<
    SessionStatus,
    SessionClientError,
>)
    ensures
        r == patch_outcome(status, record),
{
    if status == Some(HTTP_OK) {
        match record {
            Some(st) => Ok(st),
            None => Err(SessionClientError::Unknown),
        }
    } else {
        Err(failure(status))
    }
}

/// Interprets the reply to the password grant.
pub fn password_token_result(status: Option<u16>, token: Option<OAuthResponse>) -> (r: Result<
    OAuthResponse,
    SessionClientError,
>)
    ensures
        r == password_token_outcome(status, token),
{
    match (status, token) {
        (Some(code), Some(t)) => if 200 <= code && code < 300 {
            Ok(t)
        } else {
            Err(SessionClientError::Unknown)
        },
        _ => Err(SessionClientError::Unknown),
    }
}

/// Interprets the reply to the secondary-flow or refresh grant.
pub fn token_exchange_result(status: Option<u16>, token: Option<OAuthResponse>) -> (r: Result<
    OAuthResponse,
    SessionClientError,
>)
    ensures
        r == token_exchange_outcome(status, token),
{
    match (status, token) {
        (Some(code), Some(t)) => if code == HTTP_OK {
            Ok(t)
        } else {
            Err(SessionClientError::Unknown)
        },
        _ => Err(SessionClientError::Unknown),
    }
}

} // verus!
