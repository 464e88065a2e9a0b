//! The Redfish client: what each operation sends, how each reply is judged,
//! and how a session is opened and closed.
use vstd::prelude::*;
use crate::error::{ErrorView, RedfishError, Result};
use crate::json::{
    entries_view, json_members, json_null, json_object_value, json_string_value, json_syntax_error, json_text,
    json_value, key_less, keys_ascending, object_value, parse_json, string_value, write_json,
};
use crate::text::{has_http_prefix, has_url_scheme, starts_with_http, starts_with_scheme, trim_end_slashes, trim_trailing_slashes};
use crate::transport::{HttpTransport, TransportSettings};
use crate::types::{boot_override_json, boot_settings_json, reset_request_json, session_create_json, SessionCreate};

verus! {

/// The HTTP method of a request.
#[derive(Debug, Clone, Copy, PartialEq, Eq)]
pub enum Method {
    Get,
    Post,
    Patch,
    Delete,
}

/// The credentials that go with a request.
#[derive(Debug, Clone, PartialEq, Eq)]
pub enum Auth {
    /// No credentials.
    Anonymous,
    /// The session token, sent in the `X-Auth-Token` header.
    Token(String),
    /// HTTP Basic authentication.
    Basic { username: String, password: String },
}

/// The body of a request.
#[derive(Debug, Clone, PartialEq, Eq)]
pub enum RequestBody {
    /// No body.
    Empty,
    /// JSON text.
    Json(String),
}

/// One HTTP request to send.
#[derive(Debug, Clone, PartialEq, Eq)]
pub struct HttpRequest {
    pub method: Method,
    pub url: String,
    pub auth: Auth,
    pub body: RequestBody,
}

/// `Auth` as plain values.
pub enum AuthView {
    Anonymous,
    Token(Seq<char>),
    Basic(Seq<char>, Seq<char>),
}

/// `RequestBody` as plain values.
pub enum BodyView {
    Empty,
    Json(Seq<char>),
}

/// `HttpRequest` as plain values.
pub struct RequestView {
    pub method: Method,
    pub url: Seq<char>,
    pub auth: AuthView,
    pub body: BodyView,
}

impl View for Auth {
    type V = AuthView;

    open spec fn view(&self) -> AuthView {
        match self {
            Auth::Anonymous => AuthView::Anonymous,
            Auth::Token(t) => AuthView::Token(t@),
            Auth::Basic { username, password } => AuthView::Basic(username@, password@),
        }
    }
}

impl View for RequestBody {
    type V = BodyView;

    open spec fn view(&self) -> BodyView {
        match self {
            RequestBody::Empty => BodyView::Empty,
            RequestBody::Json(t) => BodyView::Json(t@),
        }
    }
}

impl View for HttpRequest {
    type V = RequestView;

    open spec fn view(&self) -> RequestView {
        RequestView { method: self.method, url: self.url@, auth: self.auth@, body: self.body@ }
    }
}

/// The base URL for a host: a host that begins with `http://` or `https://`
/// is taken as a URL, any other host (an IP address or a host name) is
/// reached over HTTPS; trailing slashes are dropped.
pub open spec fn base_url_for(host: Seq<char>) -> Seq<char> {
    if has_url_scheme(host) {
        trim_trailing_slashes(host)
    } else {
        "https://"@ + trim_trailing_slashes(host)
    }
}

/// The status codes of success, 200 to 299.
pub open spec fn is_success(status: u16) -> bool {
    200 <= status && status <= 299
}

/// The text of a body that was read, or `None` when reading it failed.
pub open spec fn body_text(body: std::result::Result<String, reqwest::Error>) -> Option<Seq<char>> {
    match body {
        Ok(t) => Some(t@),
        Err(_) => None,
    }
}

/// The text of a body, with a failed read taken as empty.
pub open spec fn body_text_or_empty(body: Option<Seq<char>>) -> Seq<char> {
    match body {
        Some(t) => t,
        None => Seq::empty(),
    }
}

/// How a reply to a read or an action is judged: `None` when it yields a
/// JSON value, else the error. A success status whose body could not be read
/// is a transport error; an empty body yields a value; any other body must
/// be JSON. 404 and 401 have their own errors; any other status is an API
/// error that carries the body.
pub open spec fn reply_error(status: u16, url: Seq<char>, body: Option<Seq<char>>) -> Option<ErrorView> {
    if is_success(status) {
        match body {
            None => Some(ErrorView::Http),
            Some(t) => if t.len() == 0 {
                None
            } else {
                match json_syntax_error(t) {
                    Some(m) => Some(ErrorView::Parse(m)),
                    None => None,
                }
            },
        }
    } else if status == 404 {
        Some(ErrorView::NotFound(url))
    } else if status == 401 {
        Some(ErrorView::SessionExpired)
    } else {
        Some(ErrorView::Api { status, message: body_text_or_empty(body) })
    }
}

/// The value a successful reply yields: JSON null for an empty body, the
/// parsed JSON otherwise.
pub open spec fn success_value(text: Seq<char>) -> serde_json::Value {
    if text.len() == 0 {
        json_value("null"@)
    } else {
        json_value(text)
    }
}

/// The statuses at which a deletion counts as done.
pub open spec fn delete_accepted(status: u16) -> bool {
    is_success(status) || status == 204
}

/// The statuses at which a session creation counts as done.
pub open spec fn login_accepted(status: u16) -> bool {
    status == 201 || status == 200
}

/// A Redfish client's state as plain values.
pub struct ClientView {
    pub base_url: Seq<char>,
    pub username: Seq<char>,
    pub password: Seq<char>,
    pub session_token: Option<Seq<char>>,
    pub session_uri: Option<Seq<char>>,
    pub settings: TransportSettings,
}

impl ClientView {
    /// The state that every client keeps: its base URL begins with `http`,
    /// and a session URI is only ever held together with a session token.
    pub open spec fn wf(self) -> bool {
        &&& has_http_prefix(self.base_url)
        &&& self.session_uri is Some ==> self.session_token is Some
    }

    /// The URL of a path: a path that begins with `http` is already a URL,
    /// any other is appended to the base URL.
    pub open spec fn resolve(self, path: Seq<char>) -> Seq<char> {
        if has_http_prefix(path) {
            path
        } else {
            self.base_url + path
        }
    }

    /// The credentials of an ordinary request: the session token while a
    /// session is open, Basic authentication otherwise.
    pub open spec fn auth(self) -> AuthView {
        match self.session_token {
            Some(t) => AuthView::Token(t),
            None => AuthView::Basic(self.username, self.password),
        }
    }

    /// An ordinary request to `path`.
    pub open spec fn request(self, method: Method, path: Seq<char>, body: BodyView) -> RequestView {
        RequestView { method, url: self.resolve(path), auth: self.auth(), body }
    }

    /// An ordinary request to a path under the base URL.
    pub open spec fn resource_request(self, method: Method, path: Seq<char>, body: BodyView) -> RequestView {
        RequestView { method, url: self.base_url + path, auth: self.auth(), body }
    }

    /// A read of a resource under the base URL.
    pub open spec fn resource_get(self, path: Seq<char>) -> RequestView {
        self.resource_request(Method::Get, path, BodyView::Empty)
    }

    /// The request that opens a session.
    pub open spec fn login_request(self) -> RequestView {
        RequestView {
            method: Method::Post,
            url: self.base_url + "/redfish/v1/SessionService/Sessions"@,
            auth: AuthView::Anonymous,
            body: BodyView::Json(session_create_json(self.username, self.password)),
        }
    }

    /// The state once a session is open.
    pub open spec fn with_session(self, token: Seq<char>, uri: Option<Seq<char>>) -> ClientView {
        ClientView { session_token: Some(token), session_uri: uri, ..self }
    }

    /// The request that closes the session, when both a token and a session
    /// URI are held.
    pub open spec fn logout_request(self) -> Option<RequestView> {
        match (self.session_token, self.session_uri) {
            (Some(t), Some(u)) => Some(
                RequestView { method: Method::Delete, url: self.resolve(u), auth: AuthView::Token(t), body: BodyView::Empty },
            ),
            _ => None,
        }
    }

    /// The state once the session is closed.
    pub open spec fn without_session(self) -> ClientView {
        ClientView { session_token: None, session_uri: None, ..self }
    }

    /// The request that resets a computer system.
    pub open spec fn reset_system_request(self, system_id: Seq<char>, reset_type: Seq<char>) -> RequestView {
        self.resource_request(
            Method::Post,
            "/redfish/v1/Systems/"@ + system_id + "/Actions/ComputerSystem.Reset"@,
            BodyView::Json(reset_request_json(reset_type)),
        )
    }

    /// The request that sets the boot source override of a computer system.
    pub open spec fn boot_override_request(self, system_id: Seq<char>, target: Seq<char>, enabled: Seq<char>) -> RequestView {
        self.resource_request(
            Method::Patch,
            "/redfish/v1/Systems/"@ + system_id,
            BodyView::Json(boot_override_json(boot_settings_json(target, Some(enabled)))),
        )
    }
}

/// A Redfish client for one service, with its credentials and, once logged
/// in, its session.
pub struct RedfishClient {
    base_url: String,
    username: String,
    password: String,
    transport: HttpTransport,
    session_token: Option<String>,
    session_uri: Option<String>,
}

impl View for RedfishClient {
    type V = ClientView;

    closed spec fn view(&self) -> ClientView {
        ClientView {
            base_url: self.base_url@,
            username: self.username@,
            password: self.password@,
            session_token: match self.session_token {
                Some(t) => Some(t@),
                None => None,
            },
            session_uri: match self.session_uri {
                Some(u) => Some(u@),
                None => None,
            },
            settings: self.transport@,
        }
    }
}

/// An optional string as an optional character sequence.
pub open spec fn opt_view(s: Option<String>) -> Option<Seq<char>> {
    match s {
        Some(t) => Some(t@),
        None => None,
    }
}

/// `enabled`, or `Once` when it is absent.
pub open spec fn enabled_or_once(enabled: Option<&str>) -> Seq<char> {
    match enabled {
        Some(e) => e@,
        None => "Once"@,
    }
}

/// The JSON value of a reset body: `{"ResetType": reset_type}`.
pub open spec fn reset_body_value(reset_type: Seq<char>) -> serde_json::Value {
    json_object_value(seq![("ResetType"@, json_string_value(reset_type))])
}

/// The JSON value of a boot override body:
/// `{"Boot": {"BootSourceOverrideTarget": target, "BootSourceOverrideEnabled": enabled}}`.
pub open spec fn boot_body_value(target: Seq<char>, enabled: Seq<char>) -> serde_json::Value {
    json_object_value(
        seq![
            ("Boot"@, json_object_value(
                seq![
                    ("BootSourceOverrideEnabled"@, json_string_value(enabled)),
                    ("BootSourceOverrideTarget"@, json_string_value(target)),
                ],
            )),
        ],
    )
}

/// Builds the JSON value of a reset body.
fn reset_body(reset_type: &str) -> (r: serde_json::Value)
    ensures
        r == reset_body_value(reset_type@),
        json_text(r) == reset_request_json(reset_type@),
{
    let value = string_value(reset_type);
    let mut entries: Vec<(String, serde_json::Value)> = Vec::new();
    entries.push((String::from_str("ResetType"), value));
    proof {
        assert(entries_view(entries@) =~= seq![("ResetType"@, json_string_value(reset_type@))]);
    }
    object_value(entries)
}

/// Builds the JSON value of a boot override body.
fn boot_body(target: &str, enabled: &str) -> (r: serde_json::Value)
    ensures
        r == boot_body_value(target@, enabled@),
        json_text(r) == boot_override_json(boot_settings_json(target@, Some(enabled@))),
{
    let e = string_value(enabled);
    let t = string_value(target);
    let mut settings: Vec<(String, serde_json::Value)> = Vec::new();
    settings.push((String::from_str("BootSourceOverrideEnabled"), e));
    settings.push((String::from_str("BootSourceOverrideTarget"), t));
    let ghost sv = entries_view(settings@);
    proof {
        assert(sv =~= seq![
            ("BootSourceOverrideEnabled"@, json_string_value(enabled@)),
            ("BootSourceOverrideTarget"@, json_string_value(target@)),
        ]);
        reveal_strlit("BootSourceOverrideEnabled");
        reveal_strlit("BootSourceOverrideTarget");
        let a = "BootSourceOverrideEnabled"@;
        let b = "BootSourceOverrideTarget"@;
        assert(a.subrange(0, 18) =~= b.subrange(0, 18));
        assert(key_less(a, b));
        assert(keys_ascending(sv));
        reveal_with_fuel(json_members, 2);
        assert(sv.drop_last().len() == 1);
    }
    let inner = object_value(settings);
    let mut outer: Vec<(String, serde_json::Value)> = Vec::new();
    outer.push((String::from_str("Boot"), inner));
    proof {
        assert(entries_view(outer@) =~= seq![
            ("Boot"@, json_object_value(
                seq![
                    ("BootSourceOverrideEnabled"@, json_string_value(enabled@)),
                    ("BootSourceOverrideTarget"@, json_string_value(target@)),
                ],
            )),
        ]);
    }
    object_value(outer)
}

/// Takes the base URL for `host`.
fn base_url_of(host: &str) -> (r: String)
    ensures
        r@ == base_url_for(host@),
{
    let trimmed = trim_end_slashes(host);
    if starts_with_scheme(host) {
        String::from_str(trimmed)
    } else {
        String::from_str("https://").concat(trimmed)
    }
}

impl RedfishClient {
    /// The HTTP client that this client sends its requests with.
    pub closed spec fn transport(&self) -> HttpTransport {
        self.transport
    }

    /// Creates a client for `host` (an IP address, a host name or a URL)
    /// from the outcome of building its HTTP client: it fails exactly when
    /// building failed, with that error.
    pub fn from_transport(
        host: &str,
        username: &str,
        password: &str,
        built: std::result::Result<HttpTransport, reqwest::Error>,
    ) -> (r: Result<Self>)
        ensures
            r is Ok <==> built is Ok,
            built matches Ok(t) ==> (r matches Ok(c) && c@ == (ClientView {
                base_url: base_url_for(host@),
                username: username@,
                password: password@,
                session_token: None,
                session_uri: None,
                settings: t@,
            }) && c.transport() == t),
            built matches Err(e) ==> (r matches Err(RedfishError::Http(x)) && x == e),
    {
        match built {
            Ok(transport) => Ok(
                RedfishClient {
                    base_url: base_url_of(host),
                    username: String::from_str(username),
                    password: String::from_str(password),
                    transport,
                    session_token: None,
                    session_uri: None,
                },
            ),
            Err(e) => Err(RedfishError::Http(e)),
        }
    }

    /// Creates a client for `host` (an IP address, a host name or a URL;
    /// HTTPS unless the host begins with `http://` or `https://`). Its HTTP
    /// client accepts self-signed and other invalid certificates and gives
    /// up on a request after 30 seconds; building it is the one step that
    /// can fail, and then the error is that of the build.
    pub fn new(host: &str, username: &str, password: &str) -> (r: Result<Self>)
        ensures
            r matches Ok(c) ==> c@ == (ClientView {
                base_url: base_url_for(host@),
                username: username@,
                password: password@,
                session_token: None,
                session_uri: None,
                settings: TransportSettings { accepts_invalid_certs: true, timeout_secs: 30 },
            }),
            r matches Err(e) ==> e is Http,
    {
        Self::from_transport(host, username, password, HttpTransport::new(true, 30))
    }

    /// The HTTP client that carries this client's requests.
    pub fn http_client(&self) -> (r: &reqwest::Client)
        ensures
            *r == self.transport().http(),
    {
        self.transport.client()
    }

    /// The URL of `path`.
    fn resolve_url(&self, path: &str) -> (r: String)
        ensures
            r@ == self@.resolve(path@),
    {
        if starts_with_http(path) {
            String::from_str(path)
        } else {
            self.base_url.clone().concat(path)
        }
    }

    /// The credentials of an ordinary request.
    fn current_auth(&self) -> (r: Auth)
        ensures
            r@ == self@.auth(),
    {
        match &self.session_token {
            Some(t) => Auth::Token(t.clone()),
            None => Auth::Basic { username: self.username.clone(), password: self.password.clone() },
        }
    }

    /// The request that reads the resource at `path` (e.g. `/redfish/v1/Systems`).
    pub fn get(&self, path: &str) -> (r: HttpRequest)
        ensures
            r@ == self@.request(Method::Get, path@, BodyView::Empty),
    {
        HttpRequest { method: Method::Get, url: self.resolve_url(path), auth: self.current_auth(), body: RequestBody::Empty }
    }

    /// The request that posts `body` to `path` (e.g. an action).
    pub fn post(&self, path: &str, body: &serde_json::Value) -> (r: HttpRequest)
        ensures
            r@ == self@.request(Method::Post, path@, BodyView::Json(json_text(*body))),
    {
        HttpRequest { method: Method::Post, url: self.resolve_url(path), auth: self.current_auth(), body: RequestBody::Json(write_json(body)) }
    }

    /// The request that patches the resource at `path` with `body`.
    pub fn patch(&self, path: &str, body: &serde_json::Value) -> (r: HttpRequest)
        ensures
            r@ == self@.request(Method::Patch, path@, BodyView::Json(json_text(*body))),
    {
        HttpRequest { method: Method::Patch, url: self.resolve_url(path), auth: self.current_auth(), body: RequestBody::Json(write_json(body)) }
    }

    /// The request that deletes the resource at `path`.
    pub fn delete(&self, path: &str) -> (r: HttpRequest)
        ensures
            r@ == self@.request(Method::Delete, path@, BodyView::Empty),
    {
        HttpRequest { method: Method::Delete, url: self.resolve_url(path), auth: self.current_auth(), body: RequestBody::Empty }
    }

    /// Judges the reply to a read or an action: its status, the URL that
    /// answered, and its body as read (or the transport error that reading
    /// it gave).
    pub fn handle_response(&self, status: u16, url: &str, body: std::result::Result<String, reqwest::Error>) -> (r: Result<serde_json::Value>)
        ensures
            r is Ok <==> reply_error(status, url@, body_text(body)) is None,
            r matches Err(e) ==> reply_error(status, url@, body_text(body)) == Some(e@),
            r matches Err(RedfishError::Http(e)) ==> body == std::result::Result::<String, reqwest::Error>::Err(e),
            r matches Ok(v) ==> (body_text(body) matches Some(t) && v == success_value(t)),
    {
        if 200 <= status && status <= 299 {
            match body {
                Err(e) => Err(RedfishError::Http(e)),
                Ok(text) => {
                    if text.as_str().unicode_len() == 0 {
                        Ok(json_null())
                    } else {
                        match parse_json(text.as_str()) {
                            Ok(v) => Ok(v),
                            Err(m) => Err(RedfishError::Parse(m)),
                        }
                    }
                },
            }
        } else if status == 404 {
            Err(RedfishError::NotFound(String::from_str(url)))
        } else if status == 401 {
            Err(RedfishError::SessionExpired)
        } else {
            let message = match body {
                Ok(text) => text,
                Err(_) => String::new(),
            };
            Err(RedfishError::Api { status, message })
        }
    }

    /// Judges the reply to a deletion: its status and its body as read.
    pub fn finish_delete(&self, status: u16, body: std::result::Result<String, reqwest::Error>) -> (r: Result<()>)
        ensures
            r is Ok <==> delete_accepted(status),
            r matches Err(e) ==> e@ == (ErrorView::Api { status, message: body_text_or_empty(body_text(body)) }),
    {
        if (200 <= status && status <= 299) || status == 204 {
            Ok(())
        } else {
            let message = match body {
                Ok(text) => text,
                Err(_) => String::new(),
            };
            Err(RedfishError::Api { status, message })
        }
    }

    /// The request that opens a session: the credentials posted to the
    /// session service, with no authentication.
    pub fn login(&self) -> (r: HttpRequest)
        ensures
            r@ == self@.login_request(),
    {
        let url = self.base_url.clone().concat("/redfish/v1/SessionService/Sessions");
        let body = SessionCreate { user_name: self.username.clone(), password: self.password.clone() };
        HttpRequest { method: Method::Post, url, auth: Auth::Anonymous, body: RequestBody::Json(body.to_json()) }
    }

    /// Takes in the reply to the session request: its status and its
    /// `X-Auth-Token` and `Location` headers. At 201 or 200 with a token the
    /// session is open; otherwise authentication failed and nothing changes.
    pub fn finish_login(&mut self, status: u16, token: Option<String>, location: Option<String>) -> (r: Result<()>)
        ensures
            login_accepted(status) && token is Some ==> r is Ok && final(self)@ == old(self)@.with_session(
                token->0@,
                opt_view(location),
            ),
            !(login_accepted(status) && token is Some) ==> (r matches Err(e) && e is AuthFailed) && final(self)@ == old(self)@,
            final(self).transport() == old(self).transport(),
    {
        if status == 201 || status == 200 {
            match token {
                Some(t) => {
                    self.session_token = Some(t);
                    self.session_uri = location;
                    Ok(())
                },
                None => Err(RedfishError::AuthFailed),
            }
        } else {
            Err(RedfishError::AuthFailed)
        }
    }

    /// Closes the session: forgets the token and the session URI, and gives
    /// back the request that deletes the session on the service when both
    /// were held.
    pub fn logout(&mut self) -> (r: Option<HttpRequest>)
        ensures
            (match r {
                Some(q) => Some(q@),
                None => None,
            }) == old(self)@.logout_request(),
            final(self)@ == old(self)@.without_session(),
            final(self).transport() == old(self).transport(),
    {
        let request = match (&self.session_token, &self.session_uri) {
            (Some(token), Some(uri)) => Some(
                HttpRequest {
                    method: Method::Delete,
                    url: self.resolve_url(uri.as_str()),
                    auth: Auth::Token(token.clone()),
                    body: RequestBody::Empty,
                },
            ),
            _ => None,
        };
        self.session_uri = None;
        self.session_token = None;
        request
    }

    /// A read of the resource at `path`, a path under the base URL.
    fn get_resource(&self, path: String) -> (r: HttpRequest)
        requires
            path@.len() > 0,
            path@[0] == '/',
        ensures
            r@ == self@.resource_get(path@),
    {
        self.get(path.as_str())
    }

    /// The request of `get_service_root`: get Service Root.
    pub fn get_service_root(&self) -> (r: HttpRequest)
        ensures
            r@ == self@.resource_get("/redfish/v1/"@),
    {
        proof {
            reveal_strlit("/redfish/v1/");
        }
        self.get_resource(String::from_str("/redfish/v1/"))
    }

    /// The request of `list_systems`: list all computer systems.
    pub fn list_systems(&self) -> (r: HttpRequest)
        ensures
            r@ == self@.resource_get("/redfish/v1/Systems"@),
    {
        proof {
            reveal_strlit("/redfish/v1/Systems");
        }
        self.get_resource(String::from_str("/redfish/v1/Systems"))
    }

    /// The request of `get_system`: get a specific system by ID.
    pub fn get_system(&self, id: &str) -> (r: HttpRequest)
        ensures
            r@ == self@.resource_get("/redfish/v1/Systems/"@ + id@),
    {
        proof {
            reveal_strlit("/redfish/v1/Systems/");
        }
        self.get_resource(String::from_str("/redfish/v1/Systems/").concat(id))
    }

    /// The request of `list_chassis`: list all chassis.
    pub fn list_chassis(&self) -> (r: HttpRequest)
        ensures
            r@ == self@.resource_get("/redfish/v1/Chassis"@),
    {
        proof {
            reveal_strlit("/redfish/v1/Chassis");
        }
        self.get_resource(String::from_str("/redfish/v1/Chassis"))
    }

    /// The request of `get_chassis`: get a specific chassis by ID.
    pub fn get_chassis(&self, id: &str) -> (r: HttpRequest)
        ensures
            r@ == self@.resource_get("/redfish/v1/Chassis/"@ + id@),
    {
        proof {
            reveal_strlit("/redfish/v1/Chassis/");
        }
        self.get_resource(String::from_str("/redfish/v1/Chassis/").concat(id))
    }

    /// The request of `list_managers`: list all managers (BMCs).
    pub fn list_managers(&self) -> (r: HttpRequest)
        ensures
            r@ == self@.resource_get("/redfish/v1/Managers"@),
    {
        proof {
            reveal_strlit("/redfish/v1/Managers");
        }
        self.get_resource(String::from_str("/redfish/v1/Managers"))
    }

    /// The request of `get_manager`: get a specific manager by ID.
    pub fn get_manager(&self, id: &str) -> (r: HttpRequest)
        ensures
            r@ == self@.resource_get("/redfish/v1/Managers/"@ + id@),
    {
        proof {
            reveal_strlit("/redfish/v1/Managers/");
        }
        self.get_resource(String::from_str("/redfish/v1/Managers/").concat(id))
    }

    /// The request of `get_power`: get power info for a chassis.
    pub fn get_power(&self, chassis_id: &str) -> (r: HttpRequest)
        ensures
            r@ == self@.resource_get("/redfish/v1/Chassis/"@ + chassis_id@ + "/Power"@),
    {
        proof {
            reveal_strlit("/redfish/v1/Chassis/");
        }
        self.get_resource(String::from_str("/redfish/v1/Chassis/").concat(chassis_id).concat("/Power"))
    }

    /// The request of `get_thermal`: get thermal info for a chassis.
    pub fn get_thermal(&self, chassis_id: &str) -> (r: HttpRequest)
        ensures
            r@ == self@.resource_get("/redfish/v1/Chassis/"@ + chassis_id@ + "/Thermal"@),
    {
        proof {
            reveal_strlit("/redfish/v1/Chassis/");
        }
        self.get_resource(String::from_str("/redfish/v1/Chassis/").concat(chassis_id).concat("/Thermal"))
    }

    /// The request of `list_processors`: list processors for a system.
    pub fn list_processors(&self, system_id: &str) -> (r: HttpRequest)
        ensures
            r@ == self@.resource_get("/redfish/v1/Systems/"@ + system_id@ + "/Processors"@),
    {
        proof {
            reveal_strlit("/redfish/v1/Systems/");
        }
        self.get_resource(String::from_str("/redfish/v1/Systems/").concat(system_id).concat("/Processors"))
    }

    /// The request of `get_processor`: get a specific processor.
    pub fn get_processor(&self, system_id: &str, proc_id: &str) -> (r: HttpRequest)
        ensures
            r@ == self@.resource_get("/redfish/v1/Systems/"@ + system_id@ + "/Processors/"@ + proc_id@),
    {
        proof {
            reveal_strlit("/redfish/v1/Systems/");
        }
        self.get_resource(String::from_str("/redfish/v1/Systems/").concat(system_id).concat("/Processors/").concat(proc_id))
    }

    /// The request of `list_memory`: list memory for a system.
    pub fn list_memory(&self, system_id: &str) -> (r: HttpRequest)
        ensures
            r@ == self@.resource_get("/redfish/v1/Systems/"@ + system_id@ + "/Memory"@),
    {
        proof {
            reveal_strlit("/redfish/v1/Systems/");
        }
        self.get_resource(String::from_str("/redfish/v1/Systems/").concat(system_id).concat("/Memory"))
    }

    /// The request of `get_memory`: get a specific memory module.
    pub fn get_memory(&self, system_id: &str, mem_id: &str) -> (r: HttpRequest)
        ensures
            r@ == self@.resource_get("/redfish/v1/Systems/"@ + system_id@ + "/Memory/"@ + mem_id@),
    {
        proof {
            reveal_strlit("/redfish/v1/Systems/");
        }
        self.get_resource(String::from_str("/redfish/v1/Systems/").concat(system_id).concat("/Memory/").concat(mem_id))
    }

    /// The request of `list_storage`: list storage for a system.
    pub fn list_storage(&self, system_id: &str) -> (r: HttpRequest)
        ensures
            r@ == self@.resource_get("/redfish/v1/Systems/"@ + system_id@ + "/Storage"@),
    {
        proof {
            reveal_strlit("/redfish/v1/Systems/");
        }
        self.get_resource(String::from_str("/redfish/v1/Systems/").concat(system_id).concat("/Storage"))
    }

    /// The request of `get_storage`: get a specific storage resource.
    pub fn get_storage(&self, system_id: &str, storage_id: &str) -> (r: HttpRequest)
        ensures
            r@ == self@.resource_get("/redfish/v1/Systems/"@ + system_id@ + "/Storage/"@ + storage_id@),
    {
        proof {
            reveal_strlit("/redfish/v1/Systems/");
        }
        self.get_resource(String::from_str("/redfish/v1/Systems/").concat(system_id).concat("/Storage/").concat(storage_id))
    }

    /// The request of `list_ethernet_interfaces`: list ethernet interfaces for a system.
    pub fn list_ethernet_interfaces(&self, system_id: &str) -> (r: HttpRequest)
        ensures
            r@ == self@.resource_get("/redfish/v1/Systems/"@ + system_id@ + "/EthernetInterfaces"@),
    {
        proof {
            reveal_strlit("/redfish/v1/Systems/");
        }
        self.get_resource(String::from_str("/redfish/v1/Systems/").concat(system_id).concat("/EthernetInterfaces"))
    }

    /// The request of `get_ethernet_interface`: get a specific ethernet interface.
    pub fn get_ethernet_interface(&self, system_id: &str, iface_id: &str) -> (r: HttpRequest)
        ensures
            r@ == self@.resource_get("/redfish/v1/Systems/"@ + system_id@ + "/EthernetInterfaces/"@ + iface_id@),
    {
        proof {
            reveal_strlit("/redfish/v1/Systems/");
        }
        self.get_resource(String::from_str("/redfish/v1/Systems/").concat(system_id).concat("/EthernetInterfaces/").concat(iface_id))
    }

    /// The request of `get_account_service`: get account service.
    pub fn get_account_service(&self) -> (r: HttpRequest)
        ensures
            r@ == self@.resource_get("/redfish/v1/AccountService"@),
    {
        proof {
            reveal_strlit("/redfish/v1/AccountService");
        }
        self.get_resource(String::from_str("/redfish/v1/AccountService"))
    }

    /// The request of `list_accounts`: list user accounts.
    pub fn list_accounts(&self) -> (r: HttpRequest)
        ensures
            r@ == self@.resource_get("/redfish/v1/AccountService/Accounts"@),
    {
        proof {
            reveal_strlit("/redfish/v1/AccountService/Accounts");
        }
        self.get_resource(String::from_str("/redfish/v1/AccountService/Accounts"))
    }

    /// The request of `get_update_service`: get update service.
    pub fn get_update_service(&self) -> (r: HttpRequest)
        ensures
            r@ == self@.resource_get("/redfish/v1/UpdateService"@),
    {
        proof {
            reveal_strlit("/redfish/v1/UpdateService");
        }
        self.get_resource(String::from_str("/redfish/v1/UpdateService"))
    }

    /// The request of `get_event_service`: get event service.
    pub fn get_event_service(&self) -> (r: HttpRequest)
        ensures
            r@ == self@.resource_get("/redfish/v1/EventService"@),
    {
        proof {
            reveal_strlit("/redfish/v1/EventService");
        }
        self.get_resource(String::from_str("/redfish/v1/EventService"))
    }

    /// The request of `list_log_entries`: list log entries for a manager.
    pub fn list_log_entries(&self, manager_id: &str, log_id: &str) -> (r: HttpRequest)
        ensures
            r@ == self@.resource_get("/redfish/v1/Managers/"@ + manager_id@ + "/LogServices/"@ + log_id@ + "/Entries"@),
    {
        proof {
            reveal_strlit("/redfish/v1/Managers/");
        }
        self.get_resource(String::from_str("/redfish/v1/Managers/").concat(manager_id).concat("/LogServices/").concat(log_id).concat("/Entries"))
    }

    /// The request that resets (powers on, off, restarts...) a system.
    /// `reset_type` is one of `On`, `ForceOff`, `GracefulShutdown`,
    /// `GracefulRestart`, `ForceRestart`, `Nmi`, `ForceOn`, `PushPowerButton`,
    /// `PowerCycle`; it is sent as it is.
    pub fn reset_system(&self, system_id: &str, reset_type: &str) -> (r: HttpRequest)
        ensures
            r@ == self@.reset_system_request(system_id@, reset_type@),
            r@ == self@.request(
                Method::Post,
                "/redfish/v1/Systems/"@ + system_id@ + "/Actions/ComputerSystem.Reset"@,
                BodyView::Json(json_text(reset_body_value(reset_type@))),
            ),
    {
        proof {
            reveal_strlit("/redfish/v1/Systems/");
        }
        let path = String::from_str("/redfish/v1/Systems/").concat(system_id).concat("/Actions/ComputerSystem.Reset");
        let body = reset_body(reset_type);
        self.post(path.as_str(), &body)
    }

    /// The request that powers a system on.
    pub fn power_on(&self, system_id: &str) -> (r: HttpRequest)
        ensures
            r@ == self@.reset_system_request(system_id@, "On"@),
    {
        self.reset_system(system_id, "On")
    }

    /// The request that forces a system off.
    pub fn power_off(&self, system_id: &str) -> (r: HttpRequest)
        ensures
            r@ == self@.reset_system_request(system_id@, "ForceOff"@),
    {
        self.reset_system(system_id, "ForceOff")
    }

    /// The request that shuts a system down gracefully.
    pub fn graceful_shutdown(&self, system_id: &str) -> (r: HttpRequest)
        ensures
            r@ == self@.reset_system_request(system_id@, "GracefulShutdown"@),
    {
        self.reset_system(system_id, "GracefulShutdown")
    }

    /// The request that restarts a system gracefully.
    pub fn graceful_restart(&self, system_id: &str) -> (r: HttpRequest)
        ensures
            r@ == self@.reset_system_request(system_id@, "GracefulRestart"@),
    {
        self.reset_system(system_id, "GracefulRestart")
    }

    /// The request that forces a system to restart.
    pub fn force_restart(&self, system_id: &str) -> (r: HttpRequest)
        ensures
            r@ == self@.reset_system_request(system_id@, "ForceRestart"@),
    {
        self.reset_system(system_id, "ForceRestart")
    }

    /// The request that power-cycles a system.
    pub fn power_cycle(&self, system_id: &str) -> (r: HttpRequest)
        ensures
            r@ == self@.reset_system_request(system_id@, "PowerCycle"@),
    {
        self.reset_system(system_id, "PowerCycle")
    }

    /// The request that sets the boot source override of a system.
    /// `target` is one of `None`, `Pxe`, `Cd`, `Usb`, `Hdd`, `BiosSetup`,
    /// `Diags`; `enabled` one of `Once`, `Continuous`, `Disabled`, and
    /// `Once` when absent.
    pub fn set_boot_override(&self, system_id: &str, target: &str, enabled: Option<&str>) -> (r: HttpRequest)
        ensures
            r@ == self@.boot_override_request(system_id@, target@, enabled_or_once(enabled)),
            r@ == self@.request(
                Method::Patch,
                "/redfish/v1/Systems/"@ + system_id@,
                BodyView::Json(json_text(boot_body_value(target@, enabled_or_once(enabled)))),
            ),
    {
        proof {
            reveal_strlit("/redfish/v1/Systems/");
        }
        let path = String::from_str("/redfish/v1/Systems/").concat(system_id);
        let enabled = match enabled {
            Some(e) => e,
            None => "Once",
        };
        let body = boot_body(target, enabled);
        self.patch(path.as_str(), &body)
    }

    /// The request that sets the next boot to PXE.
    pub fn set_boot_pxe(&self, system_id: &str) -> (r: HttpRequest)
        ensures
            r@ == self@.boot_override_request(system_id@, "Pxe"@, "Once"@),
    {
        self.set_boot_override(system_id, "Pxe", Some("Once"))
    }

    /// The request that sets the next boot to the BIOS setup.
    pub fn set_boot_bios(&self, system_id: &str) -> (r: HttpRequest)
        ensures
            r@ == self@.boot_override_request(system_id@, "BiosSetup"@, "Once"@),
    {
        self.set_boot_override(system_id, "BiosSetup", Some("Once"))
    }

    /// The request that resets a manager (BMC).
    pub fn reset_manager(&self, manager_id: &str, reset_type: &str) -> (r: HttpRequest)
        ensures
            r@ == self@.resource_request(
                Method::Post,
                "/redfish/v1/Managers/"@ + manager_id@ + "/Actions/Manager.Reset"@,
                BodyView::Json(reset_request_json(reset_type@)),
            ),
            r@ == self@.request(
                Method::Post,
                "/redfish/v1/Managers/"@ + manager_id@ + "/Actions/Manager.Reset"@,
                BodyView::Json(json_text(reset_body_value(reset_type@))),
            ),
    {
        proof {
            reveal_strlit("/redfish/v1/Managers/");
        }
        let path = String::from_str("/redfish/v1/Managers/").concat(manager_id).concat("/Actions/Manager.Reset");
        let body = reset_body(reset_type);
        self.post(path.as_str(), &body)
    }

    /// The request that clears a log service of a manager.
    pub fn clear_log(&self, manager_id: &str, log_id: &str) -> (r: HttpRequest)
        ensures
            r@ == self@.resource_request(
                Method::Post,
                "/redfish/v1/Managers/"@ + manager_id@ + "/LogServices/"@ + log_id@ + "/Actions/LogService.ClearLog"@,
                BodyView::Json("{}"@),
            ),
            r@ == self@.request(
                Method::Post,
                "/redfish/v1/Managers/"@ + manager_id@ + "/LogServices/"@ + log_id@ + "/Actions/LogService.ClearLog"@,
                BodyView::Json(json_text(json_object_value(Seq::empty()))),
            ),
    {
        proof {
            reveal_strlit("/redfish/v1/Managers/");
            reveal_strlit("{");
            reveal_strlit("}");
            reveal_strlit("{}");
        }
        let path = String::from_str("/redfish/v1/Managers/").concat(manager_id).concat("/LogServices/").concat(
            log_id,
        ).concat("/Actions/LogService.ClearLog");
        let entries: Vec<(String, serde_json::Value)> = Vec::new();
        proof {
            assert(entries_view(entries@) =~= Seq::<(Seq<char>, serde_json::Value)>::empty());
        }
        let body = object_value(entries);
        assert("{"@ + json_members(Seq::<(Seq<char>, serde_json::Value)>::empty()) + "}"@ =~= "{}"@);
        self.post(path.as_str(), &body)
    }
}

} // verus!
