use vstd::prelude::*;
use crate::error::{TransportError, TransportErrorCode};
use crate::json::JsonValue;
use crate::message::{Message, message_of};
use crate::text::{same_text, decimal, decimal_text, joined};
use crate::tls::TlsConfig;
use crate::transport::TransportState;

verus! {

/// The CORS policy of an HTTP/2 server.
#[derive(Debug, Clone)]
pub struct CorsConfig {
    /// Allowed origins: a comma-separated list, or `*` for all.
    pub allowed_origins: String,
    /// Allowed methods: a comma-separated list, or `*` for all.
    pub allowed_methods: String,
    /// Allowed headers: a comma-separated list, or `*` for all.
    pub allowed_headers: String,
    pub allow_credentials: bool,
    /// How long a preflight answer may be cached, in seconds.
    pub max_age: Option<u32>,
    /// Headers the browser may expose: a comma-separated list.
    pub exposed_headers: Option<String>,
}

impl CorsConfig {
    /// Any origin and header; GET, POST and OPTIONS; credentials allowed;
    /// preflight answers cached for a day.
    pub fn default() -> (r: CorsConfig)
        ensures
            r.allowed_origins@ == "*"@,
            r.allowed_methods@ == "GET, POST, OPTIONS"@,
            r.allowed_headers@ == "*"@,
            r.allow_credentials,
            r.max_age == Some(86400u32),
            r.exposed_headers is None,
    {
        CorsConfig {
            allowed_origins: String::from_str("*"),
            allowed_methods: String::from_str("GET, POST, OPTIONS"),
            allowed_headers: String::from_str("*"),
            allow_credentials: true,
            max_age: Some(86400),
            exposed_headers: None,
        }
    }
}

/// The names and values of a header list.
pub open spec fn header_views(h: Seq<(String, String)>) -> Seq<(Seq<char>, Seq<char>)> {
    h.map_values(|p: (String, String)| (p.0@, p.1@))
}

/// The CORS headers a response carries under a policy, in order.
pub open spec fn cors_header_views(c: CorsConfig) -> Seq<(Seq<char>, Seq<char>)> {
    seq![
        ("Access-Control-Allow-Origin"@, c.allowed_origins@),
        ("Access-Control-Allow-Methods"@, c.allowed_methods@),
        ("Access-Control-Allow-Headers"@, c.allowed_headers@),
    ] + (if c.allow_credentials {
        seq![("Access-Control-Allow-Credentials"@, "true"@)]
    } else {
        Seq::empty()
    }) + (match c.max_age {
        Some(age) => seq![("Access-Control-Max-Age"@, decimal(age as nat))],
        None => Seq::empty(),
    }) + (match c.exposed_headers {
        Some(e) => seq![("Access-Control-Expose-Headers"@, e@)],
        None => Seq::empty(),
    })
}

/// The CORS headers of an optional policy; none without one.
pub open spec fn optional_cors_views(c: Option<CorsConfig>) -> Seq<(Seq<char>, Seq<char>)> {
    match c {
        Some(c) => cors_header_views(c),
        None => Seq::empty(),
    }
}

fn push_header(headers: &mut Vec<(String, String)>, name: &str, value: String)
    ensures
        header_views(final(headers)@) == header_views(old(headers)@).push((name@, value@)),
{
    let ghost before = headers@;
    headers.push((String::from_str(name), value));
    proof {
        assert(header_views(headers@) =~= header_views(before).push((name@, value@)));
    }
}

/// Appends the CORS headers of a policy.
pub fn add_cors_headers(headers: &mut Vec<(String, String)>, cors: &CorsConfig)
    ensures
        header_views(final(headers)@) == header_views(old(headers)@) + cors_header_views(*cors),
{
    let ghost before = header_views(headers@);
    push_header(headers, "Access-Control-Allow-Origin", cors.allowed_origins.clone());
    push_header(headers, "Access-Control-Allow-Methods", cors.allowed_methods.clone());
    push_header(headers, "Access-Control-Allow-Headers", cors.allowed_headers.clone());
    let ghost base = header_views(headers@);
    if cors.allow_credentials {
        push_header(headers, "Access-Control-Allow-Credentials", String::from_str("true"));
    }
    let ghost with_credentials = header_views(headers@);
    match cors.max_age {
        Some(age) => push_header(headers, "Access-Control-Max-Age", decimal_text(age as u64)),
        None => {},
    }
    let ghost with_age = header_views(headers@);
    match &cors.exposed_headers {
        Some(e) => push_header(headers, "Access-Control-Expose-Headers", e.clone()),
        None => {},
    }
    proof {
        let c = *cors;
        let cred = if c.allow_credentials {
            seq![("Access-Control-Allow-Credentials"@, "true"@)]
        } else {
            Seq::empty()
        };
        let age = match c.max_age {
            Some(a) => seq![("Access-Control-Max-Age"@, decimal(a as nat))],
            None => Seq::empty(),
        };
        let exp = match c.exposed_headers {
            Some(e) => seq![("Access-Control-Expose-Headers"@, e@)],
            None => Seq::<(Seq<char>, Seq<char>)>::empty(),
        };
        let first = seq![
            ("Access-Control-Allow-Origin"@, c.allowed_origins@),
            ("Access-Control-Allow-Methods"@, c.allowed_methods@),
            ("Access-Control-Allow-Headers"@, c.allowed_headers@),
        ];
        assert(base =~= before + first);
        assert(with_credentials =~= base + cred);
        assert(with_age =~= with_credentials + age);
        assert(header_views(headers@) =~= with_age + exp);
        assert(cors_header_views(c) == first + cred + age + exp);
        assert(header_views(headers@) =~= before + cors_header_views(c));
    }
}

fn optional_cors_headers(cors: &Option<CorsConfig>) -> (r: Vec<(String, String)>)
    ensures
        header_views(r@) == optional_cors_views(*cors),
{
    let mut headers: Vec<(String, String)> = Vec::new();
    proof {
        assert(header_views(headers@) =~= Seq::<(Seq<char>, Seq<char>)>::empty());
    }
    match cors {
        Some(c) => add_cors_headers(&mut headers, c),
        None => {},
    }
    proof {
        assert(header_views(headers@) =~= optional_cors_views(*cors));
    }
    headers
}

/// The body of a response.
#[derive(Debug)]
pub enum ResponseBody {
    Empty,
    Text(String),
    /// A message, sent as its JSON text.
    Json(Message),
}

/// A response of the HTTP/2 server.
#[derive(Debug)]
pub struct HttpResponse {
    pub status: u16,
    pub headers: Vec<(String, String)>,
    pub body: ResponseBody,
}

/// Where a request goes.
#[derive(Debug, Clone, Copy, PartialEq, Eq, Structural)]
pub enum Route {
    /// `OPTIONS` on any path: a CORS preflight.
    Preflight,
    /// `POST /message`: a message for the callback.
    PostMessage,
    /// `GET /events`: the event stream.
    Events,
    NotFound,
}

pub open spec fn route_of(method: Seq<char>, path: Seq<char>) -> Route {
    if method == "OPTIONS"@ {
        Route::Preflight
    } else if method == "POST"@ && path == "/message"@ {
        Route::PostMessage
    } else if method == "GET"@ && path == "/events"@ {
        Route::Events
    } else {
        Route::NotFound
    }
}

/// Dispatches a request by method and path.
pub fn route(method: &str, path: &str) -> (r: Route)
    ensures
        r == route_of(method@, path@),
{
    if same_text(method, "OPTIONS") {
        Route::Preflight
    } else if same_text(method, "POST") && same_text(path, "/message") {
        Route::PostMessage
    } else if same_text(method, "GET") && same_text(path, "/events") {
        Route::Events
    } else {
        Route::NotFound
    }
}

/// The answer to a CORS preflight: 204, the CORS headers, no body.
pub fn preflight_response(cors: &Option<CorsConfig>) -> (r: HttpResponse)
    ensures
        r.status == 204,
        header_views(r.headers@) == optional_cors_views(*cors),
        r.body is Empty,
{
    HttpResponse { status: 204, headers: optional_cors_headers(cors), body: ResponseBody::Empty }
}

/// A plain-text answer with the CORS headers.
pub fn text_response(status: u16, cors: &Option<CorsConfig>, text: String) -> (r: HttpResponse)
    ensures
        r.status == status,
        header_views(r.headers@) == optional_cors_views(*cors),
        r.body matches ResponseBody::Text(t) && t@ == text@,
{
    HttpResponse { status, headers: optional_cors_headers(cors), body: ResponseBody::Text(text) }
}

/// The event stream's placeholder answer.
pub fn events_response(cors: &Option<CorsConfig>) -> (r: HttpResponse)
    ensures
        r.status == 200,
        header_views(r.headers@) == seq![
            ("content-type"@, "text/event-stream"@),
            ("cache-control"@, "no-cache"@),
            ("connection"@, "keep-alive"@),
        ] + optional_cors_views(*cors),
        r.body matches ResponseBody::Text(t) && t@ == "data: Connected\n\n"@,
{
    let mut headers: Vec<(String, String)> = Vec::new();
    let ghost empty = header_views(headers@);
    push_header(&mut headers, "content-type", String::from_str("text/event-stream"));
    push_header(&mut headers, "cache-control", String::from_str("no-cache"));
    push_header(&mut headers, "connection", String::from_str("keep-alive"));
    let ghost fixed = header_views(headers@);
    match cors {
        Some(c) => add_cors_headers(&mut headers, c),
        None => {},
    }
    proof {
        assert(empty =~= Seq::<(Seq<char>, Seq<char>)>::empty());
        assert(header_views(headers@) =~= fixed + optional_cors_views(*cors));
    }
    HttpResponse {
        status: 200,
        headers,
        body: ResponseBody::Text(String::from_str("data: Connected\n\n")),
    }
}

/// What became of a request's body before it reached the callback.
#[derive(Debug)]
pub enum RequestBody {
    /// The body could not be read; the text says why.
    Unreadable(String),
    /// The body is not JSON text; the text says why.
    NotJson(String),
    /// The body's JSON value.
    Parsed(JsonValue),
}

/// The answer to a request, and the message to broadcast to the
/// subscribers, if any.
pub open spec fn answers<F: Fn(Message) -> Result<Message, TransportError>>(
    method: Seq<char>,
    path: Seq<char>,
    body: RequestBody,
    cors: Option<CorsConfig>,
    callback: F,
    r: (HttpResponse, bool),
) -> bool {
    let (resp, broadcast) = r;
    match route_of(method, path) {
        Route::Preflight => resp.status == 204 && resp.body is Empty && header_views(resp.headers@)
            == optional_cors_views(cors) && !broadcast,
        Route::Events => resp.status == 200 && header_views(resp.headers@) == seq![
            ("content-type"@, "text/event-stream"@),
            ("cache-control"@, "no-cache"@),
            ("connection"@, "keep-alive"@),
        ] + optional_cors_views(cors) && (resp.body matches ResponseBody::Text(t) && t@
            == "data: Connected\n\n"@) && !broadcast,
        Route::NotFound => resp.status == 404 && header_views(resp.headers@) == optional_cors_views(
            cors,
        ) && (resp.body matches ResponseBody::Text(t) && t@ == "Not found"@) && !broadcast,
        Route::PostMessage => match body {
            RequestBody::Parsed(v) if message_of(v) is Some => {
                let m = message_of(v)->0;
                match resp.body {
                    ResponseBody::Json(reply) => resp.status == 200 && call_ensures(
                        callback,
                        (m,),
                        Ok::<Message, TransportError>(reply),
                    ) && header_views(resp.headers@) == seq![
                        ("content-type"@, "application/json"@),
                    ] + optional_cors_views(cors) && broadcast,
                    ResponseBody::Text(_) => resp.status == 500 && (exists|e: TransportError|
                        call_ensures(callback, (m,), Err::<Message, TransportError>(e)))
                        && header_views(resp.headers@) == optional_cors_views(cors) && !broadcast,
                    ResponseBody::Empty => false,
                }
            },
            _ => resp.status == 400 && header_views(resp.headers@) == optional_cors_views(cors)
                && resp.body is Text && !broadcast,
        },
    }
}

/// Serves one request: a preflight gets 204 with the CORS headers; a posted
/// message is handed to `callback`, whose answer comes back as JSON with 200
/// (and is to be broadcast to the subscribers) or, when it fails, as 500; a
/// body that is no message gets 400; the event stream gets its placeholder;
/// anything else 404. Every answer carries the CORS headers.
pub fn handle_request<F: Fn(Message) -> Result<Message, TransportError>>(
    method: &str,
    path: &str,
    body: RequestBody,
    cors: &Option<CorsConfig>,
    callback: &F,
) -> (r: (HttpResponse, bool))
    requires
        forall|m: Message| call_requires(*callback, (m,)),
    ensures
        answers(method@, path@, body, *cors, *callback, r),
{
    match route(method, path) {
        Route::Preflight => (preflight_response(cors), false),
        Route::Events => (events_response(cors), false),
        Route::NotFound => (text_response(404, cors, String::from_str("Not found")), false),
        Route::PostMessage => {
            let value = match body {
                RequestBody::Unreadable(why) => {
                    let text = joined("Failed to read request body: ", why.as_str());
                    return (text_response(400, cors, text), false);
                },
                RequestBody::NotJson(why) => {
                    let text = joined("Failed to parse message: ", why.as_str());
                    return (text_response(400, cors, text), false);
                },
                RequestBody::Parsed(v) => v,
            };
            let message = match Message::from_json(value) {
                Ok(m) => m,
                Err(e) => {
                    let text = joined("Failed to parse message: ", e.message.as_str());
                    return (text_response(400, cors, text), false);
                },
            };
            match callback(message) {
                Ok(reply) => {
                    let mut headers: Vec<(String, String)> = Vec::new();
                    let ghost empty = header_views(headers@);
                    push_header(&mut headers, "content-type", String::from_str("application/json"));
                    let ghost fixed = header_views(headers@);
                    match cors {
                        Some(c) => add_cors_headers(&mut headers, c),
                        None => {},
                    }
                    proof {
                        assert(empty =~= Seq::<(Seq<char>, Seq<char>)>::empty());
                        assert(header_views(headers@) =~= fixed + optional_cors_views(*cors));
                    }
                    (HttpResponse { status: 200, headers, body: ResponseBody::Json(reply) }, true)
                },
                Err(e) => {
                    let text = joined("Failed to process message: ", e.message.as_str());
                    (text_response(500, cors, text), false)
                },
            }
        },
    }
}

/// TLS settings of an HTTP/2 client.
#[derive(Debug, Clone)]
pub enum ClientTlsConfig {
    /// Plain HTTP, no TLS.
    Plain,
    /// TLS with the system's root certificates.
    Default,
    /// TLS with a root certificate of one's own; an empty path means the
    /// system's roots.
    Custom {
        root_cert_path: String,
        verify_server: bool,
        /// Client certificate, for mutual TLS.
        client_cert_path: Option<String>,
        /// Client key, for mutual TLS.
        client_key_path: Option<String>,
        /// Server name to send for SNI.
        server_name: Option<String>,
    },
}

impl ClientTlsConfig {
    /// Whether the client speaks TLS.
    pub fn use_tls(&self) -> (r: bool)
        ensures
            r == !(*self is Plain),
    {
        match self {
            ClientTlsConfig::Plain => false,
            _ => true,
        }
    }
}

/// A server's base URL: `https` with TLS and `http` without, the host and
/// the port.
pub open spec fn base_url_of(use_tls: bool, host: Seq<char>, port: u16) -> Seq<char> {
    (if use_tls {
        "https://"@
    } else {
        "http://"@
    }) + host + ":"@ + decimal(port as nat)
}

/// Where and how an HTTP/2 client connects.
#[derive(Debug, Clone)]
pub struct Http2Config {
    pub tls_config: ClientTlsConfig,
    pub port: u16,
    pub host: String,
}

impl Http2Config {
    /// Plain HTTP to 127.0.0.1:8080.
    pub fn default() -> (r: Http2Config)
        ensures
            r.tls_config is Plain,
            r.port == 8080,
            r.host@ == "127.0.0.1"@,
    {
        Http2Config {
            tls_config: ClientTlsConfig::Plain,
            port: 8080,
            host: String::from_str("127.0.0.1"),
        }
    }

    /// The base URL of the server: scheme, host and port.
    pub fn base_url(&self) -> (r: String)
        ensures
            r@ == base_url_of(!(self.tls_config is Plain), self.host@, self.port),
    {
        let mut url = if self.tls_config.use_tls() {
            String::from_str("https://")
        } else {
            String::from_str("http://")
        };
        url.append(self.host.as_str());
        url.append(":");
        url.append(decimal_text(self.port as u64).as_str());
        url
    }
}

/// Builds the settings of an HTTP/2 client.
#[derive(Debug, Clone)]
pub struct Http2Builder {
    pub config: Http2Config,
}

impl Http2Builder {
    pub fn new() -> (r: Http2Builder)
        ensures
            r.config.tls_config is Plain,
            r.config.port == 8080,
            r.config.host@ == "127.0.0.1"@,
    {
        Http2Builder { config: Http2Config::default() }
    }

    pub fn default() -> (r: Http2Builder)
        ensures
            r.config.tls_config is Plain,
            r.config.port == 8080,
            r.config.host@ == "127.0.0.1"@,
    {
        Http2Builder::new()
    }

    /// TLS with the system's roots, or plain HTTP.
    pub fn with_tls(self, use_tls: bool) -> (r: Http2Builder)
        ensures
            use_tls ==> r.config.tls_config is Default,
            !use_tls ==> r.config.tls_config is Plain,
            r.config.port == self.config.port,
            r.config.host == self.config.host,
    {
        let mut b = self;
        b.config.tls_config = if use_tls {
            ClientTlsConfig::Default
        } else {
            ClientTlsConfig::Plain
        };
        b
    }

    /// TLS with the given root certificate, and no client certificate or
    /// server name yet.
    pub fn with_custom_tls(self, root_cert_path: String, verify_server: bool) -> (r: Http2Builder)
        ensures
            r.config.tls_config == (ClientTlsConfig::Custom {
                root_cert_path,
                verify_server,
                client_cert_path: None,
                client_key_path: None,
                server_name: None,
            }),
            r.config.port == self.config.port,
            r.config.host == self.config.host,
    {
        let mut b = self;
        b.config.tls_config = ClientTlsConfig::Custom {
            root_cert_path,
            verify_server,
            client_cert_path: None,
            client_key_path: None,
            server_name: None,
        };
        b
    }

    /// A client certificate for mutual TLS. A custom setting keeps its other
    /// parts; otherwise a custom setting on the system's roots, verifying the
    /// server, is made for it.
    pub fn with_client_cert(self, cert_path: String, key_path: String) -> (r: Http2Builder)
        ensures
            r.config.port == self.config.port,
            r.config.host == self.config.host,
            match self.config.tls_config {
                ClientTlsConfig::Custom { root_cert_path, verify_server, server_name, .. } => r.config.tls_config
                    == (ClientTlsConfig::Custom {
                    root_cert_path,
                    verify_server,
                    client_cert_path: Some(cert_path),
                    client_key_path: Some(key_path),
                    server_name,
                }),
                _ => r.config.tls_config matches ClientTlsConfig::Custom {
                    root_cert_path,
                    verify_server,
                    client_cert_path,
                    client_key_path,
                    server_name,
                } && root_cert_path@ == ""@ && verify_server && client_cert_path == Some(cert_path)
                    && client_key_path == Some(key_path) && server_name is None,
            },
    {
        let mut b = self;
        b.config.tls_config = match b.config.tls_config {
            ClientTlsConfig::Custom { root_cert_path, verify_server, server_name, .. } => {
                ClientTlsConfig::Custom {
                    root_cert_path,
                    verify_server,
                    client_cert_path: Some(cert_path),
                    client_key_path: Some(key_path),
                    server_name,
                }
            },
            _ => ClientTlsConfig::Custom {
                root_cert_path: String::from_str(""),
                verify_server: true,
                client_cert_path: Some(cert_path),
                client_key_path: Some(key_path),
                server_name: None,
            },
        };
        b
    }

    /// The server name to send for SNI. A custom setting keeps its other
    /// parts; otherwise a custom setting on the system's roots, verifying the
    /// server, is made for it.
    pub fn with_sni(self, sni: String) -> (r: Http2Builder)
        ensures
            r.config.port == self.config.port,
            r.config.host == self.config.host,
            match self.config.tls_config {
                ClientTlsConfig::Custom {
                    root_cert_path,
                    verify_server,
                    client_cert_path,
                    client_key_path,
                    ..
                } => r.config.tls_config == (ClientTlsConfig::Custom {
                    root_cert_path,
                    verify_server,
                    client_cert_path,
                    client_key_path,
                    server_name: Some(sni),
                }),
                _ => r.config.tls_config matches ClientTlsConfig::Custom {
                    root_cert_path,
                    verify_server,
                    client_cert_path,
                    client_key_path,
                    server_name,
                } && root_cert_path@ == ""@ && verify_server && client_cert_path is None
                    && client_key_path is None && server_name == Some(sni),
            },
    {
        let mut b = self;
        b.config.tls_config = match b.config.tls_config {
            ClientTlsConfig::Custom {
                root_cert_path,
                verify_server,
                client_cert_path,
                client_key_path,
                ..
            } => ClientTlsConfig::Custom {
                root_cert_path,
                verify_server,
                client_cert_path,
                client_key_path,
                server_name: Some(sni),
            },
            _ => ClientTlsConfig::Custom {
                root_cert_path: String::from_str(""),
                verify_server: true,
                client_cert_path: None,
                client_key_path: None,
                server_name: Some(sni),
            },
        };
        b
    }

    pub fn with_port(self, port: u16) -> (r: Http2Builder)
        ensures
            r.config.port == port,
            r.config.host == self.config.host,
            r.config.tls_config == self.config.tls_config,
    {
        let mut b = self;
        b.config.port = port;
        b
    }

    pub fn with_host(self, host: String) -> (r: Http2Builder)
        ensures
            r.config.host == host,
            r.config.port == self.config.port,
            r.config.tls_config == self.config.tls_config,
    {
        let mut b = self;
        b.config.host = host;
        b
    }

    /// The settings built so far.
    pub fn into_config(self) -> (r: Http2Config)
        ensures
            r == self.config,
    {
        self.config
    }
}

/// The target a client posts each message to: the server's base URL
/// (with `localhost` when the URL has no host) followed by `/message`.
pub open spec fn post_target_of(use_tls: bool, host: Option<Seq<char>>, port: u16) -> Seq<char> {
    base_url_of(
        use_tls,
        match host {
            Some(h) => h,
            None => "localhost"@,
        },
        port,
    ) + "/message"@
}

/// The URI a client posts a message to: scheme, the server's host
/// (`localhost` when the URL has none), its port, and `/message`.
pub fn post_target(use_tls: bool, host: Option<&str>, port: u16) -> (r: String)
    ensures
        r@ == post_target_of(
            use_tls,
            match host {
                Some(h) => Some(h@),
                None => None,
            },
            port,
        ),
{
    let mut uri = if use_tls {
        String::from_str("https://")
    } else {
        String::from_str("http://")
    };
    match host {
        Some(h) => uri.append(h),
        None => uri.append("localhost"),
    }
    uri.append(":");
    uri.append(decimal_text(port as u64).as_str());
    uri.append("/message");
    proof {
        let h = match host {
            Some(h) => h@,
            None => "localhost"@,
        };
        assert(uri@ =~= base_url_of(use_tls, h, port) + "/message"@);
    }
    uri
}

/// A client posts to the base URL its settings describe, followed by
/// `/message`: host and port are kept.
pub proof fn lemma_post_target_on_base_url(config: Http2Config)
    ensures
        post_target_of(!(config.tls_config is Plain), Some(config.host@), config.port)
            == base_url_of(!(config.tls_config is Plain), config.host@, config.port) + "/message"@,
{
}

/// How a post ended: with the server's status, or without an answer.
#[derive(Debug, Clone, Copy, PartialEq, Eq, Structural)]
pub enum PostOutcome {
    Status(u16),
    NoAnswer,
}

/// The result of `send` for a post: a status in 200..=299 is success, any
/// other status and a post that got no answer are `MessageSendFailed`.
pub fn post_result(outcome: PostOutcome) -> (r: Result<(), TransportError>)
    ensures
        r is Ok <==> (outcome matches PostOutcome::Status(s) && 200 <= s <= 299),
        r matches Err(e) ==> e.code == TransportErrorCode::MessageSendFailed,
{
    match outcome {
        PostOutcome::Status(s) => {
            if 200 <= s && s <= 299 {
                Ok(())
            } else {
                let text = joined("HTTP/2 request failed with status ", decimal_text(s as u64).as_str());
                Err(TransportError::new(TransportErrorCode::MessageSendFailed, text))
            }
        },
        PostOutcome::NoAnswer => Err(
            TransportError::with_text(TransportErrorCode::MessageSendFailed, "HTTP/2 request failed"),
        ),
    }
}

/// The open/closed decisions of an HTTP/2 transport handle, client or
/// server: `open` and `close` are idempotent; a handle that is not open
/// answers `ConnectionClosed`.
#[derive(Debug)]
pub struct Http2State {
    pub state: TransportState,
    /// Whether the handle holds its outbound queue or channel.
    pub has_sender: bool,
}

impl Http2State {
    /// A handle that is not open yet.
    pub fn new() -> (r: Http2State)
        ensures
            r.state == TransportState::Closed && !r.has_sender,
    {
        Http2State { state: TransportState::Closed, has_sender: false }
    }

    /// A handle made with its channels: open.
    pub fn with_channels() -> (r: Http2State)
        ensures
            r.state == TransportState::Open && r.has_sender,
    {
        Http2State { state: TransportState::Open, has_sender: true }
    }

    pub fn is_open(&self) -> (r: bool)
        ensures
            r == (self.state == TransportState::Open),
    {
        match self.state {
            TransportState::Open => true,
            TransportState::Closed => false,
        }
    }

    /// Whether `open` has channels to make; an open handle stays as it is.
    pub fn open(&mut self) -> (r: bool)
        ensures
            r == (old(self).state == TransportState::Closed),
            r ==> final(self).state == TransportState::Open && final(self).has_sender,
            !r ==> *final(self) == *old(self),
    {
        if self.is_open() {
            false
        } else {
            self.state = TransportState::Open;
            self.has_sender = true;
            true
        }
    }

    /// Whether `close` has channels to let go of; a closed handle stays as it is.
    pub fn close(&mut self) -> (r: bool)
        ensures
            r == (old(self).state == TransportState::Open),
            final(self).state == TransportState::Closed,
            r ==> !final(self).has_sender,
            !r ==> *final(self) == *old(self),
    {
        if self.is_open() {
            self.state = TransportState::Closed;
            self.has_sender = false;
            true
        } else {
            false
        }
    }

    /// Whether a message may go out: `ConnectionClosed` when the handle is
    /// closed, `MessageSendFailed` when it holds no sender.
    pub fn begin_send(&self) -> (r: Result<(), TransportError>)
        ensures
            r is Ok <==> self.state == TransportState::Open && self.has_sender,
            self.state == TransportState::Closed ==> (r matches Err(e) && e.code
                == TransportErrorCode::ConnectionClosed),
            self.state == TransportState::Open && !self.has_sender ==> (r matches Err(e)
                && e.code == TransportErrorCode::MessageSendFailed),
    {
        if !self.is_open() {
            return Err(
                TransportError::with_text(
                    TransportErrorCode::ConnectionClosed,
                    "HTTP/2 transport is not open",
                ),
            );
        }
        if !self.has_sender {
            return Err(
                TransportError::with_text(TransportErrorCode::MessageSendFailed, "no sender available"),
            );
        }
        Ok(())
    }

    /// Records whether the inbound queue took the message; a queue whose
    /// reader is gone closes the handle.
    pub fn complete_send(&mut self, queued: bool) -> (r: Result<(), TransportError>)
        ensures
            queued ==> r is Ok && *final(self) == *old(self),
            !queued ==> (r matches Err(e) && e.code == TransportErrorCode::MessageSendFailed)
                && final(self).state == TransportState::Closed,
    {
        if queued {
            Ok(())
        } else {
            self.state = TransportState::Closed;
            Err(
                TransportError::with_text(
                    TransportErrorCode::MessageSendFailed,
                    "failed to send message",
                ),
            )
        }
    }

    /// Whether a receive may start: `ConnectionClosed` when the handle is closed.
    pub fn begin_receive(&self) -> (r: Result<(), TransportError>)
        ensures
            r is Ok <==> self.state == TransportState::Open,
            r matches Err(e) ==> e.code == TransportErrorCode::ConnectionClosed,
    {
        if self.is_open() {
            Ok(())
        } else {
            Err(
                TransportError::with_text(
                    TransportErrorCode::ConnectionClosed,
                    "HTTP/2 transport is not open",
                ),
            )
        }
    }
}

/// Settings of an HTTP/2 server.
#[derive(Debug, Clone)]
pub struct Http2ServerConfig {
    pub host: String,
    pub port: u16,
    pub tls_config: Option<TlsConfig>,
    pub cors_config: Option<CorsConfig>,
}

impl Http2ServerConfig {
    /// 127.0.0.1:8080, no TLS, the default CORS policy.
    pub fn default() -> (r: Http2ServerConfig)
        ensures
            r.host@ == "127.0.0.1"@,
            r.port == 8080,
            r.tls_config is None,
            r.cors_config matches Some(c) && c.allowed_origins@ == "*"@ && c.allowed_methods@
                == "GET, POST, OPTIONS"@ && c.allowed_headers@ == "*"@ && c.allow_credentials
                && c.max_age == Some(86400u32) && c.exposed_headers is None,
    {
        Http2ServerConfig {
            host: String::from_str("127.0.0.1"),
            port: 8080,
            tls_config: None,
            cors_config: Some(CorsConfig::default()),
        }
    }
}

/// How the listener treats accepted connections.
#[derive(Debug, Clone, Copy, PartialEq, Eq, Structural)]
pub enum ListenerKind {
    /// HTTP/2 straight over TCP.
    Plain,
    /// A TLS handshake with a manual certificate first.
    ManualTls,
    /// A TLS handshake with an ACME certificate first.
    AcmeTls,
}

/// The listener a server's TLS setting calls for.
pub fn listener_kind(tls: &Option<TlsConfig>) -> (r: ListenerKind)
    ensures
        r == (match *tls {
            None => ListenerKind::Plain,
            Some(TlsConfig::Manual { .. }) => ListenerKind::ManualTls,
            Some(TlsConfig::Acme { .. }) => ListenerKind::AcmeTls,
        }),
{
    match tls {
        None => ListenerKind::Plain,
        Some(TlsConfig::Manual { .. }) => ListenerKind::ManualTls,
        Some(TlsConfig::Acme { .. }) => ListenerKind::AcmeTls,
    }
}

/// The error of a server that could not bind its address.
pub fn bind_failure() -> (r: TransportError)
    ensures
        r.code == TransportErrorCode::ConnectionFailed,
{
    TransportError::with_text(TransportErrorCode::ConnectionFailed, "failed to bind to address")
}

/// What the server's message task broadcasts for a message the callback
/// handled: its reply, or nothing when the callback failed.
pub fn reply_to_broadcast(outcome: Result<Message, TransportError>) -> (r: Option<Message>)
    ensures
        match outcome {
            Ok(m) => r == Some(m),
            Err(_) => r is None,
        },
{
    match outcome {
        Ok(m) => Some(m),
        Err(_) => None,
    }
}

} // verus!
