use vstd::prelude::*;
use crate::error::{TransportError, TransportErrorCode};

verus! {

/// A version of the protocol.
#[derive(Debug, Clone, Copy)]
pub struct ProtocolVersion {
    text: &'static str,
}

impl ProtocolVersion {
    pub closed spec fn view(&self) -> Seq<char> {
        self.text@
    }

    /// The version of 26 March 2025.
    pub fn v_2025_03_26() -> (r: ProtocolVersion)
        ensures
            r.view() == "2025-03-26"@,
    {
        ProtocolVersion { text: "2025-03-26" }
    }

    /// The newest version this library speaks.
    pub fn latest() -> (r: ProtocolVersion)
        ensures
            r.view() == "2025-03-26"@,
    {
        ProtocolVersion::v_2025_03_26()
    }

    pub fn as_str(&self) -> (r: &'static str)
        ensures
            r@ == self.view(),
    {
        self.text
    }

    /// The version as a new text.
    pub fn to_text(&self) -> (r: String)
        ensures
            r@ == self.view(),
    {
        String::from_str(self.text)
    }
}

/// Text content of a message.
#[derive(Debug, Clone)]
pub struct TextContent {
    pub text: String,
    pub type_: String,
}

impl TextContent {
    pub fn new(text: &str) -> (r: TextContent)
        ensures
            r.text@ == text@,
            r.type_@ == "text"@,
    {
        TextContent { text: String::from_str(text), type_: String::from_str("text") }
    }
}

/// The name and version of a client or server.
#[derive(Debug, Clone)]
pub struct Implementation {
    pub name: String,
    pub version: String,
}

impl Implementation {
    pub fn new(name: &str, version: &str) -> (r: Implementation)
        ensures
            r.name@ == name@,
            r.version@ == version@,
    {
        Implementation { name: String::from_str(name), version: String::from_str(version) }
    }
}

/// A root a client exposes, by URI.
#[derive(Debug, Clone)]
pub struct Root {
    pub uri: String,
    pub name: Option<String>,
}

impl Root {
    pub fn new(uri: &str) -> (r: Root)
        ensures
            r.uri@ == uri@,
            r.name is None,
    {
        Root { uri: String::from_str(uri), name: None }
    }
}

/// A reference to a prompt, by name.
#[derive(Debug, Clone)]
pub struct PromptReference {
    pub name: String,
    pub type_: String,
}

impl PromptReference {
    pub fn new(name: &str) -> (r: PromptReference)
        ensures
            r.name@ == name@,
            r.type_@ == "ref/prompt"@,
    {
        PromptReference { name: String::from_str(name), type_: String::from_str("ref/prompt") }
    }
}

/// A reference to a resource, by URI.
#[derive(Debug, Clone)]
pub struct ResourceReference {
    pub uri: String,
    pub type_: String,
}

impl ResourceReference {
    pub fn new(uri: &str) -> (r: ResourceReference)
        ensures
            r.uri@ == uri@,
            r.type_@ == "ref/resource"@,
    {
        ResourceReference { uri: String::from_str(uri), type_: String::from_str("ref/resource") }
    }
}

/// What a completion request refers to.
#[derive(Debug, Clone)]
pub enum CompleteRequestParamsRef {
    PromptReference(PromptReference),
    ResourceReference(ResourceReference),
}

impl CompleteRequestParamsRef {
    pub fn new_prompt(name: &str) -> (r: CompleteRequestParamsRef)
        ensures
            r matches CompleteRequestParamsRef::PromptReference(p) && p.name@ == name@
                && p.type_@ == "ref/prompt"@,
    {
        CompleteRequestParamsRef::PromptReference(PromptReference::new(name))
    }

    pub fn new_resource(uri: &str) -> (r: CompleteRequestParamsRef)
        ensures
            r matches CompleteRequestParamsRef::ResourceReference(p) && p.uri@ == uri@
                && p.type_@ == "ref/resource"@,
    {
        CompleteRequestParamsRef::ResourceReference(ResourceReference::new(uri))
    }
}

/// The argument a completion request completes.
#[derive(Debug, Clone)]
pub struct CompleteRequestParamsArgument {
    pub name: String,
    pub value: String,
}

impl CompleteRequestParamsArgument {
    pub fn new(name: &str, value: &str) -> (r: CompleteRequestParamsArgument)
        ensures
            r.name@ == name@,
            r.value@ == value@,
    {
        CompleteRequestParamsArgument { name: String::from_str(name), value: String::from_str(value) }
    }
}

/// The parameters of a completion request.
#[derive(Debug, Clone)]
pub struct CompleteRequestParams {
    pub argument: CompleteRequestParamsArgument,
    pub ref_: CompleteRequestParamsRef,
}

impl CompleteRequestParams {
    pub fn new(r: CompleteRequestParamsRef, argument: CompleteRequestParamsArgument) -> (out: CompleteRequestParams)
        ensures
            out.ref_ == r,
            out.argument == argument,
    {
        CompleteRequestParams { argument, ref_: r }
    }
}

/// The standard, padded base64 text of some bytes.
pub uninterp spec fn base64_text_of(bytes: Seq<u8>) -> Seq<char>;

/// The bytes a standard, padded base64 text stands for; nothing for a text
/// that is not base64.
pub uninterp spec fn base64_bytes_of(text: Seq<char>) -> Option<Seq<u8>>;

/// Relies on `base64::Engine::encode` of the standard engine, whose text
/// depends on the bytes alone.
#[verifier::external_body]
fn base64_encode(bytes: &[u8]) -> (r: String)
    ensures
        r@ == base64_text_of(bytes@),
{
    base64::Engine::encode(&base64::prelude::BASE64_STANDARD, bytes)
}

/// Relies on `base64::Engine::decode` of the standard engine, whose answer
/// depends on the text alone.
#[verifier::external_body]
fn base64_decode(text: &str) -> (r: Option<Vec<u8>>)
    ensures
        match r {
            Some(b) => base64_bytes_of(text@) == Some(b@),
            None => base64_bytes_of(text@) is None,
        },
{
    base64::Engine::decode(&base64::prelude::BASE64_STANDARD, text.as_bytes()).ok()
}

/// Bytes that travel as base64 text.
#[derive(Debug, Clone, PartialEq, Eq, Default)]
pub struct Base64Bytes(pub Vec<u8>);

impl Base64Bytes {
    /// The base64 text the bytes travel as.
    pub fn to_base64(&self) -> (r: String)
        ensures
            r@ == base64_text_of(self.0@),
    {
        base64_encode(self.0.as_slice())
    }

    /// The bytes of a base64 text; `None` when the text is not base64.
    pub fn from_base64(text: &str) -> (r: Option<Base64Bytes>)
        ensures
            match base64_bytes_of(text@) {
                Some(b) => r matches Some(x) && x.0@ == b,
                None => r is None,
            },
    {
        match base64_decode(text) {
            Some(b) => Some(Base64Bytes(b)),
            None => None,
        }
    }
}

/// A request over HTTP/2 with TLS, as this transport would post it.
#[derive(Debug)]
pub struct PostRequest {
    pub method: String,
    pub path: String,
    pub content_type: String,
    pub body: Vec<u8>,
}

/// An HTTP/2 transport over TLS that posts each message to `/mcp`.
#[derive(Debug)]
pub struct Http2TlsTransport {}

impl Http2TlsTransport {
    pub fn new() -> (r: Http2TlsTransport) {
        Http2TlsTransport {  }
    }

    /// The request that carries a message's JSON text.
    pub fn request_for(&self, body: Vec<u8>) -> (r: PostRequest)
        ensures
            r.method@ == "POST"@,
            r.path@ == "/mcp"@,
            r.content_type@ == "application/json"@,
            r.body == body,
    {
        PostRequest {
            method: String::from_str("POST"),
            path: String::from_str("/mcp"),
            content_type: String::from_str("application/json"),
            body,
        }
    }

    /// The authentication handshake is not available on this transport.
    pub fn perform_auth(&self) -> (r: Result<(), TransportError>)
        ensures
            r matches Err(e) && e.code == TransportErrorCode::AuthenticationError,
    {
        Err(
            TransportError::with_text(
                TransportErrorCode::AuthenticationError,
                "HTTP/2 TLS authentication is not implemented",
            ),
        )
    }
}

} // verus!
