use vstd::prelude::*;
use crate::error::{TransportError, TransportErrorCode};
use crate::json::{JsonValue, field_of, take_field};

verus! {

/// The id that ties a response to its request.
#[derive(Debug, PartialEq)]
pub enum RequestId {
    Number(i64),
    Text(String),
}

/// A protocol message. Exactly one of these shapes is carried by each wire value.
#[derive(Debug, PartialEq)]
pub enum Message {
    Request { id: RequestId, method: String, params: Option<JsonValue> },
    Notification { method: String, params: Option<JsonValue> },
    Response { id: RequestId, result: JsonValue },
    Error { id: RequestId, code: i64, message: String, data: Option<JsonValue> },
}

pub open spec fn key_jsonrpc() -> Seq<char> {
    seq!['j', 's', 'o', 'n', 'r', 'p', 'c']
}

pub open spec fn key_id() -> Seq<char> {
    seq!['i', 'd']
}

pub open spec fn key_method() -> Seq<char> {
    seq!['m', 'e', 't', 'h', 'o', 'd']
}

pub open spec fn key_params() -> Seq<char> {
    seq!['p', 'a', 'r', 'a', 'm', 's']
}

pub open spec fn key_result() -> Seq<char> {
    seq!['r', 'e', 's', 'u', 'l', 't']
}

pub open spec fn key_error() -> Seq<char> {
    seq!['e', 'r', 'r', 'o', 'r']
}

pub open spec fn key_code() -> Seq<char> {
    seq!['c', 'o', 'd', 'e']
}

pub open spec fn key_message() -> Seq<char> {
    seq!['m', 'e', 's', 's', 'a', 'g', 'e']
}

pub open spec fn key_data() -> Seq<char> {
    seq!['d', 'a', 't', 'a']
}

pub open spec fn version_text() -> Seq<char> {
    seq!['2', '.', '0']
}

/// How an id is written on the wire.
pub open spec fn id_json(id: RequestId) -> JsonValue {
    match id {
        RequestId::Number(n) => JsonValue::Int(n),
        RequestId::Text(s) => JsonValue::Str(s),
    }
}

/// The id a wire value stands for, when it is one.
pub open spec fn id_of_json(v: JsonValue) -> Option<RequestId> {
    match v {
        JsonValue::Int(n) => Some(RequestId::Number(n)),
        JsonValue::Str(s) => Some(RequestId::Text(s)),
        _ => None,
    }
}

/// The error carried by the `error` member of a wire object.
pub open spec fn error_of_json(v: JsonValue) -> Option<(i64, String, Option<JsonValue>)> {
    match v {
        JsonValue::Object(fields) => match (
            field_of(fields@, key_code()),
            field_of(fields@, key_message()),
        ) {
            (Some(JsonValue::Int(code)), Some(JsonValue::Str(text))) => Some(
                (code, text, field_of(fields@, key_data())),
            ),
            _ => None,
        },
        _ => None,
    }
}

/// The message a wire value stands for: a value with `method` is a request
/// when it has an id and a notification when it has none; otherwise one with
/// `result` is a response and one with `error` an error response. A value
/// that mixes these shapes, or whose members have the wrong kind, stands for
/// no message.
pub open spec fn message_of(v: JsonValue) -> Option<Message> {
    match v {
        JsonValue::Object(fields) => {
            let method = field_of(fields@, key_method());
            let id = field_of(fields@, key_id());
            let params = field_of(fields@, key_params());
            let result = field_of(fields@, key_result());
            let error = field_of(fields@, key_error());
            if method is Some {
                match method->0 {
                    JsonValue::Str(name) => if result is None && error is None {
                        match id {
                            Some(i) => match id_of_json(i) {
                                Some(rid) => Some(
                                    Message::Request { id: rid, method: name, params },
                                ),
                                None => None,
                            },
                            None => Some(Message::Notification { method: name, params }),
                        }
                    } else {
                        None
                    },
                    _ => None,
                }
            } else if result is Some {
                if error is None && id is Some && id_of_json(id->0) is Some {
                    Some(Message::Response { id: id_of_json(id->0)->0, result: result->0 })
                } else {
                    None
                }
            } else if error is Some {
                if id is Some && id_of_json(id->0) is Some && error_of_json(error->0) is Some {
                    let e = error_of_json(error->0)->0;
                    Some(
                        Message::Error {
                            id: id_of_json(id->0)->0,
                            code: e.0,
                            message: e.1,
                            data: e.2,
                        },
                    )
                } else {
                    None
                }
            } else {
                None
            }
        },
        _ => None,
    }
}

/// `v` is the wire form of `m`: the members that `m`'s shape has are there
/// with `m`'s contents, the others are absent, and `jsonrpc` is "2.0".
pub open spec fn encodes(m: Message, v: JsonValue) -> bool {
    match v {
        JsonValue::Object(fields) => {
            let f = |k: Seq<char>| field_of(fields@, k);
            &&& f(key_jsonrpc()) matches Some(JsonValue::Str(ver)) && ver@ == version_text()
            &&& match m {
                Message::Request { id, method, params } => {
                    &&& f(key_id()) == Some(id_json(id))
                    &&& f(key_method()) == Some(JsonValue::Str(method))
                    &&& f(key_params()) == params
                    &&& f(key_result()) is None
                    &&& f(key_error()) is None
                },
                Message::Notification { method, params } => {
                    &&& f(key_id()) is None
                    &&& f(key_method()) == Some(JsonValue::Str(method))
                    &&& f(key_params()) == params
                    &&& f(key_result()) is None
                    &&& f(key_error()) is None
                },
                Message::Response { id, result } => {
                    &&& f(key_id()) == Some(id_json(id))
                    &&& f(key_method()) is None
                    &&& f(key_params()) is None
                    &&& f(key_result()) == Some(result)
                    &&& f(key_error()) is None
                },
                Message::Error { id, code, message, data } => {
                    &&& f(key_id()) == Some(id_json(id))
                    &&& f(key_method()) is None
                    &&& f(key_params()) is None
                    &&& f(key_result()) is None
                    &&& f(key_error()) is Some
                    &&& error_of_json(f(key_error())->0) == Some((code, message, data))
                },
            }
        },
        _ => false,
    }
}

/// Decoding the wire form of a message gives the message back.
pub proof fn lemma_decode_encode(m: Message, v: JsonValue)
    requires
        encodes(m, v),
    ensures
        message_of(v) == Some(m),
{
}

fn named(name: &str, value: JsonValue) -> (r: (String, JsonValue))
    ensures
        r.0@ == name@,
        r.1 == value,
{
    (String::from_str(name), value)
}

proof fn lemma_keys()
    ensures
        "jsonrpc"@ == key_jsonrpc(),
        "id"@ == key_id(),
        "method"@ == key_method(),
        "params"@ == key_params(),
        "result"@ == key_result(),
        "error"@ == key_error(),
        "code"@ == key_code(),
        "message"@ == key_message(),
        "data"@ == key_data(),
        "2.0"@ == version_text(),
{
    reveal_strlit("jsonrpc");
    reveal_strlit("id");
    reveal_strlit("method");
    reveal_strlit("params");
    reveal_strlit("result");
    reveal_strlit("error");
    reveal_strlit("code");
    reveal_strlit("message");
    reveal_strlit("data");
    reveal_strlit("2.0");
}

impl RequestId {
    pub fn to_json(self) -> (r: JsonValue)
        ensures
            r == id_json(self),
    {
        match self {
            RequestId::Number(n) => JsonValue::Int(n),
            RequestId::Text(s) => JsonValue::Str(s),
        }
    }

    pub fn from_json(v: JsonValue) -> (r: Option<RequestId>)
        ensures
            r == id_of_json(v),
    {
        match v {
            JsonValue::Int(n) => Some(RequestId::Number(n)),
            JsonValue::Str(s) => Some(RequestId::Text(s)),
            _ => None,
        }
    }
}

fn invalid(text: &str) -> (r: TransportError)
    ensures
        r.code == TransportErrorCode::InvalidMessage,
{
    TransportError::with_text(TransportErrorCode::InvalidMessage, text)
}

/// Reads the `error` member of an error response.
fn error_from_json(v: JsonValue) -> (r: Option<(i64, String, Option<JsonValue>)>)
    ensures
        r == error_of_json(v),
{
    proof {
        lemma_keys();
    }
    match v {
        JsonValue::Object(mut fields) => {
            let code = take_field(&mut fields, "code");
            let text = take_field(&mut fields, "message");
            let data = take_field(&mut fields, "data");
            match (code, text) {
                (Some(JsonValue::Int(c)), Some(JsonValue::Str(t))) => Some((c, t, data)),
                _ => None,
            }
        },
        _ => None,
    }
}

impl Message {
    /// The wire form of the message.
    pub fn to_json(self) -> (r: JsonValue)
        ensures
            encodes(self, r),
    {
        proof {
            lemma_keys();
        }
        let mut fields: Vec<(String, JsonValue)> = Vec::new();
        fields.push(named("jsonrpc", JsonValue::Str(String::from_str("2.0"))));
        match self {
            Message::Request { id, method, params } => {
                fields.push(named("id", id.to_json()));
                fields.push(named("method", JsonValue::Str(method)));
                match params {
                    Some(p) => fields.push(named("params", p)),
                    None => {},
                }
            },
            Message::Notification { method, params } => {
                fields.push(named("method", JsonValue::Str(method)));
                match params {
                    Some(p) => fields.push(named("params", p)),
                    None => {},
                }
            },
            Message::Response { id, result } => {
                fields.push(named("id", id.to_json()));
                fields.push(named("result", result));
            },
            Message::Error { id, code, message, data } => {
                fields.push(named("id", id.to_json()));
                let mut inner: Vec<(String, JsonValue)> = Vec::new();
                inner.push(named("code", JsonValue::Int(code)));
                inner.push(named("message", JsonValue::Str(message)));
                match data {
                    Some(d) => inner.push(named("data", d)),
                    None => {},
                }
                proof {
                    reveal_with_fuel(field_of, 4);
                }
                fields.push(named("error", JsonValue::Object(inner)));
            },
        }
        proof {
            reveal_with_fuel(field_of, 5);
        }
        JsonValue::Object(fields)
    }

    /// The message a wire value stands for, or `InvalidMessage` when it
    /// stands for none.
    pub fn from_json(v: JsonValue) -> (r: Result<Message, TransportError>)
        ensures
            match message_of(v) {
                Some(m) => r == Ok::<Message, TransportError>(m),
                None => r matches Err(e) && e.code == TransportErrorCode::InvalidMessage,
            },
    {
        proof {
            lemma_keys();
        }
        match v {
            JsonValue::Object(mut fields) => {
                let method = take_field(&mut fields, "method");
                let id = take_field(&mut fields, "id");
                let params = take_field(&mut fields, "params");
                let result = take_field(&mut fields, "result");
                let error = take_field(&mut fields, "error");
                match method {
                    Some(JsonValue::Str(name)) => {
                        if result.is_some() || error.is_some() {
                            return Err(invalid("a message with a method has a result or an error"));
                        }
                        match id {
                            Some(i) => match RequestId::from_json(i) {
                                Some(rid) => Ok(Message::Request { id: rid, method: name, params }),
                                None => Err(invalid("the id is neither a number nor a string")),
                            },
                            None => Ok(Message::Notification { method: name, params }),
                        }
                    },
                    Some(_) => Err(invalid("the method is not a string")),
                    None => match result {
                        Some(res) => {
                            if error.is_some() {
                                return Err(invalid("a message has both a result and an error"));
                            }
                            match id {
                                Some(i) => match RequestId::from_json(i) {
                                    Some(rid) => Ok(Message::Response { id: rid, result: res }),
                                    None => Err(invalid("the id is neither a number nor a string")),
                                },
                                None => Err(invalid("a response has no id")),
                            }
                        },
                        None => match error {
                            Some(e) => {
                                let rid = match id {
                                    Some(i) => match RequestId::from_json(i) {
                                        Some(rid) => rid,
                                        None => {
                                            return Err(
                                                invalid("the id is neither a number nor a string"),
                                            );
                                        },
                                    },
                                    None => {
                                        return Err(invalid("an error response has no id"));
                                    },
                                };
                                match error_from_json(e) {
                                    Some((code, text, data)) => Ok(
                                        Message::Error { id: rid, code, message: text, data },
                                    ),
                                    None => Err(invalid("the error member is malformed")),
                                }
                            },
                            None => Err(invalid("the value has no method, result or error")),
                        },
                    },
                }
            },
            _ => Err(invalid("a message must be a JSON object")),
        }
    }
}

pub open spec fn key_request_id() -> Seq<char> {
    seq!['r', 'e', 'q', 'u', 'e', 's', 't', 'I', 'd']
}

pub open spec fn key_reason() -> Seq<char> {
    seq!['r', 'e', 'a', 's', 'o', 'n']
}

/// Announces to the peer that an outgoing request was cancelled. Transports
/// carry the announcement like any other message.
#[derive(Debug, Clone, Copy)]
pub struct CancellationHook;

impl CancellationHook {
    /// The `notifications/cancelled` notification for a request, whose
    /// parameters hold its id under `requestId` and no reason.
    pub fn cancel_outgoing_request(&self, id: RequestId) -> (r: Message)
        ensures
            r matches Message::Notification { method, params } && method@
                == "notifications/cancelled"@ && (params matches Some(JsonValue::Object(fields))
                && field_of(fields@, key_request_id()) == Some(id_json(id))
                && field_of(fields@, key_reason()) is None),
    {
        proof {
            reveal_strlit("requestId");
            assert("requestId"@ == key_request_id());
            assert("requestId"@ != key_reason());
        }
        let mut fields: Vec<(String, JsonValue)> = Vec::new();
        fields.push(named("requestId", id.to_json()));
        proof {
            reveal_with_fuel(field_of, 2);
        }
        Message::Notification {
            method: String::from_str("notifications/cancelled"),
            params: Some(JsonValue::Object(fields)),
        }
    }
}

} // verus!
