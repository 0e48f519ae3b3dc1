use vstd::prelude::*;

verus! {

/// The causes a transport operation can fail with.
#[derive(Debug, Clone, Copy, PartialEq, Eq, Structural)]
pub enum TransportErrorCode {
    ConnectionClosed,
    ConnectionFailed,
    ConnectionTimeout,
    MessageSendFailed,
    MessageReceiveFailed,
    InvalidMessage,
    ConfigurationError,
    AuthenticationError,
}

/// An error of a transport operation: its cause and a readable detail.
#[derive(Debug, Clone)]
pub struct TransportError {
    pub code: TransportErrorCode,
    pub message: String,
}

impl TransportError {
    pub fn new(code: TransportErrorCode, message: String) -> (r: TransportError)
        ensures
            r.code == code,
            r.message@ == message@,
    {
        TransportError { code, message }
    }

    /// An error of the given cause whose detail is a fixed text.
    pub fn with_text(code: TransportErrorCode, text: &str) -> (r: TransportError)
        ensures
            r.code == code,
            r.message@ == text@,
    {
        TransportError { code, message: String::from_str(text) }
    }

    pub fn code(&self) -> (r: TransportErrorCode)
        ensures
            r == self.code,
    {
        self.code
    }

    pub fn message(&self) -> (r: &str)
        ensures
            r@ == self.message@,
    {
        self.message.as_str()
    }
}

} // verus!
