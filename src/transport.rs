use vstd::prelude::*;
use crate::error::{TransportError, TransportErrorCode};
use crate::framing::{encode_line, decode_line, line_payload};

verus! {

/// Whether a transport may carry messages.
#[derive(Debug, Clone, Copy, PartialEq, Eq, Structural)]
pub enum TransportState {
    Closed,
    Open,
}

/// Size of the read buffer a stdio transport starts with.
pub const DEFAULT_BUFFER_SIZE: usize = 65536;

/// What one read of a line-oriented stream gave.
#[derive(Debug)]
pub enum LineRead {
    Line(Vec<u8>),
    EndOfStream,
    Failed,
}

/// The transport once `close` has run: closed, with its other settings kept.
pub open spec fn after_close(c: StdioCore) -> StdioCore {
    StdioCore { state: TransportState::Closed, ..c }
}

/// Closing leaves a transport closed, and closing it again changes nothing;
/// what a closed transport answers to `send` and `receive` is
/// `ConnectionClosed` (see `prepare_send`, `begin_receive` and
/// `complete_receive`).
pub proof fn lemma_close_idempotent(c: StdioCore)
    ensures
        after_close(c).state == TransportState::Closed,
        after_close(after_close(c)) == after_close(c),
{
}

pub open spec fn closed_error(r: TransportError) -> bool {
    r.code == TransportErrorCode::ConnectionClosed
}

/// The decisions of a transport over a child process's pipes: one message per
/// line, fail-stop on a broken pipe, end of stream closes.
#[derive(Debug)]
pub struct StdioCore {
    pub state: TransportState,
    pub buffer_size: usize,
}

impl StdioCore {
    /// A transport over pipes that are already connected: it starts open.
    pub fn new() -> (r: StdioCore)
        ensures
            r.state == TransportState::Open,
            r.buffer_size == DEFAULT_BUFFER_SIZE,
    {
        StdioCore { state: TransportState::Open, buffer_size: DEFAULT_BUFFER_SIZE }
    }

    pub fn with_buffer_size(buffer_size: usize) -> (r: StdioCore)
        ensures
            r.state == TransportState::Open,
            r.buffer_size == buffer_size,
    {
        StdioCore { state: TransportState::Open, buffer_size }
    }

    pub fn is_open(&self) -> (r: bool)
        ensures
            r == (self.state == TransportState::Open),
    {
        match self.state {
            TransportState::Open => true,
            TransportState::Closed => false,
        }
    }

    pub fn set_open(&mut self, open: bool)
        ensures
            final(self).state == (if open {
                TransportState::Open
            } else {
                TransportState::Closed
            }),
            final(self).buffer_size == old(self).buffer_size,
    {
        self.state = if open {
            TransportState::Open
        } else {
            TransportState::Closed
        };
    }

    pub fn open(&mut self)
        ensures
            final(self).state == TransportState::Open,
            final(self).buffer_size == old(self).buffer_size,
    {
        self.set_open(true);
    }

    /// Closing is allowed from either state and changes nothing the second time.
    pub fn close(&mut self)
        ensures
            *final(self) == after_close(*old(self)),
    {
        self.set_open(false);
    }

    /// The bytes to write for a message whose JSON text is `payload`, or
    /// `ConnectionClosed` when the transport is closed.
    pub fn prepare_send(&self, payload: &[u8]) -> (r: Result<Vec<u8>, TransportError>)
        ensures
            self.state == TransportState::Closed ==> (r matches Err(e) && closed_error(e)),
            self.state == TransportState::Open ==> (r matches Ok(bytes) && bytes@
                == payload@.push(10u8)),
    {
        if !self.is_open() {
            return Err(
                TransportError::with_text(
                    TransportErrorCode::ConnectionClosed,
                    "stdio transport is closed",
                ),
            );
        }
        Ok(encode_line(payload))
    }

    /// Records whether writing and flushing the line succeeded. A failed write
    /// closes the transport, so later calls see `ConnectionClosed`.
    pub fn complete_send(&mut self, written: bool) -> (r: Result<(), TransportError>)
        ensures
            written ==> r is Ok && final(self).state == old(self).state,
            !written ==> (r matches Err(e) && e.code == TransportErrorCode::MessageSendFailed
                && final(self).state == TransportState::Closed),
            final(self).buffer_size == old(self).buffer_size,
    {
        if written {
            Ok(())
        } else {
            self.close();
            Err(
                TransportError::with_text(
                    TransportErrorCode::MessageSendFailed,
                    "failed to write message",
                ),
            )
        }
    }

    /// Whether a read may start: `ConnectionClosed` when the transport is closed.
    pub fn begin_receive(&self) -> (r: Result<(), TransportError>)
        ensures
            self.state == TransportState::Open <==> r is Ok,
            r matches Err(e) ==> closed_error(e),
    {
        if self.is_open() {
            Ok(())
        } else {
            Err(
                TransportError::with_text(
                    TransportErrorCode::ConnectionClosed,
                    "stdio transport is closed",
                ),
            )
        }
    }

    /// What a read gave, as the result of `receive`: the payload of a line,
    /// `None` at the end of the stream, `MessageReceiveFailed` when the read
    /// broke. The end of the stream and a broken read close the transport.
    pub fn complete_receive(&mut self, read: LineRead) -> (r: Result<
        Option<Vec<u8>>,
        TransportError,
    >)
        ensures
            final(self).buffer_size == old(self).buffer_size,
            old(self).state == TransportState::Closed ==> (r matches Err(e) && closed_error(e)
                && final(self).state == TransportState::Closed),
            old(self).state == TransportState::Open ==> match read {
                LineRead::Line(line) => r matches Ok(Some(p)) && p@ == line_payload(line@)
                    && final(self).state == TransportState::Open,
                LineRead::EndOfStream => r matches Ok(None) && final(self).state
                    == TransportState::Closed,
                LineRead::Failed => r matches Err(e) && e.code
                    == TransportErrorCode::MessageReceiveFailed && final(self).state
                    == TransportState::Closed,
            },
    {
        if !self.is_open() {
            return Err(
                TransportError::with_text(
                    TransportErrorCode::ConnectionClosed,
                    "stdio transport is closed",
                ),
            );
        }
        match read {
            LineRead::Line(line) => Ok(Some(decode_line(line.as_slice()))),
            LineRead::EndOfStream => {
                self.close();
                Ok(None)
            },
            LineRead::Failed => {
                self.close();
                Err(
                    TransportError::with_text(
                        TransportErrorCode::MessageReceiveFailed,
                        "failed to read line",
                    ),
                )
            },
        }
    }
}

} // verus!
