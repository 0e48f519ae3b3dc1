use vstd::prelude::*;
use crate::error::{TransportError, TransportErrorCode};
use crate::message::Message;

verus! {

/// `data: ` as bytes.
pub open spec fn data_prefix() -> Seq<u8> {
    seq![100u8, 97u8, 116u8, 97u8, 58u8, 32u8]
}

/// The bytes a payload byte becomes inside an event: a line feed starts a
/// new `data: ` line, any other byte stays.
pub open spec fn event_piece(b: u8) -> Seq<u8> {
    if b == 10 {
        seq![10u8] + data_prefix()
    } else {
        seq![b]
    }
}

pub open spec fn event_body(p: Seq<u8>) -> Seq<u8>
    decreases p.len(),
{
    if p.len() == 0 {
        Seq::empty()
    } else {
        event_body(p.drop_last()) + event_piece(p.last())
    }
}

/// The server-sent event that carries a payload: each of its lines behind
/// `data: `, and a blank line to end the event.
pub open spec fn sse_event_of(p: Seq<u8>) -> Seq<u8> {
    data_prefix() + event_body(p) + seq![10u8, 10u8]
}

fn push_prefix(out: &mut Vec<u8>)
    ensures
        final(out)@ == old(out)@ + data_prefix(),
{
    out.push(100u8);
    out.push(97u8);
    out.push(116u8);
    out.push(97u8);
    out.push(58u8);
    out.push(32u8);
    proof {
        assert(final(out)@ =~= old(out)@ + data_prefix());
    }
}

/// Frames a payload as one server-sent event.
pub fn sse_event(payload: &[u8]) -> (r: Vec<u8>)
    ensures
        r@ == sse_event_of(payload@),
{
    let mut out: Vec<u8> = Vec::new();
    push_prefix(&mut out);
    let mut i: usize = 0;
    while i < payload.len()
        invariant
            i <= payload@.len(),
            out@ == data_prefix() + event_body(payload@.subrange(0, i as int)),
        decreases payload@.len() - i,
    {
        let ghost before = out@;
        let b = payload[i];
        if b == 10u8 {
            out.push(10u8);
            push_prefix(&mut out);
        } else {
            out.push(b);
        }
        proof {
            let next = payload@.subrange(0, i + 1);
            assert(next.drop_last() == payload@.subrange(0, i as int));
            assert(next.last() == b);
            assert(out@ =~= before + event_piece(b));
        }
        i = i + 1;
    }
    assert(payload@.subrange(0, payload@.len() as int) == payload@);
    out.push(10u8);
    out.push(10u8);
    proof {
        assert(out@ =~= sse_event_of(payload@));
    }
    out
}

/// Capacity of the queue of events waiting for the client.
pub const SSE_QUEUE_CAPACITY: usize = 10;

/// The decisions of a one-way transport that pushes server-sent events.
#[derive(Debug)]
pub struct SseTransport {
    pub queue_open: bool,
}

impl SseTransport {
    pub fn new() -> (r: SseTransport)
        ensures
            r.queue_open,
    {
        SseTransport { queue_open: true }
    }

    /// The event to queue for a message's JSON text, or `ConnectionClosed`
    /// once the queue is gone.
    pub fn prepare_send(&self, payload: &[u8]) -> (r: Result<Vec<u8>, TransportError>)
        ensures
            self.queue_open ==> (r matches Ok(e) && e@ == sse_event_of(payload@)),
            !self.queue_open ==> (r matches Err(e) && e.code == TransportErrorCode::ConnectionClosed),
    {
        if self.queue_open {
            Ok(sse_event(payload))
        } else {
            Err(
                TransportError::with_text(
                    TransportErrorCode::ConnectionClosed,
                    "SSE event queue is closed",
                ),
            )
        }
    }

    /// Records whether the queue took the event; a queue whose reader is
    /// gone is closed for good.
    pub fn complete_send(&mut self, queued: bool) -> (r: Result<(), TransportError>)
        ensures
            queued ==> r is Ok && final(self).queue_open == old(self).queue_open,
            !queued ==> (r matches Err(e) && e.code == TransportErrorCode::MessageSendFailed)
                && !final(self).queue_open,
    {
        if queued {
            Ok(())
        } else {
            self.queue_open = false;
            Err(TransportError::with_text(TransportErrorCode::MessageSendFailed, "SSE send failed"))
        }
    }

    /// Events carry nothing from the client: `receive` always answers `None`.
    pub fn receive(&self) -> (r: Result<Option<Message>, TransportError>)
        ensures
            r matches Ok(None),
    {
        Ok(None)
    }

    /// The authentication handshake is not supported on this transport.
    pub fn perform_auth(&self) -> (r: Result<(), TransportError>)
        ensures
            r matches Err(e) && e.code == TransportErrorCode::AuthenticationError,
    {
        Err(
            TransportError::with_text(
                TransportErrorCode::AuthenticationError,
                "authentication is not supported over server-sent events",
            ),
        )
    }
}

} // verus!
