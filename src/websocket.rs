use vstd::prelude::*;
use crate::error::{TransportError, TransportErrorCode};
use crate::json::JsonValue;
use crate::message::{Message, message_of};
use crate::text::same_text;
use crate::transport::TransportState;

verus! {

/// The value of the first header named `name`.
pub open spec fn header_of(headers: Seq<(String, String)>, name: Seq<char>) -> Option<Seq<char>>
    decreases headers.len(),
{
    if headers.len() == 0 {
        None
    } else if headers[0].0@ == name {
        Some(headers[0].1@)
    } else {
        header_of(headers.drop_first(), name)
    }
}

/// Header names appear at most once.
pub open spec fn distinct_names(headers: Seq<(String, String)>) -> bool {
    forall|i: int, j: int|
        0 <= i < j < headers.len() ==> #[trigger] headers[i].0@ != #[trigger] headers[j].0@
}

proof fn lemma_header_of_index(headers: Seq<(String, String)>, i: int)
    requires
        distinct_names(headers),
        0 <= i < headers.len(),
    ensures
        header_of(headers, headers[i].0@) == Some(headers[i].1@),
    decreases i,
{
    if i > 0 {
        let rest = headers.drop_first();
        assert(headers[0].0@ != headers[i].0@);
        assert(rest[i - 1] == headers[i]);
        assert forall|a: int, b: int| 0 <= a < b < rest.len() implies #[trigger] rest[a].0@
            != #[trigger] rest[b].0@ by {
            assert(rest[a] == headers[a + 1] && rest[b] == headers[b + 1]);
        }
        lemma_header_of_index(rest, i - 1);
    }
}

proof fn lemma_header_of_absent(headers: Seq<(String, String)>, name: Seq<char>)
    requires
        forall|j: int| 0 <= j < headers.len() ==> #[trigger] headers[j].0@ != name,
    ensures
        header_of(headers, name) is None,
    decreases headers.len(),
{
    if headers.len() > 0 {
        let rest = headers.drop_first();
        assert forall|j: int| 0 <= j < rest.len() implies #[trigger] rest[j].0@ != name by {
            assert(rest[j] == headers[j + 1]);
        }
        lemma_header_of_absent(rest, name);
    }
}

/// Each name is found where the list holds it, and only there.
proof fn lemma_header_of_lookup(headers: Seq<(String, String)>, name: Seq<char>)
    requires
        distinct_names(headers),
    ensures
        header_of(headers, name) == (if exists|i: int|
            0 <= i < headers.len() && #[trigger] headers[i].0@ == name {
            Some(headers[choose|i: int| 0 <= i < headers.len() && #[trigger] headers[i].0@ == name].1@)
        } else {
            None
        }),
{
    if exists|i: int| 0 <= i < headers.len() && #[trigger] headers[i].0@ == name {
        let i = choose|i: int| 0 <= i < headers.len() && #[trigger] headers[i].0@ == name;
        lemma_header_of_index(headers, i);
    } else {
        lemma_header_of_absent(headers, name);
    }
}

/// Settings of a WebSocket client: the server's URL and the headers of the
/// opening handshake.
#[derive(Debug)]
pub struct ClientWsTransportBuilder {
    pub url: String,
    pub headers: Vec<(String, String)>,
}

impl ClientWsTransportBuilder {
    pub open spec fn header_list(&self) -> Seq<(String, String)> {
        self.headers@
    }

    pub open spec fn wf(&self) -> bool {
        distinct_names(self.headers@)
    }

    /// The value of a header, if one was set.
    pub open spec fn header(&self, name: Seq<char>) -> Option<Seq<char>> {
        header_of(self.header_list(), name)
    }

    pub fn new(url: String) -> (r: ClientWsTransportBuilder)
        ensures
            r.url == url,
            r.wf(),
            forall|n: Seq<char>| #[trigger] r.header(n) is None,
    {
        ClientWsTransportBuilder { url, headers: Vec::new() }
    }

    /// Sets a header of the opening handshake; setting a name again replaces
    /// its value.
    pub fn with_header(self, key: String, value: String) -> (r: ClientWsTransportBuilder)
        requires
            self.wf(),
        ensures
            r.wf(),
            r.url == self.url,
            r.header(key@) == Some(value@),
            forall|n: Seq<char>| n != key@ ==> #[trigger] r.header(n) == self.header(n),
    {
        let mut b = self;
        let ghost before = b.headers@;
        let mut i: usize = 0;
        while i < b.headers.len()
            invariant
                b.headers@ == before,
                before == self.headers@,
                b.url == self.url,
                distinct_names(before),
                i <= before.len(),
                forall|j: int| 0 <= j < i ==> #[trigger] before[j].0@ != key@,
            decreases before.len() - i,
        {
            if same_text(b.headers[i].0.as_str(), key.as_str()) {
                b.headers.set(i, (key, value));
                proof {
                    let after = b.headers@;
                    assert forall|x: int, y: int| 0 <= x < y < after.len() implies #[trigger] after[x].0@
                        != #[trigger] after[y].0@ by {
                        if x != i && y != i {
                            assert(after[x] == before[x] && after[y] == before[y]);
                        } else if x == i {
                            assert(after[y] == before[y]);
                            assert(before[i as int].0@ != before[y].0@);
                        } else {
                            assert(after[x] == before[x]);
                            assert(before[x].0@ != before[i as int].0@);
                        }
                    }
                    lemma_header_of_index(after, i as int);
                    assert forall|n: Seq<char>| n != key@ implies header_of(after, n) == header_of(before, n) by {
                        lemma_header_of_lookup(after, n);
                        lemma_header_of_lookup(before, n);
                        assert forall|j: int| 0 <= j < after.len() implies (#[trigger] after[j].0@ == n)
                            == (before[j].0@ == n) by {
                            if j != i {
                                assert(after[j] == before[j]);
                            }
                        }
                        if exists|j: int| 0 <= j < after.len() && #[trigger] after[j].0@ == n {
                            let ja = choose|j: int| 0 <= j < after.len() && #[trigger] after[j].0@ == n;
                            assert(before[ja].0@ == n);
                            let jb = choose|j: int| 0 <= j < before.len() && #[trigger] before[j].0@ == n;
                            assert(after[jb].0@ == n);
                            assert(ja == jb);
                            assert(after[ja] == before[ja]);
                        } else {
                            assert forall|j: int| 0 <= j < before.len() implies #[trigger] before[j].0@ != n by {
                                assert(after[j].0@ != n);
                            }
                        }
                    }
                }
                return b;
            }
            i = i + 1;
        }
        b.headers.push((key, value));
        proof {
            let after = b.headers@;
            let last = (after.len() - 1) as int;
            assert forall|x: int, y: int| 0 <= x < y < after.len() implies #[trigger] after[x].0@
                != #[trigger] after[y].0@ by {
                if y == last {
                    assert(after[x] == before[x]);
                } else {
                    assert(after[x] == before[x] && after[y] == before[y]);
                }
            }
            lemma_header_of_index(after, last);
            assert forall|n: Seq<char>| n != key@ implies header_of(after, n) == header_of(before, n) by {
                lemma_header_of_lookup(after, n);
                lemma_header_of_lookup(before, n);
                if exists|j: int| 0 <= j < after.len() && #[trigger] after[j].0@ == n {
                    let ja = choose|j: int| 0 <= j < after.len() && #[trigger] after[j].0@ == n;
                    assert(ja != last);
                    assert(after[ja] == before[ja]);
                    let jb = choose|j: int| 0 <= j < before.len() && #[trigger] before[j].0@ == n;
                    assert(after[jb] == before[jb]);
                } else {
                    assert forall|j: int| 0 <= j < before.len() implies #[trigger] before[j].0@ != n by {
                        assert(after[j] == before[j]);
                    }
                }
            }
        }
        b
    }

    /// The client these settings describe; it starts closed.
    pub fn build(self) -> (r: WsClientState)
        requires
            self.wf(),
        ensures
            r.url == self.url,
            r.headers@ == self.header_list(),
            r.state == TransportState::Closed,
    {
        WsClientState { url: self.url, headers: self.headers, state: TransportState::Closed }
    }
}

/// How an attempt to open a WebSocket connection ended.
#[derive(Debug, Clone, Copy, PartialEq, Eq, Structural)]
pub enum ConnectOutcome {
    Connected,
    /// The URL or a header cannot make a handshake request.
    InvalidRequest,
    /// The handshake did not finish in time.
    TimedOut,
    /// The handshake failed.
    Failed,
}

/// Seconds an opening handshake may take.
pub const CONNECT_TIMEOUT_SECS: u64 = 30;

/// The decisions of a WebSocket client.
#[derive(Debug)]
pub struct WsClientState {
    pub url: String,
    pub headers: Vec<(String, String)>,
    pub state: TransportState,
}

impl WsClientState {
    /// Whether `open` has a connection to make: not when one is open.
    pub fn needs_connect(&self) -> (r: bool)
        ensures
            r == (self.state == TransportState::Closed),
    {
        match self.state {
            TransportState::Closed => true,
            TransportState::Open => false,
        }
    }

    /// Records how opening ended: a timeout is `ConnectionTimeout`, any other
    /// failure `ConnectionFailed`; only a connection opens the transport.
    pub fn complete_connect(&mut self, outcome: ConnectOutcome) -> (r: Result<(), TransportError>)
        ensures
            final(self).url == old(self).url,
            final(self).headers == old(self).headers,
            outcome == ConnectOutcome::Connected ==> r is Ok && final(self).state
                == TransportState::Open,
            outcome == ConnectOutcome::TimedOut ==> (r matches Err(e) && e.code
                == TransportErrorCode::ConnectionTimeout) && final(self).state == old(self).state,
            (outcome == ConnectOutcome::Failed || outcome == ConnectOutcome::InvalidRequest) ==> (
            r matches Err(e) && e.code == TransportErrorCode::ConnectionFailed) && final(self).state
                == old(self).state,
    {
        match outcome {
            ConnectOutcome::Connected => {
                self.state = TransportState::Open;
                Ok(())
            },
            ConnectOutcome::TimedOut => Err(
                TransportError::with_text(
                    TransportErrorCode::ConnectionTimeout,
                    "WebSocket connection timed out after 30 seconds",
                ),
            ),
            ConnectOutcome::InvalidRequest => Err(
                TransportError::with_text(
                    TransportErrorCode::ConnectionFailed,
                    "invalid WebSocket request",
                ),
            ),
            ConnectOutcome::Failed => Err(
                TransportError::with_text(
                    TransportErrorCode::ConnectionFailed,
                    "WebSocket connection failed",
                ),
            ),
        }
    }

    /// Whether a frame may be written: `ConnectionClosed` without a connection.
    pub fn begin_send(&self) -> (r: Result<(), TransportError>)
        ensures
            r is Ok <==> self.state == TransportState::Open,
            r matches Err(e) ==> e.code == TransportErrorCode::ConnectionClosed,
    {
        match self.state {
            TransportState::Open => Ok(()),
            TransportState::Closed => Err(
                TransportError::with_text(
                    TransportErrorCode::ConnectionClosed,
                    "no active WebSocket connection",
                ),
            ),
        }
    }

    /// Records whether the frame was written; a failed write closes the
    /// transport.
    pub fn complete_send(&mut self, written: bool) -> (r: Result<(), TransportError>)
        ensures
            final(self).url == old(self).url,
            final(self).headers == old(self).headers,
            written ==> r is Ok && final(self).state == old(self).state,
            !written ==> (r matches Err(e) && e.code == TransportErrorCode::MessageSendFailed)
                && final(self).state == TransportState::Closed,
    {
        if written {
            Ok(())
        } else {
            self.state = TransportState::Closed;
            Err(
                TransportError::with_text(
                    TransportErrorCode::MessageSendFailed,
                    "failed to write WebSocket frame",
                ),
            )
        }
    }

    /// Closing is allowed from either state; a second close changes nothing.
    pub fn close(&mut self)
        ensures
            final(self).url == old(self).url,
            final(self).headers == old(self).headers,
            final(self).state == TransportState::Closed,
    {
        self.state = TransportState::Closed;
    }
}

/// A frame read from a WebSocket, as the read loop sees it.
#[derive(Debug)]
pub enum InboundFrame {
    /// A text frame, with its JSON value; `None` when the text is no JSON.
    Text(Option<JsonValue>),
    Binary,
    Ping,
    Pong,
    /// A continuation, raw or empty frame.
    Other,
    /// The peer closed the connection.
    Close,
    /// Reading failed.
    Failed,
}

/// What the read loop does with a frame.
#[derive(Debug)]
pub enum FrameAction {
    /// Hand the message to the subscribers.
    Publish(Message),
    /// Go on with the next frame.
    Skip,
    /// End the loop.
    Stop,
}

/// A text frame that holds a message is published; one that does not is
/// skipped without closing the connection; binary, ping, pong and other
/// frames are skipped; a close frame or a failed read ends the loop.
pub open spec fn frame_action_of(frame: InboundFrame) -> Option<Option<Message>> {
    match frame {
        InboundFrame::Text(Some(v)) => Some(message_of(v)),
        InboundFrame::Close | InboundFrame::Failed => None,
        _ => Some(None),
    }
}

/// Decides what the read loop does with a frame.
pub fn frame_action(frame: InboundFrame) -> (r: FrameAction)
    ensures
        match frame_action_of(frame) {
            Some(Some(m)) => r == FrameAction::Publish(m),
            Some(None) => r is Skip,
            None => r is Stop,
        },
{
    match frame {
        InboundFrame::Text(Some(v)) => match Message::from_json(v) {
            Ok(m) => FrameAction::Publish(m),
            Err(_) => FrameAction::Skip,
        },
        InboundFrame::Close | InboundFrame::Failed => FrameAction::Stop,
        _ => FrameAction::Skip,
    }
}

/// Whether the read loop goes on after publishing: not once no subscriber is
/// left to receive.
pub fn continue_after_publish(delivered: bool) -> (r: bool)
    ensures
        r == delivered,
{
    delivered
}

/// Which of a server session's two directions ended first, and how.
#[derive(Debug, Clone, Copy, PartialEq, Eq, Structural)]
pub enum SessionEnd {
    /// The outbound direction ended: its queue closed or a write failed.
    OutboundDone,
    /// The outbound task could not be joined.
    OutboundAborted,
    /// The inbound direction ended: end of stream, a close frame or a read error.
    InboundDone,
    /// The inbound task could not be joined.
    InboundAborted,
}

/// The result of a server session once either direction ended; the other
/// direction is then cancelled.
pub fn session_result(end: SessionEnd) -> (r: Result<(), TransportError>)
    ensures
        (end == SessionEnd::OutboundDone || end == SessionEnd::InboundDone) <==> r is Ok,
        end == SessionEnd::OutboundAborted ==> (r matches Err(e) && e.code
            == TransportErrorCode::MessageSendFailed),
        end == SessionEnd::InboundAborted ==> (r matches Err(e) && e.code
            == TransportErrorCode::MessageReceiveFailed),
{
    match end {
        SessionEnd::OutboundDone | SessionEnd::InboundDone => Ok(()),
        SessionEnd::OutboundAborted => Err(
            TransportError::with_text(TransportErrorCode::MessageSendFailed, "send task failed"),
        ),
        SessionEnd::InboundAborted => Err(
            TransportError::with_text(
                TransportErrorCode::MessageReceiveFailed,
                "receive task failed",
            ),
        ),
    }
}

/// The decisions of the server side of one WebSocket connection: it holds a
/// session until a write fails or it is closed.
#[derive(Debug)]
pub struct WsServerState {
    pub state: TransportState,
}

impl WsServerState {
    pub fn new() -> (r: WsServerState)
        ensures
            r.state == TransportState::Open,
    {
        WsServerState { state: TransportState::Open }
    }

    /// `ConnectionClosed` once the session is gone.
    pub fn begin_send(&self) -> (r: Result<(), TransportError>)
        ensures
            r is Ok <==> self.state == TransportState::Open,
            r matches Err(e) ==> e.code == TransportErrorCode::ConnectionClosed,
    {
        match self.state {
            TransportState::Open => Ok(()),
            TransportState::Closed => Err(
                TransportError::with_text(
                    TransportErrorCode::ConnectionClosed,
                    "no active WebSocket session",
                ),
            ),
        }
    }

    /// A failed write lets the session go.
    pub fn complete_send(&mut self, written: bool) -> (r: Result<(), TransportError>)
        ensures
            written ==> r is Ok && final(self).state == old(self).state,
            !written ==> (r matches Err(e) && e.code == TransportErrorCode::MessageSendFailed)
                && final(self).state == TransportState::Closed,
    {
        if written {
            Ok(())
        } else {
            self.state = TransportState::Closed;
            Err(
                TransportError::with_text(
                    TransportErrorCode::MessageSendFailed,
                    "failed to send message",
                ),
            )
        }
    }

    /// Whether a close frame is to be sent: only for a session still held.
    /// Either way the session is let go.
    pub fn close(&mut self) -> (r: bool)
        ensures
            r == (old(self).state == TransportState::Open),
            final(self).state == TransportState::Closed,
    {
        let had = match self.state {
            TransportState::Open => true,
            TransportState::Closed => false,
        };
        self.state = TransportState::Closed;
        had
    }
}

} // verus!
