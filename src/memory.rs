use vstd::prelude::*;
use crate::error::{TransportError, TransportErrorCode};
use crate::message::Message;

verus! {

/// One end of an in-process pair.
#[derive(Debug, Clone, Copy, PartialEq, Eq, Structural)]
pub enum Side {
    Client,
    Server,
}

/// A pair of in-process transports wired to each other, for tests: what one
/// side sends, the other receives, in order. No serialization takes place.
/// A receive on an open side with nothing waiting answers `None` at once.
#[derive(Debug)]
pub struct InMemoryTransport {
    to_server: Vec<Message>,
    to_client: Vec<Message>,
    client_open: bool,
    server_open: bool,
}

impl InMemoryTransport {
    /// The messages waiting for a side, oldest first.
    pub closed spec fn inbox(&self, side: Side) -> Seq<Message> {
        match side {
            Side::Client => self.to_client@,
            Side::Server => self.to_server@,
        }
    }

    pub closed spec fn is_open_spec(&self, side: Side) -> bool {
        match side {
            Side::Client => self.client_open,
            Side::Server => self.server_open,
        }
    }

    pub open spec fn peer(side: Side) -> Side {
        match side {
            Side::Client => Side::Server,
            Side::Server => Side::Client,
        }
    }

    /// A connected pair: both sides open, nothing in flight.
    pub fn new() -> (r: InMemoryTransport)
        ensures
            r.is_open_spec(Side::Client) && r.is_open_spec(Side::Server),
            r.inbox(Side::Client) == Seq::<Message>::empty(),
            r.inbox(Side::Server) == Seq::<Message>::empty(),
    {
        InMemoryTransport {
            to_server: Vec::new(),
            to_client: Vec::new(),
            client_open: true,
            server_open: true,
        }
    }

    pub fn is_open(&self, side: Side) -> (r: bool)
        ensures
            r == self.is_open_spec(side),
    {
        match side {
            Side::Client => self.client_open,
            Side::Server => self.server_open,
        }
    }

    /// Opens a side again; nothing else changes.
    pub fn open(&mut self, side: Side)
        ensures
            final(self).is_open_spec(side),
            final(self).is_open_spec(Self::peer(side)) == old(self).is_open_spec(Self::peer(side)),
            final(self).inbox(Side::Client) == old(self).inbox(Side::Client),
            final(self).inbox(Side::Server) == old(self).inbox(Side::Server),
    {
        match side {
            Side::Client => self.client_open = true,
            Side::Server => self.server_open = true,
        }
    }

    /// Closes a side; closing it again changes nothing.
    pub fn close(&mut self, side: Side)
        ensures
            !final(self).is_open_spec(side),
            final(self).is_open_spec(Self::peer(side)) == old(self).is_open_spec(Self::peer(side)),
            final(self).inbox(Side::Client) == old(self).inbox(Side::Client),
            final(self).inbox(Side::Server) == old(self).inbox(Side::Server),
    {
        match side {
            Side::Client => self.client_open = false,
            Side::Server => self.server_open = false,
        }
    }

    /// Sends from one side to the other: `ConnectionClosed` when this side is
    /// closed, `MessageSendFailed` when the other side is; otherwise the
    /// message joins the end of the other side's inbox.
    pub fn send(&mut self, side: Side, message: Message) -> (r: Result<(), TransportError>)
        ensures
            final(self).is_open_spec(Side::Client) == old(self).is_open_spec(Side::Client),
            final(self).is_open_spec(Side::Server) == old(self).is_open_spec(Side::Server),
            final(self).inbox(side) == old(self).inbox(side),
            !old(self).is_open_spec(side) ==> (r matches Err(e) && e.code
                == TransportErrorCode::ConnectionClosed) && final(self).inbox(Self::peer(side))
                == old(self).inbox(Self::peer(side)),
            old(self).is_open_spec(side) && !old(self).is_open_spec(Self::peer(side)) ==> (
            r matches Err(e) && e.code == TransportErrorCode::MessageSendFailed)
                && final(self).inbox(Self::peer(side)) == old(self).inbox(Self::peer(side)),
            old(self).is_open_spec(side) && old(self).is_open_spec(Self::peer(side)) ==> r is Ok
                && final(self).inbox(Self::peer(side))
                == old(self).inbox(Self::peer(side)).push(message),
    {
        if !self.is_open(side) {
            return Err(
                TransportError::with_text(
                    TransportErrorCode::ConnectionClosed,
                    "in-memory transport is closed",
                ),
            );
        }
        match side {
            Side::Client => {
                if !self.server_open {
                    return Err(
                        TransportError::with_text(
                            TransportErrorCode::MessageSendFailed,
                            "the server side is closed",
                        ),
                    );
                }
                self.to_server.push(message);
            },
            Side::Server => {
                if !self.client_open {
                    return Err(
                        TransportError::with_text(
                            TransportErrorCode::MessageSendFailed,
                            "the client side is closed",
                        ),
                    );
                }
                self.to_client.push(message);
            },
        }
        Ok(())
    }

    /// Receives the oldest message waiting for a side, `None` when none is
    /// waiting, `ConnectionClosed` when the side is closed.
    pub fn receive(&mut self, side: Side) -> (r: Result<Option<Message>, TransportError>)
        ensures
            final(self).is_open_spec(Side::Client) == old(self).is_open_spec(Side::Client),
            final(self).is_open_spec(Side::Server) == old(self).is_open_spec(Side::Server),
            final(self).inbox(Self::peer(side)) == old(self).inbox(Self::peer(side)),
            !old(self).is_open_spec(side) ==> (r matches Err(e) && e.code
                == TransportErrorCode::ConnectionClosed)
                && final(self).inbox(side) == old(self).inbox(side),
            old(self).is_open_spec(side) && old(self).inbox(side).len() == 0 ==> (r matches Ok(None))
                && final(self).inbox(side) == old(self).inbox(side),
            old(self).is_open_spec(side) && old(self).inbox(side).len() > 0
                ==> r == Ok::<Option<Message>, TransportError>(Some(old(self).inbox(side)[0]))
                && final(self).inbox(side) == old(self).inbox(side).drop_first(),
    {
        if !self.is_open(side) {
            return Err(
                TransportError::with_text(
                    TransportErrorCode::ConnectionClosed,
                    "in-memory transport is closed",
                ),
            );
        }
        let ghost before = self.inbox(side);
        match side {
            Side::Client => {
                if self.to_client.len() == 0 {
                    return Ok(None);
                }
                let m = self.to_client.remove(0);
                proof {
                    assert(self.to_client@ =~= before.drop_first());
                }
                Ok(Some(m))
            },
            Side::Server => {
                if self.to_server.len() == 0 {
                    return Ok(None);
                }
                let m = self.to_server.remove(0);
                proof {
                    assert(self.to_server@ =~= before.drop_first());
                }
                Ok(Some(m))
            },
        }
    }
}

/// A message sent from one open side to an open peer whose inbox is empty is
/// the next message the peer receives.
pub proof fn lemma_send_then_receive(
    t0: InMemoryTransport,
    t1: InMemoryTransport,
    side: Side,
    m: Message,
)
    requires
        t0.is_open_spec(side),
        t0.is_open_spec(InMemoryTransport::peer(side)),
        t0.inbox(InMemoryTransport::peer(side)).len() == 0,
        t1.inbox(InMemoryTransport::peer(side)) == t0.inbox(InMemoryTransport::peer(side)).push(m),
    ensures
        t1.inbox(InMemoryTransport::peer(side)).len() > 0,
        t1.inbox(InMemoryTransport::peer(side))[0] == m,
{
}

} // verus!
