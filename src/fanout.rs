use vstd::prelude::*;
use crate::message::Message;
use crate::transport::TransportState;

verus! {

/// Recommended capacity of the broadcast channel behind a connection.
pub const FANOUT_CAPACITY: usize = 1000;

/// Recommended capacity of an inbound queue.
pub const INBOUND_CAPACITY: usize = 100;

/// What one wait on a broadcast subscription gave.
#[derive(Debug)]
pub enum ChannelRecv {
    /// The next message.
    Item(Message),
    /// The subscriber fell behind and this many messages were dropped for it.
    Lagged(u64),
    /// Every sender is gone.
    Closed,
}

/// What to do with the subscription after a wait.
#[derive(Debug, Clone, Copy, PartialEq, Eq, Structural)]
pub enum CursorAction {
    /// Keep reading from it.
    Keep,
    /// Replace it by a fresh subscription positioned at the newest message.
    Resubscribe,
    /// Let it go: nothing more will come.
    Drop,
}

/// One consumer of a connection's broadcast channel, with the state of the
/// transport it belongs to.
#[derive(Debug)]
pub struct FanoutCursor {
    /// Whether the consumer holds a subscription.
    pub subscribed: bool,
    /// Whether a sender is still held to resubscribe from.
    pub sender_alive: bool,
    pub state: TransportState,
}

/// The cursor after a wait that gave `outcome`, with the action to take and
/// the result `receive` returns: a message is handed on; a lag is answered by
/// resubscribing (when a sender is left to do it from) and one `None`; a
/// closed channel is answered by `None`, and the consumer lets the
/// subscription go and the transport closes.
pub open spec fn cursor_step(c: FanoutCursor, outcome: ChannelRecv) -> (
    FanoutCursor,
    CursorAction,
    Option<Message>,
) {
    match outcome {
        ChannelRecv::Item(m) => (c, CursorAction::Keep, Some(m)),
        ChannelRecv::Lagged(_) => if c.sender_alive {
            (c, CursorAction::Resubscribe, None)
        } else {
            (
                FanoutCursor { subscribed: false, state: TransportState::Closed, ..c },
                CursorAction::Drop,
                None,
            )
        },
        ChannelRecv::Closed => (
            FanoutCursor { subscribed: false, state: TransportState::Closed, ..c },
            CursorAction::Drop,
            None,
        ),
    }
}

impl FanoutCursor {
    /// A consumer of a channel that was just opened.
    pub fn subscribed_open() -> (r: FanoutCursor)
        ensures
            r.subscribed && r.sender_alive && r.state == TransportState::Open,
    {
        FanoutCursor { subscribed: true, sender_alive: true, state: TransportState::Open }
    }

    /// A consumer with no channel: `receive` answers `None` at once.
    pub fn detached() -> (r: FanoutCursor)
        ensures
            !r.subscribed && !r.sender_alive && r.state == TransportState::Closed,
    {
        FanoutCursor { subscribed: false, sender_alive: false, state: TransportState::Closed }
    }

    /// Whether `receive` should wait on the subscription; without one it
    /// answers `None` without waiting.
    pub fn should_wait(&self) -> (r: bool)
        ensures
            r == self.subscribed,
    {
        self.subscribed
    }

    /// Applies the outcome of one wait.
    pub fn on_recv(&mut self, outcome: ChannelRecv) -> (r: (CursorAction, Option<Message>))
        ensures
            (*final(self), r.0, r.1) == cursor_step(*old(self), outcome),
    {
        match outcome {
            ChannelRecv::Item(m) => (CursorAction::Keep, Some(m)),
            ChannelRecv::Lagged(_) => {
                if self.sender_alive {
                    (CursorAction::Resubscribe, None)
                } else {
                    self.subscribed = false;
                    self.state = TransportState::Closed;
                    (CursorAction::Drop, None)
                }
            },
            ChannelRecv::Closed => {
                self.subscribed = false;
                self.state = TransportState::Closed;
                (CursorAction::Drop, None)
            },
        }
    }

    /// Lets go of the subscription and of the sender; the transport closes.
    pub fn close(&mut self)
        ensures
            !final(self).subscribed && !final(self).sender_alive && final(self).state
                == TransportState::Closed,
    {
        self.subscribed = false;
        self.sender_alive = false;
        self.state = TransportState::Closed;
    }
}

/// The results a consumer sees for a run of waits, starting from `c`.
pub open spec fn cursor_run(c: FanoutCursor, outcomes: Seq<ChannelRecv>) -> Seq<Option<Message>>
    decreases outcomes.len(),
{
    if outcomes.len() == 0 {
        Seq::empty()
    } else {
        let (next, _, out) = cursor_step(c, outcomes[0]);
        seq![out].add(cursor_run(next, outcomes.drop_first()))
    }
}

pub open spec fn is_lag(o: ChannelRecv) -> bool {
    o is Lagged
}

/// For a consumer that still has a sender to resubscribe from, every wait
/// gives exactly one result; each detected lag gives `None` for that wait,
/// and each delivered message comes out where it arrived.
pub proof fn lemma_lag_gives_one_none(c: FanoutCursor, outcomes: Seq<ChannelRecv>)
    requires
        c.sender_alive,
    ensures
        cursor_run(c, outcomes).len() == outcomes.len(),
        forall|i: int|
            0 <= i < outcomes.len() && is_lag(#[trigger] outcomes[i]) ==> cursor_run(
                c,
                outcomes,
            )[i] is None,
        forall|i: int|
            0 <= i < outcomes.len() && (#[trigger] outcomes[i] is Item) ==> cursor_run(
                c,
                outcomes,
            )[i] == Some(outcomes[i]->Item_0),
    decreases outcomes.len(),
{
    if outcomes.len() > 0 {
        let (next, _, out) = cursor_step(c, outcomes[0]);
        let rest = outcomes.drop_first();
        if next.sender_alive {
            lemma_lag_gives_one_none(next, rest);
            assert forall|i: int| 0 < i < outcomes.len() implies outcomes[i] == rest[i - 1] by {}
        } else {
            assert(outcomes[0] is Closed);
            lemma_run_len(next, rest);
        }
        let run = cursor_run(c, outcomes);
        assert(run == seq![out].add(cursor_run(next, rest)));
        assert forall|i: int| 0 <= i < outcomes.len() && is_lag(#[trigger] outcomes[i]) implies run[i] is None by {
            if i > 0 {
                assert(outcomes[i] == rest[i - 1]);
                if !next.sender_alive {
                    lemma_run_after_close(next, rest, i - 1);
                }
            }
        }
        assert forall|i: int| 0 <= i < outcomes.len() && (#[trigger] outcomes[i] is Item) implies run[i]
            == Some(outcomes[i]->Item_0) by {
            if i > 0 {
                assert(outcomes[i] == rest[i - 1]);
                if !next.sender_alive {
                    lemma_run_after_close(next, rest, i - 1);
                }
            }
        }
    }
}

proof fn lemma_run_len(c: FanoutCursor, outcomes: Seq<ChannelRecv>)
    ensures
        cursor_run(c, outcomes).len() == outcomes.len(),
    decreases outcomes.len(),
{
    if outcomes.len() > 0 {
        let (next, _, _) = cursor_step(c, outcomes[0]);
        lemma_run_len(next, outcomes.drop_first());
    }
}

proof fn lemma_run_after_close(c: FanoutCursor, outcomes: Seq<ChannelRecv>, i: int)
    requires
        0 <= i < outcomes.len(),
        !c.sender_alive,
    ensures
        outcomes[i] is Item ==> cursor_run(c, outcomes)[i] == Some(outcomes[i]->Item_0),
        !(outcomes[i] is Item) ==> cursor_run(c, outcomes)[i] is None,
    decreases outcomes.len(),
{
    lemma_run_len(c, outcomes);
    if i > 0 {
        let (next, _, _) = cursor_step(c, outcomes[0]);
        assert(outcomes[i] == outcomes.drop_first()[i - 1]);
        lemma_run_after_close(next, outcomes.drop_first(), i - 1);
    }
}

} // verus!
