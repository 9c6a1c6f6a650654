//! The realtime broadcast relay, modelled: one process-wide topic, a
//! bounded buffer of the most recent messages, and a cursor per
//! subscriber. Publishing appends to the topic's log; a subscriber starts
//! at the log's end, so it receives every message published after it
//! subscribed, in order and exactly once, and never one published before.
//! A subscriber that falls more than the capacity behind is lossy: it is
//! moved forward to the oldest retained message, as a bounded fan-out
//! buffer drops its oldest entries first.
//!
//! The surrounding process runs the asynchronous fan-out; this model
//! carries the relay's delivery discipline, and [`relay_reaction`] the
//! frame-by-frame decisions of a connection.

use vstd::prelude::*;

verus! {

/// The shared publish/subscribe topic.
pub struct Topic {
    /// Everything ever published, oldest first. The buffer retains only
    /// the last `capacity` entries; the older ones are modelled as
    /// dropped for any subscriber that lags behind them.
    pub log: Vec<String>,
    /// How many recent messages a lagging subscriber can still receive.
    pub capacity: usize,
}

/// One connection's view of the topic.
pub struct Subscriber {
    /// The index into the topic's log of the next message to receive.
    pub cursor: usize,
    /// The log length at subscription: nothing below it is ever
    /// delivered.
    pub birth: Ghost<int>,
}

/// What one receive attempt yields.
pub enum RecvOutcome {
    /// Nothing pending.
    Empty,
    /// The subscriber lagged behind the retained window and was moved to
    /// the oldest retained message; the count of messages lost to it.
    Lagged(usize),
    /// The next pending message, delivered exactly once.
    Message(String),
}

impl Subscriber {
    /// The cursor never precedes the subscription point nor passes the
    /// log's end.
    pub open spec fn wf(self, t: Topic) -> bool {
        self.birth@ <= self.cursor as int <= t.log@.len()
    }
}

/// Where a drain of the topic starts for a subscriber: at its cursor, or
/// at the oldest retained message if it lagged behind the window.
pub open spec fn drain_start(t: Topic, s: Subscriber) -> int {
    if t.log@.len() - s.cursor as int <= t.capacity as int {
        s.cursor as int
    } else {
        t.log@.len() - t.capacity as int
    }
}

impl Topic {
    pub open spec fn wf(self) -> bool {
        self.capacity >= 1
    }

    /// A fresh topic retaining up to `capacity` recent messages.
    pub fn new(capacity: usize) -> (t: Topic)
        requires
            capacity >= 1,
        ensures
            t.wf(),
            t.log@ =~= Seq::<String>::empty(),
            t.capacity == capacity,
    {
        Topic { log: Vec::new(), capacity }
    }

    /// Subscribes a new connection: it will see exactly the messages
    /// published from this point on.
    pub fn subscribe(&self) -> (s: Subscriber)
        ensures
            s.wf(*self),
            s.cursor as int == self.log@.len(),
            s.birth@ == self.log@.len(),
    {
        Subscriber { cursor: self.log.len(), birth: Ghost(self.log@.len() as int) }
    }

    /// Publishes a message: appended to the log, pending for every
    /// subscriber whose cursor is behind the new end.
    pub fn publish(&mut self, msg: String)
        requires
            old(self).wf(),
            old(self).log@.len() < usize::MAX,
        ensures
            final(self).wf(),
            final(self).log@ =~= old(self).log@.push(msg),
            final(self).capacity == old(self).capacity,
    {
        self.log.push(msg);
    }

    /// Receives at most one message for the subscriber: the one at its
    /// cursor when it is within the retained window, a lag notice moving
    /// it to the oldest retained message when it fell behind, nothing
    /// when it is caught up.
    pub fn receive(&self, s: &mut Subscriber) -> (r: RecvOutcome)
        requires
            old(s).wf(*self),
            self.wf(),
        ensures
            final(s).wf(*self),
            final(s).birth == old(s).birth,
            match r {
                RecvOutcome::Empty => {
                    &&& old(s).cursor as int == self.log@.len()
                    &&& *final(s) == *old(s)
                },
                RecvOutcome::Lagged(missed) => {
                    &&& self.log@.len() - old(s).cursor as int > self.capacity as int
                    &&& final(s).cursor as int == self.log@.len() - self.capacity as int
                    &&& missed as int == final(s).cursor as int - old(s).cursor as int
                },
                RecvOutcome::Message(m) => {
                    &&& (old(s).cursor as int) < self.log@.len()
                    &&& self.log@.len() - old(s).cursor as int <= self.capacity as int
                    &&& m == self.log@[old(s).cursor as int]
                    &&& old(s).cursor as int >= old(s).birth@
                    &&& final(s).cursor as int == old(s).cursor as int + 1
                },
            },
    {
        let len = self.log.len();
        if s.cursor == len {
            return RecvOutcome::Empty;
        }
        if len - s.cursor > self.capacity {
            let newest_retained = len - self.capacity;
            let missed = newest_retained - s.cursor;
            s.cursor = newest_retained;
            return RecvOutcome::Lagged(missed);
        }
        let m = self.log[s.cursor].clone();
        s.cursor = s.cursor + 1;
        RecvOutcome::Message(m)
    }

    /// Receives everything pending for the subscriber, in publication
    /// order: the log's tail from its cursor, or from the oldest retained
    /// message if it lagged.
    pub fn drain(&self, s: &mut Subscriber) -> (r: Vec<String>)
        requires
            old(s).wf(*self),
            self.wf(),
        ensures
            final(s).wf(*self),
            final(s).birth == old(s).birth,
            final(s).cursor as int == self.log@.len(),
            r@ =~= self.log@.skip(drain_start(*self, *old(s))),
    {
        let ghost start = drain_start(*self, *old(s));
        let mut out: Vec<String> = Vec::new();
        let len = self.log.len();
        if len - s.cursor > self.capacity {
            s.cursor = len - self.capacity;
        }
        proof {
            assert(s.cursor as int == start);
        }
        while s.cursor < len
            invariant
                old(s).birth@ <= start <= s.cursor as int <= len as int,
                len == self.log@.len(),
                s.birth == old(s).birth,
                out@ =~= self.log@.subrange(start, s.cursor as int),
            decreases len - s.cursor,
        {
            let m = self.log[s.cursor].clone();
            out.push(m);
            proof {
                assert(out@ =~= self.log@.subrange(start, s.cursor as int + 1));
            }
            s.cursor = s.cursor + 1;
        }
        proof {
            assert(self.log@.subrange(start, len as int) =~= self.log@.skip(start));
        }
        out
    }
}

/// A freshly subscribed connection that stays within the retained window
/// drains exactly the messages published after it subscribed — each of
/// them once, in order, and none from before its subscription.
pub proof fn lemma_fresh_subscriber_sees_exactly_later_messages(
    before: Topic,
    after: Topic,
    s: Subscriber,
)
    requires
        s.birth@ == before.log@.len(),
        s.cursor as int == s.birth@,
        before.log@.is_prefix_of(after.log@),
        after.log@.len() - s.cursor as int <= after.capacity as int,
    ensures
        drain_start(after, s) == before.log@.len(),
        after.log@.skip(drain_start(after, s)) =~= after.log@.skip(before.log@.len() as int),
        drain_start(after, s) >= before.log@.len(),
{
}

/// What a connection does with one inbound frame.
pub enum RelayReaction {
    /// A text frame: republish it verbatim to every subscriber.
    Broadcast(String),
    /// A ping: answer with a pong carrying the same payload.
    Pong(Vec<u8>),
    /// A close frame: end both of the connection's duties.
    Stop,
    /// Anything else is ignored.
    Ignore,
}

/// One inbound websocket frame, reduced to what the relay reacts to.
pub enum RelayFrame {
    Text(String),
    Ping(Vec<u8>),
    Close,
    Other,
}

/// The relay's decision for one inbound frame: text is rebroadcast
/// verbatim, pings are answered, close ends the connection, everything
/// else is ignored.
pub fn relay_reaction(frame: RelayFrame) -> (r: RelayReaction)
    ensures
        match frame {
            RelayFrame::Text(t) => r matches RelayReaction::Broadcast(m) && m == t,
            RelayFrame::Ping(p) => r matches RelayReaction::Pong(q) && q == p,
            RelayFrame::Close => r is Stop,
            RelayFrame::Other => r is Ignore,
        },
{
    match frame {
        RelayFrame::Text(t) => RelayReaction::Broadcast(t),
        RelayFrame::Ping(p) => RelayReaction::Pong(p),
        RelayFrame::Close => RelayReaction::Stop,
        RelayFrame::Other => RelayReaction::Ignore,
    }
}

} // verus!
