//! The bounded broadcast bus: a fan-out channel of text lines with one
//! independent read cursor per subscription.
//!
//! The bus retains the last `capacity` published lines. A subscription
//! created now starts at the current tail and sees only later messages.
//! A subscription that falls behind by more than `capacity` messages
//! lags: the overrun messages are dropped for that subscription alone,
//! which is told how many it missed and resumes from the oldest retained
//! message. Publishing never waits for any subscriber, so a slow reader
//! cannot hold up a fast one.
//!
//! Each subscription carries a ghost log of every line it was handed.
//! For a subscription that never lagged the log is exactly the slice of
//! the publish history from its starting point to its cursor, which is
//! the delivery guarantee the laws below state.

use vstd::prelude::*;

verus! {

/// What one call to [`BroadcastBus::recv`] can yield.
pub enum RecvOutcome {
    /// The next message in publish order.
    Message(String),
    /// The subscription fell behind; this many messages were dropped for it.
    Lagged(usize),
    /// Nothing is pending; a live receiver would wait here.
    Empty,
    /// The bus was closed and every pending message has been consumed.
    Closed,
}

/// The error returned when publishing on a closed bus.
#[derive(Clone, Copy, PartialEq, Eq, Structural, Debug)]
pub struct BusClosed;

/// A bounded fan-out channel of text lines.
pub struct BroadcastBus {
    history: Vec<String>,
    capacity: usize,
    closed: bool,
}

/// One session's private read cursor over the bus.
pub struct Subscription {
    next: usize,
    started_at: Ghost<int>,
    ever_lagged: Ghost<bool>,
    delivered: Ghost<Seq<Seq<char>>>,
}

impl BroadcastBus {
    /// Every message ever published, in publish order.
    pub closed spec fn log(self) -> Seq<Seq<char>> {
        self.history@.map_values(|s: String| s@)
    }

    /// The number of messages retained for slow subscriptions.
    pub closed spec fn cap(self) -> int {
        self.capacity as int
    }

    /// Whether the bus has been shut down.
    pub closed spec fn is_closed(self) -> bool {
        self.closed
    }

    /// The position of the oldest message still retained.
    pub open spec fn first_retained(self) -> int {
        if self.log().len() > self.cap() {
            self.log().len() - self.cap()
        } else {
            0
        }
    }

    #[verifier::type_invariant]
    spec fn inv(self) -> bool {
        self.capacity >= 1
    }

    /// Creates an open bus that retains the last `capacity` messages.
    pub fn new(capacity: usize) -> (r: Self)
        requires
            capacity >= 1,
        ensures
            r.log() == Seq::<Seq<char>>::empty(),
            r.cap() == capacity,
            !r.is_closed(),
    {
        let r = BroadcastBus { history: Vec::new(), capacity, closed: false };
        proof {
            assert(r.log() =~= Seq::<Seq<char>>::empty());
        }
        r
    }

    /// Appends a message for every current and future subscription.
    ///
    /// Publishing never waits and never depends on any subscription's
    /// cursor: it succeeds on an open bus even with no subscribers and
    /// even when every subscriber has stopped reading; it fails only on
    /// a closed bus, which it leaves unchanged.
    pub fn publish(&mut self, msg: String) -> (r: Result<(), BusClosed>)
        ensures
            old(self).is_closed() ==> (r is Err && final(self).log() == old(self).log()),
            !old(self).is_closed() ==> (r is Ok && final(self).log() == old(self).log().push(
                msg@,
            )),
            final(self).cap() == old(self).cap(),
            final(self).is_closed() == old(self).is_closed(),
    {
        if self.closed {
            return Err(BusClosed);
        }
        proof {
            use_type_invariant(&*self);
        }
        let mut working: Vec<String> = Vec::new();
        core::mem::swap(&mut self.history, &mut working);
        working.push(msg);
        core::mem::swap(&mut self.history, &mut working);
        proof {
            assert(self.log() =~= old(self).log().push(msg@));
        }
        Ok(())
    }

    /// Shuts the bus down: later publishes fail, and every subscription
    /// that drains its pending messages then sees `Closed`.
    pub fn close(&mut self)
        ensures
            final(self).log() == old(self).log(),
            final(self).cap() == old(self).cap(),
            final(self).is_closed(),
    {
        proof {
            use_type_invariant(&*self);
        }
        self.closed = true;
    }

    /// Opens a subscription positioned at the current tail: it will see
    /// exactly the messages published after this call, none before.
    pub fn subscribe(&self) -> (s: Subscription)
        ensures
            s.wf(*self),
            s.cursor() == self.log().len(),
            s.started_at() == self.log().len(),
            !s.has_lagged(),
            s.received() == Seq::<Seq<char>>::empty(),
    {
        let s = Subscription {
            next: self.history.len(),
            started_at: Ghost(self.history@.len() as int),
            ever_lagged: Ghost(false),
            delivered: Ghost(Seq::empty()),
        };
        proof {
            assert(s.received() =~= self.log().subrange(s.started_at(), s.cursor()));
        }
        s
    }

    /// Hands `sub` the next message it has not seen, in publish order.
    ///
    /// A cursor that fell behind the retained window is told how many
    /// messages it missed and resumes at the oldest retained one; the
    /// bus itself and every other subscription are untouched. A cursor
    /// at the tail is told to wait, or that the bus is closed.
    pub fn recv(&self, sub: &mut Subscription) -> (r: RecvOutcome)
        requires
            old(sub).wf(*self),
        ensures
            final(sub).wf(*self),
            final(sub).started_at() == old(sub).started_at(),
            old(sub).cursor() < self.first_retained() ==> (r matches RecvOutcome::Lagged(n)
                && n as int == self.first_retained() - old(sub).cursor()
                && final(sub).cursor() == self.first_retained()
                && final(sub).has_lagged()
                && final(sub).received() == old(sub).received()),
            self.first_retained() <= old(sub).cursor() < self.log().len() ==> (r matches
                RecvOutcome::Message(m)
                && m@ == self.log()[old(sub).cursor()]
                && final(sub).cursor() == old(sub).cursor() + 1
                && final(sub).has_lagged() == old(sub).has_lagged()
                && final(sub).received() == old(sub).received().push(m@)),
            old(sub).cursor() == self.log().len() ==> (final(sub).cursor() == old(sub).cursor()
                && final(sub).has_lagged() == old(sub).has_lagged()
                && final(sub).received() == old(sub).received()
                && (if self.is_closed() {
                    r is Closed
                } else {
                    r is Empty
                })),
    {
        proof {
            use_type_invariant(&*self);
        }
        let n = self.history.len();
        let oldest = if n > self.capacity {
            n - self.capacity
        } else {
            0
        };
        if sub.next < oldest {
            let missed = oldest - sub.next;
            sub.next = oldest;
            sub.ever_lagged = Ghost(true);
            RecvOutcome::Lagged(missed)
        } else if sub.next < n {
            let m = self.history[sub.next].clone();
            sub.next = sub.next + 1;
            sub.delivered = Ghost(sub.delivered@.push(m@));
            proof {
                if !sub.ever_lagged@ {
                    assert(sub.delivered@ =~= self.log().subrange(
                        sub.started_at@,
                        sub.next as int,
                    ));
                }
            }
            RecvOutcome::Message(m)
        } else if self.closed {
            RecvOutcome::Closed
        } else {
            RecvOutcome::Empty
        }
    }
}

impl Subscription {
    /// The position of the next message this subscription would see.
    pub closed spec fn cursor(self) -> int {
        self.next as int
    }

    /// The bus position at which this subscription was opened.
    pub closed spec fn started_at(self) -> int {
        self.started_at@
    }

    /// Whether this subscription ever missed a message.
    pub closed spec fn has_lagged(self) -> bool {
        self.ever_lagged@
    }

    /// Every message this subscription was handed, in the order handed.
    pub closed spec fn received(self) -> Seq<Seq<char>> {
        self.delivered@
    }

    /// Consistency with a bus: the cursor lies between the subscription's
    /// starting point and the tail, and as long as the subscription never
    /// lagged, the messages it was handed are exactly the slice of the
    /// publish history from its start to its cursor.
    pub open spec fn wf(self, bus: BroadcastBus) -> bool {
        &&& 0 <= self.started_at() <= self.cursor() <= bus.log().len()
        &&& !self.has_lagged() ==> self.received() == bus.log().subrange(
            self.started_at(),
            self.cursor(),
        )
    }
}

/// No loss, no duplication, no reordering without lag: a subscription
/// that never lagged has been handed exactly the messages published
/// since it subscribed, up to its cursor, each exactly once and in
/// publish order.
pub proof fn lemma_delivery_exact(sub: Subscription, bus: BroadcastBus)
    requires
        sub.wf(bus),
        !sub.has_lagged(),
    ensures
        sub.received().len() == sub.cursor() - sub.started_at(),
        forall|i: int|
            sub.started_at() <= i < sub.cursor() ==> sub.received()[i - sub.started_at()]
                == bus.log()[i],
{
}

/// Publishing moves no subscription: a subscription consistent with the
/// bus before a message is appended is consistent with it after, with
/// the same cursor, starting point and ghost log.
pub proof fn lemma_publish_preserves_wf(
    sub: Subscription,
    before: BroadcastBus,
    after: BroadcastBus,
    msg: Seq<char>,
)
    requires
        sub.wf(before),
        after.log() == before.log().push(msg),
    ensures
        sub.wf(after),
{
    assert(after.log().subrange(sub.started_at(), sub.cursor()) =~= before.log().subrange(
        sub.started_at(),
        sub.cursor(),
    ));
}

} // verus!
