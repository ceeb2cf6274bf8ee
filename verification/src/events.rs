//! The pipeline's broadcast channel, modelled as an append-only event
//! log with one cursor per subscriber.
//!
//! Publishing appends to the log; a subscriber created at log length
//! `n` starts its cursor at `n`, so it only ever receives events
//! published after it joined, in publish order — at-most-once-from-
//! subscription delivery, no replay.

use vstd::prelude::*;
use crate::stt::SttEvent;

verus! {

/// The append-only log of published events.
pub struct EventBus {
    log: Vec<SttEvent>,
}

impl View for EventBus {
    type V = Seq<SttEvent>;

    closed spec fn view(&self) -> Seq<SttEvent> {
        self.log@
    }
}

/// An independent receiver: a cursor into the bus's log.
pub struct Subscriber {
    cursor: usize,
}

impl View for Subscriber {
    type V = int;

    closed spec fn view(&self) -> int {
        self.cursor as int
    }
}

/// What a receive at `cursor` returns: the event published at that
/// position, or nothing when the subscriber has seen the whole log.
pub open spec fn recv_result(log: Seq<SttEvent>, cursor: int) -> Option<SttEvent> {
    if 0 <= cursor < log.len() {
        Some(log[cursor])
    } else {
        None
    }
}

/// The cursor after a receive: advanced past the returned event, or
/// unchanged when nothing was returned.
pub open spec fn next_cursor(log: Seq<SttEvent>, cursor: int) -> int {
    if 0 <= cursor < log.len() {
        cursor + 1
    } else {
        cursor
    }
}

/// The cursor after `k` consecutive receives.
pub open spec fn cursor_after(log: Seq<SttEvent>, cursor: int, k: nat) -> int
    decreases k,
{
    if k == 0 {
        cursor
    } else {
        next_cursor(log, cursor_after(log, cursor, (k - 1) as nat))
    }
}

impl EventBus {
    /// An empty bus: nothing published yet.
    pub fn new() -> (r: EventBus)
        ensures
            r@ == Seq::<SttEvent>::empty(),
    {
        let r = EventBus { log: Vec::new() };
        proof {
            assert(r@ =~= Seq::<SttEvent>::empty());
        }
        r
    }

    /// The number of events published so far.
    pub fn len(&self) -> (r: usize)
        ensures
            r == self@.len(),
    {
        self.log.len()
    }

    /// Publish an event: append it to the log, where every current and
    /// future subscriber positioned before it will receive it.
    pub fn publish(&mut self, event: SttEvent)
        requires
            old(self)@.len() < usize::MAX as nat,
        ensures
            final(self)@ == old(self)@.push(event),
    {
        self.log.push(event);
    }

    /// A new independent receiver. It sees only events published after
    /// this call: its cursor starts at the current end of the log.
    pub fn subscribe(&self) -> (r: Subscriber)
        ensures
            r@ == self@.len(),
    {
        Subscriber { cursor: self.log.len() }
    }

    /// Receive the next event for `sub`, advancing its cursor;
    /// `None` once the subscriber has seen every published event.
    pub fn recv(&self, sub: &mut Subscriber) -> (r: Option<SttEvent>)
        ensures
            r == recv_result(self@, old(sub)@),
            final(sub)@ == next_cursor(self@, old(sub)@),
    {
        if sub.cursor < self.log.len() {
            let e = self.log[sub.cursor].duplicate();
            sub.cursor = sub.cursor + 1;
            Some(e)
        } else {
            None
        }
    }
}

/// Subscriber isolation: a subscriber that joins when `joined_at`
/// events are already published never receives any of them — every
/// receive at a cursor at or past `joined_at` returns an event
/// published at or after `joined_at`, and the cursor never moves
/// backwards.
pub proof fn lemma_subscriber_isolation(log: Seq<SttEvent>, joined_at: int, c: int)
    requires
        0 <= joined_at <= c,
    ensures
        next_cursor(log, c) >= c,
        c < log.len() ==> recv_result(log, c) == Some(log[c]),
        c >= log.len() ==> recv_result(log, c) is None,
{
}

/// Subscriber completeness and ordering: starting from the position it
/// joined at, a subscriber's `k`-th receive returns exactly the `k`-th
/// event published after it joined, so it observes every event
/// published after joining, in publish order.
pub proof fn lemma_subscriber_receives_all(log: Seq<SttEvent>, joined_at: int, k: nat)
    requires
        0 <= joined_at,
        joined_at + k <= log.len(),
    ensures
        cursor_after(log, joined_at, k) == joined_at + k,
        joined_at + k < log.len() ==> recv_result(log, cursor_after(log, joined_at, k))
            == Some(log[joined_at + k]),
    decreases k,
{
    if k > 0 {
        lemma_subscriber_receives_all(log, joined_at, (k - 1) as nat);
    }
}

} // verus!
