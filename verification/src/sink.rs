//! The outgoing side of a connection: events wait in a queue, are encoded
//! one at a time, and their bytes are sent as far as the socket takes them.
//!
//! The queue decides; the caller does the sending. Each round, `prepare`
//! says whether there is anything to send (encoding the next event when the
//! previous one has gone out), the caller sends `pending()` and reports with
//! `sent` how many bytes the socket took.

use crate::buffer::{bytes_new, bytes_to_vec};
use crate::event::Event;
use crate::message::EncodeError;
use crate::wire::Endian;
use vstd::prelude::*;

verus! {

/// What to do after `prepare`.
#[derive(Clone, Copy, Debug, PartialEq, Eq, Structural)]
pub enum SinkStep {
    /// Everything has been sent.
    Done,
    /// Send the pending bytes.
    Send,
}

/// The bytes of events, one after the other.
pub open spec fn wires<E: Event>(order: Endian, events: Seq<E>) -> Seq<u8>
    decreases events.len(),
{
    if events.len() == 0 {
        Seq::empty()
    } else {
        events[0].wire(order) + wires(order, events.drop_first())
    }
}

/// Appending an event appends its bytes.
pub proof fn lemma_wires_push<E: Event>(order: Endian, events: Seq<E>, e: E)
    ensures
        wires(order, events.push(e)) == wires(order, events) + e.wire(order),
    decreases events.len(),
{
    if events.len() == 0 {
        assert(events.push(e).drop_first() =~= Seq::<E>::empty());
        assert(events.push(e)[0] == e);
        assert(wires(order, events.push(e).drop_first()) == Seq::<u8>::empty());
        assert(wires(order, events.push(e)) =~= e.wire(order) + Seq::<u8>::empty());
        assert(wires(order, events) == Seq::<u8>::empty());
    } else {
        lemma_wires_push(order, events.drop_first(), e);
        assert(events.push(e).drop_first() =~= events.drop_first().push(e));
        assert(wires(order, events.push(e)) =~= wires(order, events) + e.wire(order));
    }
}

/// What a queue holds, for specifications.
pub struct EventQueueV<E> {
    pub pending_bytes: Seq<u8>,
    pub pending_events: Seq<E>,
    pub closed: bool,
}

/// The bytes that a queue still owes its client: those of the event being
/// sent, then those of every waiting event, in order.
pub open spec fn outstanding<E: Event>(order: Endian, q: EventQueueV<E>) -> Seq<u8> {
    q.pending_bytes + wires(order, q.pending_events)
}

/// The events waiting to go to a client and the bytes of the one being sent.
pub struct EventQueue<E> {
    pending_bytes: Vec<u8>,
    pending_events: Vec<E>,
    closed: bool,
}

impl<E> View for EventQueue<E> {
    type V = EventQueueV<E>;

    closed spec fn view(&self) -> EventQueueV<E> {
        EventQueueV { pending_bytes: self.pending_bytes@, pending_events: self.pending_events@, closed: self.closed }
    }
}

impl<E: Event> EventQueue<E> {
    /// An empty, open queue.
    pub fn new() -> (r: EventQueue<E>)
        ensures
            r@.pending_bytes == Seq::<u8>::empty(),
            r@.pending_events == Seq::<E>::empty(),
            !r@.closed,
    {
        EventQueue { pending_bytes: Vec::new(), pending_events: Vec::new(), closed: false }
    }

    /// Queues an event behind the others.
    pub fn start_send(&mut self, item: E)
        ensures
            final(self)@.pending_events == old(self)@.pending_events.push(item),
            final(self)@.pending_bytes == old(self)@.pending_bytes,
            final(self)@.closed == old(self)@.closed,
            forall|order: Endian| #[trigger] outstanding(order, final(self)@) == outstanding(order, old(self)@) + item.wire(order),
            final(self)@ == start_spec(old(self)@, item),
    {
        let ghost item_v = item;
        self.pending_events.push(item);
        assert forall|order: Endian| #[trigger] outstanding(order, self@) == outstanding(order, old(self)@) + item_v.wire(
            order,
        ) by {
            lemma_wires_push(order, old(self)@.pending_events, item_v);
        }
    }

    /// Gets the next bytes ready: when the bytes of the last event have all
    /// gone, takes the first waiting event and encodes it. Says `Done` when
    /// nothing is left; fails, having dropped the event, when it cannot be
    /// encoded. Otherwise what the client is owed does not change.
    pub fn prepare(&mut self, order: Endian) -> (r: Result<SinkStep, EncodeError>)
        ensures
            final(self)@.closed == old(self)@.closed,
            old(self)@.pending_bytes.len() > 0 ==> r == Ok::<SinkStep, EncodeError>(SinkStep::Send) && final(self)@
                == old(self)@,
            old(self)@.pending_bytes.len() == 0 && old(self)@.pending_events.len() == 0 ==> r == Ok::<
                SinkStep,
                EncodeError,
            >(SinkStep::Done) && final(self)@ == old(self)@,
            old(self)@.pending_bytes.len() == 0 && old(self)@.pending_events.len() > 0 ==> {
                &&& final(self)@.pending_events == old(self)@.pending_events.drop_first()
                &&& old(self)@.pending_events[0].encodable(order) ==> {
                    &&& r == Ok::<SinkStep, EncodeError>(SinkStep::Send)
                    &&& final(self)@.pending_bytes == old(self)@.pending_events[0].wire(order)
                }
                &&& !old(self)@.pending_events[0].encodable(order) ==> r is Err && final(self)@.pending_bytes.len()
                    == 0
            },
            r is Ok ==> outstanding(order, final(self)@) == outstanding(order, old(self)@),
            prepare_spec(order, old(self)@) == (final(self)@, match r {
                Ok(step) => Some(step),
                Err(_) => None::<SinkStep>,
            }),
    {
        if self.pending_bytes.len() > 0 {
            return Ok(SinkStep::Send);
        }
        if self.pending_events.len() == 0 {
            return Ok(SinkStep::Done);
        }
        let first = self.pending_events.remove(0);
        let mut buf = bytes_new();
        match first.encode(order, &mut buf) {
            Ok(()) => {
                let mut bytes = bytes_to_vec(&buf);
                self.pending_bytes.append(&mut bytes);
                assert(self@.pending_bytes =~= first.wire(order));
                assert(outstanding(order, old(self)@) =~= first.wire(order) + wires(order, self@.pending_events));
                assert(self@ == prepare_spec(order, old(self)@).0);
                Ok(SinkStep::Send)
            },
            Err(e) => {
                assert(self@.pending_bytes =~= Seq::<u8>::empty());
                assert(self@ == prepare_spec(order, old(self)@).0);
                Err(e)
            },
        }
    }

    /// The bytes to send next.
    pub fn pending(&self) -> (r: &Vec<u8>)
        ensures
            r@ == self@.pending_bytes,
    {
        &self.pending_bytes
    }

    /// Takes note that the socket took the first `n` pending bytes (all of
    /// them when `n` is at least their number): exactly those bytes leave
    /// what the client is owed.
    pub fn sent(&mut self, n: usize)
        ensures
            final(self)@.pending_events == old(self)@.pending_events,
            final(self)@.closed == old(self)@.closed,
            final(self)@.pending_bytes == if n >= old(self)@.pending_bytes.len() {
                Seq::<u8>::empty()
            } else {
                old(self)@.pending_bytes.subrange(n as int, old(self)@.pending_bytes.len() as int)
            },
            forall|order: Endian| #[trigger] outstanding(order, final(self)@) == outstanding(order, old(self)@).subrange(
                if n >= old(self)@.pending_bytes.len() { old(self)@.pending_bytes.len() as int } else { n as int },
                outstanding(order, old(self)@).len() as int,
            ),
            final(self)@ == sent_spec(old(self)@, n as nat),
    {
        if self.pending_bytes.len() <= n {
            self.pending_bytes.clear();
        } else if n > 0 {
            let tail = self.pending_bytes.split_off(n);
            self.pending_bytes = tail;
        }
        assert(self@.pending_bytes =~= sent_spec(old(self)@, n as nat).pending_bytes);
        assert forall|order: Endian| #[trigger] outstanding(order, self@) == outstanding(order, old(self)@).subrange(
            if n >= old(self)@.pending_bytes.len() { old(self)@.pending_bytes.len() as int } else { n as int },
            outstanding(order, old(self)@).len() as int,
        ) by {
            if n >= old(self)@.pending_bytes.len() {
                assert(outstanding(order, self@) =~= outstanding(order, old(self)@).subrange(
                    old(self)@.pending_bytes.len() as int,
                    outstanding(order, old(self)@).len() as int,
                ));
            } else {
                assert(outstanding(order, self@) =~= outstanding(order, old(self)@).subrange(
                    n as int,
                    outstanding(order, old(self)@).len() as int,
                ));
            }
        }
    }

    /// Closes the queue.
    pub fn close(&mut self)
        ensures
            final(self)@.closed,
            final(self)@.pending_bytes == old(self)@.pending_bytes,
            final(self)@.pending_events == old(self)@.pending_events,
    {
        self.closed = true;
    }

    /// Whether the queue was closed.
    pub fn is_closed(&self) -> (r: bool)
        ensures
            r == self@.closed,
    {
        self.closed
    }
}

/// What `start_send` does to a queue.
pub open spec fn start_spec<E>(q: EventQueueV<E>, item: E) -> EventQueueV<E> {
    EventQueueV { pending_events: q.pending_events.push(item), ..q }
}

/// What `prepare` does to a queue: the queue after it, and the step it
/// says, or `None` when it fails.
pub open spec fn prepare_spec<E: Event>(order: Endian, q: EventQueueV<E>) -> (EventQueueV<E>, Option<SinkStep>) {
    if q.pending_bytes.len() > 0 {
        (q, Some(SinkStep::Send))
    } else if q.pending_events.len() == 0 {
        (q, Some(SinkStep::Done))
    } else {
        let e = q.pending_events[0];
        let rest = q.pending_events.drop_first();
        if e.encodable(order) {
            (EventQueueV { pending_bytes: e.wire(order), pending_events: rest, ..q }, Some(SinkStep::Send))
        } else {
            (EventQueueV { pending_bytes: Seq::empty(), pending_events: rest, ..q }, None)
        }
    }
}

/// How many of the pending bytes a send of `n` bytes takes.
pub open spec fn sent_count<E>(q: EventQueueV<E>, n: nat) -> int {
    if n >= q.pending_bytes.len() { q.pending_bytes.len() as int } else { n as int }
}

/// What `sent` does to a queue.
pub open spec fn sent_spec<E>(q: EventQueueV<E>, n: nat) -> EventQueueV<E> {
    EventQueueV {
        pending_bytes: if n >= q.pending_bytes.len() {
            Seq::empty()
        } else {
            q.pending_bytes.subrange(n as int, q.pending_bytes.len() as int)
        },
        ..q
    }
}

/// One call on an event queue.
pub enum SinkCall<E> {
    StartSend(E),
    Prepare,
    Sent(nat),
}

/// A run of calls on a queue: the queue after them, the bytes that the
/// socket took (what each `sent` reports, in order), the events queued in
/// order, and whether a `prepare` failed. The run stops at a failure, as
/// the sink does.
pub open spec fn sink_run<E: Event>(order: Endian, q: EventQueueV<E>, calls: Seq<SinkCall<E>>) -> (
    EventQueueV<E>,
    Seq<u8>,
    Seq<E>,
    bool,
)
    decreases calls.len(),
{
    if calls.len() == 0 {
        (q, Seq::empty(), Seq::empty(), false)
    } else {
        let (q1, written, started, failed) = sink_run(order, q, calls.drop_last());
        if failed {
            (q1, written, started, true)
        } else {
            match calls.last() {
                SinkCall::StartSend(e) => (start_spec(q1, e), written, started.push(e), false),
                SinkCall::Prepare => {
                    let (q2, r) = prepare_spec(order, q1);
                    (q2, written, started, r is None)
                },
                SinkCall::Sent(n) => (
                    sent_spec(q1, n),
                    written + q1.pending_bytes.subrange(0, sent_count(q1, n)),
                    started,
                    false,
                ),
            }
        }
    }
}

/// A `prepare` that does not fail leaves what the client is owed as it was.
proof fn lemma_prepare_keeps<E: Event>(order: Endian, q: EventQueueV<E>)
    ensures
        prepare_spec(order, q).1 is Some ==> outstanding(order, prepare_spec(order, q).0) == outstanding(order, q),
{
    if q.pending_bytes.len() == 0 && q.pending_events.len() > 0 {
        let e = q.pending_events[0];
        assert(q.pending_bytes + wires(order, q.pending_events) =~= e.wire(order) + wires(order, q.pending_events.drop_first()));
    }
}

/// Events go out in order, each exactly once, over any run of calls: until a
/// `prepare` fails, the bytes the socket took, followed by what the queue
/// still owes, are what it owed at the start followed by the bytes of every
/// event queued, in the order queued.
pub proof fn lemma_sink_run_in_order<E: Event>(order: Endian, q: EventQueueV<E>, calls: Seq<SinkCall<E>>)
    ensures
        ({
            let (q2, written, started, failed) = sink_run(order, q, calls);
            !failed ==> written + outstanding(order, q2) == outstanding(order, q) + wires(order, started)
        }),
    decreases calls.len(),
{
    if calls.len() > 0 {
        lemma_sink_run_in_order(order, q, calls.drop_last());
        let (q1, written, started, failed) = sink_run(order, q, calls.drop_last());
        if !failed {
            match calls.last() {
                SinkCall::StartSend(e) => {
                    lemma_wires_push(order, q1.pending_events, e);
                    lemma_wires_push(order, started, e);
                    assert(written + (q1.pending_bytes + (wires(order, q1.pending_events) + e.wire(order))) =~= written
                        + outstanding(order, q1) + e.wire(order));
                    assert(outstanding(order, q) + wires(order, started) + e.wire(order) =~= outstanding(order, q) + (
                    wires(order, started) + e.wire(order)));
                },
                SinkCall::Prepare => {
                    lemma_prepare_keeps(order, q1);
                },
                SinkCall::Sent(n) => {
                    let m = sent_count(q1, n);
                    let b = q1.pending_bytes;
                    let w = wires(order, q1.pending_events);
                    assert(sent_spec(q1, n).pending_bytes =~= b.subrange(m, b.len() as int));
                    assert(written + b.subrange(0, m) + (b.subrange(m, b.len() as int) + w) =~= written + (b + w));
                },
            }
        }
    }
}

/// From an empty queue, once the queue owes nothing, the bytes the socket
/// took are exactly the bytes of the events queued, one after the other, in
/// the order queued.
pub proof fn lemma_sink_run_delivers<E: Event>(order: Endian, q: EventQueueV<E>, calls: Seq<SinkCall<E>>)
    requires
        q.pending_bytes.len() == 0,
        q.pending_events.len() == 0,
    ensures
        ({
            let (q2, written, started, failed) = sink_run(order, q, calls);
            !failed && q2.pending_bytes.len() == 0 && q2.pending_events.len() == 0 ==> written == wires(order, started)
        }),
{
    lemma_sink_run_in_order(order, q, calls);
    let (q2, written, started, failed) = sink_run(order, q, calls);
    assert(outstanding(order, q) =~= Seq::<u8>::empty());
    if !failed && q2.pending_bytes.len() == 0 && q2.pending_events.len() == 0 {
        assert(outstanding(order, q2) =~= Seq::<u8>::empty());
        assert(written + Seq::<u8>::empty() =~= written);
        assert(Seq::<u8>::empty() + wires(order, started) =~= wires(order, started));
    }
}

} // verus!
