//! Delivery of one stream's data through credit-based flow control.
//!
//! A [`Link`] is one direction of a stream as a whole: the writer's send
//! credit, the frames on the wire, the window updates on their way back, the
//! receiving [`StreamCore`](super::inner::StreamCore) and what the reader has
//! read so far. Each [`LinkEvent`] is one step of one side, exactly as the
//! step's own contract describes it: a write (`StreamCore::write` on what is
//! left of the data), the next frame reaching `StreamCore::on_inbound`, a read
//! (`StreamCore::read`), the next window update reaching
//! `SendWindow::grant`, and the `FIN` after the last write. Frames and
//! updates arrive in the order they were sent.

use vstd::prelude::*;

use crate::flow::window::{acquire_result, consume_result, granted, AcquireOutcome};
use crate::protocol::flags::Flags;

use super::inner::{concat, StreamCoreView};

verus! {

/// One direction of a stream, from the writer's credit to the reader.
pub struct Link {
    /// The writer's send credit.
    pub avail: u32,
    /// The writer's largest frame payload.
    pub max_frame: u32,
    /// Payloads of the `Data` frames on the wire, oldest first.
    pub flight: Seq<Seq<u8>>,
    /// Credit handed back by the reader, not yet granted to the writer.
    pub updates: Seq<u32>,
    /// Whether the writer sent its `FIN` (after its last data frame).
    pub fin_queued: bool,
    /// How many bytes of the data the writer has sent.
    pub sent: nat,
    /// The receiving stream.
    pub receiver: StreamCoreView,
    /// Everything the reader has read, in order.
    pub out: Seq<u8>,
}

/// One step of either side.
pub enum LinkEvent {
    /// The writer writes what is left of its data.
    Write,
    /// The oldest frame on the wire reaches the receiver.
    Deliver,
    /// The reader reads with this much room.
    Read(usize),
    /// The oldest window update reaches the writer.
    Grant,
    /// The writer, done with its data, sends `FIN`.
    SendFin,
    /// The `FIN` reaches the receiver.
    DeliverFin,
}

/// Sum of a sequence of credits.
pub open spec fn sum(s: Seq<u32>) -> int
    decreases s.len(),
{
    if s.len() == 0 {
        0
    } else {
        s[0] + sum(s.drop_first())
    }
}

/// The link after one event, when the writer's data is `d`. An event that
/// cannot happen in this state (nothing left to write, no credit, nothing on
/// the wire, nothing to read) changes nothing.
pub open spec fn link_step(d: Seq<u8>, l: Link, ev: LinkEvent) -> Link {
    match ev {
        LinkEvent::Write => if !l.fin_queued && l.sent < d.len() {
            let buf = d.skip(l.sent as int);
            let want = if buf.len() < l.max_frame {
                buf.len() as u32
            } else {
                l.max_frame
            };
            match acquire_result(l.avail, false, want).0 {
                AcquireOutcome::Acquired(n) => Link {
                    avail: acquire_result(l.avail, false, want).1,
                    flight: l.flight.push(buf.take(n as int)),
                    sent: (l.sent + n) as nat,
                    ..l
                },
                _ => l,
            }
        } else {
            l
        },
        LinkEvent::Deliver => if l.flight.len() > 0 && l.receiver.can_recv() {
            Link {
                receiver: l.receiver.after_inbound(Flags { bits: 0 }, l.flight[0]),
                flight: l.flight.drop_first(),
                ..l
            }
        } else {
            l
        },
        LinkEvent::Read(room) => if room > 0 && !l.receiver.state.reset
            && l.receiver.unread.len() > 0 {
            let r = l.receiver;
            let n = if room < r.unread.len() {
                room as int
            } else {
                r.unread.len() as int
            };
            let (delta, pending) = consume_result(r.recv_initial, r.recv_pending, n as u32);
            Link {
                receiver: StreamCoreView { unread: r.unread.skip(n), recv_pending: pending, ..r },
                out: l.out + r.unread.take(n),
                updates: match delta {
                    Some(x) => l.updates.push(x),
                    None => l.updates,
                },
                ..l
            }
        } else {
            l
        },
        LinkEvent::Grant => if l.updates.len() > 0 {
            Link { avail: granted(l.avail, l.updates[0]), updates: l.updates.drop_first(), ..l }
        } else {
            l
        },
        LinkEvent::SendFin => if l.sent == d.len() {
            Link { fin_queued: true, ..l }
        } else {
            l
        },
        LinkEvent::DeliverFin => if l.fin_queued && l.flight.len() == 0 && l.receiver.can_recv() {
            Link { receiver: l.receiver.after_remote_fin(), ..l }
        } else {
            l
        },
    }
}

/// The link after a run of events.
pub open spec fn link_run(d: Seq<u8>, l: Link, events: Seq<LinkEvent>) -> Link
    decreases events.len(),
{
    if events.len() == 0 {
        l
    } else {
        link_run(d, link_step(d, l, events[0]), events.drop_first())
    }
}

/// A fresh link for data `d` over a window of `w` bytes: the writer holds
/// the whole window as credit, nothing is on the wire, and the receiver is a
/// fresh stream with that window.
pub open spec fn link_start(d: Seq<u8>, w: u32, l: Link) -> bool {
    &&& l.avail == w
    &&& l.flight.len() == 0
    &&& l.updates.len() == 0
    &&& !l.fin_queued
    &&& l.sent == 0
    &&& l.out.len() == 0
    &&& l.receiver.wf()
    &&& l.receiver.recv_initial == w
    &&& l.receiver.recv_pending == 0
    &&& l.receiver.unread.len() == 0
    &&& l.receiver.state.read_open
    &&& !l.receiver.state.reset
}

/// What holds of a link at every step.
pub open spec fn link_inv(d: Seq<u8>, w: u32, l: Link) -> bool {
    &&& l.receiver.wf()
    &&& l.receiver.recv_initial == w
    &&& !l.receiver.state.reset
    // Credit is conserved: the window is split between the writer's credit,
    // the bytes on the wire, the unread bytes, the bytes read but not handed
    // back, and the credit on its way back.
    &&& l.avail + concat(l.flight).len() + l.receiver.unread.len() + l.receiver.recv_pending
        + sum(l.updates) == w
    // Nothing is lost, duplicated or reordered.
    &&& l.sent <= d.len()
    &&& l.out + l.receiver.unread + concat(l.flight) == d.take(l.sent as int)
    &&& l.fin_queued ==> l.sent == d.len()
    &&& !l.receiver.state.read_open ==> l.fin_queued && l.flight.len() == 0
}

proof fn lemma_concat_push(fl: Seq<Seq<u8>>, c: Seq<u8>)
    ensures
        concat(fl.push(c)) == concat(fl) + c,
    decreases fl.len(),
{
    if fl.len() == 0 {
        assert(fl.push(c).drop_first() =~= Seq::<Seq<u8>>::empty());
        assert(fl.push(c)[0] == c);
        assert(concat(Seq::<Seq<u8>>::empty()) == Seq::<u8>::empty());
        assert(concat(fl.push(c)) =~= c);
        assert(concat(fl) == Seq::<u8>::empty());
    } else {
        assert(fl.push(c).drop_first() =~= fl.drop_first().push(c));
        assert(fl.push(c)[0] == fl[0]);
        lemma_concat_push(fl.drop_first(), c);
        assert(concat(fl.push(c)) =~= concat(fl) + c);
    }
}

proof fn lemma_sum_push(s: Seq<u32>, x: u32)
    ensures
        sum(s.push(x)) == sum(s) + x,
    decreases s.len(),
{
    if s.len() == 0 {
        assert(s.push(x).drop_first() =~= Seq::<u32>::empty());
        assert(s.push(x)[0] == x);
        assert(sum(Seq::<u32>::empty()) == 0);
    } else {
        assert(s.push(x).drop_first() =~= s.drop_first().push(x));
        assert(s.push(x)[0] == s[0]);
        lemma_sum_push(s.drop_first(), x);
    }
}

proof fn lemma_sum_nonneg(s: Seq<u32>)
    ensures
        sum(s) >= 0,
    decreases s.len(),
{
    if s.len() > 0 {
        lemma_sum_nonneg(s.drop_first());
    }
}

/// Every step keeps the link's invariant.
pub proof fn lemma_link_step(d: Seq<u8>, w: u32, l: Link, ev: LinkEvent)
    requires
        link_inv(d, w, l),
    ensures
        link_inv(d, w, link_step(d, l, ev)),
{
    lemma_sum_nonneg(l.updates);
    let r = l.receiver;
    match ev {
        LinkEvent::Write => {
            if !l.fin_queued && l.sent < d.len() {
                let buf = d.skip(l.sent as int);
                let want = if buf.len() < l.max_frame {
                    buf.len() as u32
                } else {
                    l.max_frame
                };
                if let AcquireOutcome::Acquired(n) = acquire_result(l.avail, false, want).0 {
                    let c = buf.take(n as int);
                    lemma_concat_push(l.flight, c);
                    assert(d.take(l.sent + n) =~= d.take(l.sent as int) + c);
                    assert(l.out + r.unread + concat(l.flight.push(c)) =~= l.out + r.unread
                        + concat(l.flight) + c);
                }
            }
        },
        LinkEvent::Deliver => {
            if l.flight.len() > 0 && r.can_recv() {
                let c = l.flight[0];
                let zero = 0u16;
                assert(zero & 2u16 != 2u16 && zero & 4u16 != 4u16 && zero & 8u16 != 8u16)
                    by (bit_vector)
                    requires
                        zero == 0u16,
                ;
                assert(r.after_inbound(Flags { bits: 0 }, c) == r.after_push(c));
                assert(concat(l.flight) == c + concat(l.flight.drop_first()));
                assert(l.out + (r.unread + c) + concat(l.flight.drop_first()) =~= l.out + r.unread
                    + concat(l.flight));
            }
        },
        LinkEvent::Read(room) => {
            if room > 0 && !r.state.reset && r.unread.len() > 0 {
                let n = if room < r.unread.len() {
                    room as int
                } else {
                    r.unread.len() as int
                };
                assert(r.recv_pending + n <= w);
                assert((n as u32) as int == n);
                let (delta, pending) = consume_result(r.recv_initial, r.recv_pending, n as u32);
                if let Some(x) = delta {
                    lemma_sum_push(l.updates, x);
                }
                assert(l.out + r.unread.take(n) + r.unread.skip(n) + concat(l.flight) =~= l.out
                    + r.unread + concat(l.flight));
            }
        },
        LinkEvent::Grant => {
            if l.updates.len() > 0 {
                lemma_sum_nonneg(l.updates.drop_first());
                assert(sum(l.updates) == l.updates[0] + sum(l.updates.drop_first()));
            }
        },
        LinkEvent::SendFin => {},
        LinkEvent::DeliverFin => {},
    }
}

/// The invariant holds after any run of events from a fresh link.
pub proof fn lemma_link_run(d: Seq<u8>, w: u32, l: Link, events: Seq<LinkEvent>)
    requires
        link_inv(d, w, l),
    ensures
        link_inv(d, w, link_run(d, l, events)),
    decreases events.len(),
{
    if events.len() > 0 {
        lemma_link_step(d, w, l, events[0]);
        lemma_link_run(d, w, link_step(d, l, events[0]), events.drop_first());
    }
}

/// In-order delivery through flow control. From a fresh link, over any run
/// of writes, deliveries, reads and grants, in any interleaving:
/// * a frame that reaches the receiver is never refused for credit (the
///   receiver can take it and it is within the credit the writer held);
/// * everything read, joined together, is a prefix of the written data;
/// * once the writer's `FIN` has arrived and the receiver's buffer is
///   drained, everything read is exactly the written data.
pub proof fn lemma_delivery_through_flow_control(
    d: Seq<u8>,
    w: u32,
    l0: Link,
    events: Seq<LinkEvent>,
)
    requires
        link_start(d, w, l0),
    ensures
        ({
            let l = link_run(d, l0, events);
            &&& l.flight.len() > 0 ==> l.receiver.can_recv() && l.receiver.within_credit(
                l.flight[0].len() as int,
            )
            &&& l.out == d.take(l.out.len() as int)
            &&& !l.receiver.state.read_open && l.receiver.unread.len() == 0 ==> l.out == d
        }),
{
    assert(l0.out + l0.receiver.unread + concat(l0.flight) =~= d.take(0));
    lemma_sum_nonneg(l0.updates);
    assert(sum(l0.updates) == 0);
    lemma_link_run(d, w, l0, events);
    let l = link_run(d, l0, events);
    lemma_sum_nonneg(l.updates);
    if l.flight.len() > 0 {
        assert(concat(l.flight) == l.flight[0] + concat(l.flight.drop_first()));
    }
    let all = l.out + l.receiver.unread + concat(l.flight);
    assert(l.out =~= all.take(l.out.len() as int));
    assert(all.len() == l.sent);
    assert(l.out.len() <= l.sent <= d.len());
    assert forall|i: int| 0 <= i < l.out.len() implies l.out[i] == d[i] by {
        assert(l.out[i] == all[i]);
        assert(all[i] == d.take(l.sent as int)[i]);
    }
    assert(l.out =~= d.take(l.out.len() as int));
    if !l.receiver.state.read_open && l.receiver.unread.len() == 0 {
        assert(concat(l.flight) =~= Seq::<u8>::empty());
        assert(d.take(d.len() as int) =~= d);
        assert(l.out =~= all);
    }
}

/// Unread bytes buffered over a set of streams.
pub open spec fn total_unread(streams: Seq<StreamCoreView>) -> int
    decreases streams.len(),
{
    if streams.len() == 0 {
        0
    } else {
        streams[0].unread.len() + total_unread(streams.drop_first())
    }
}

/// Memory stays bounded: a session with at most `max_streams` streams, each
/// well-formed with a window of `w` bytes, buffers at most
/// `max_streams * w` unread bytes in all, whatever the peer sends.
pub proof fn lemma_memory_bound(streams: Seq<StreamCoreView>, w: u32, max_streams: nat)
    requires
        streams.len() <= max_streams,
        forall|i: int| 0 <= i < streams.len() ==> (#[trigger] streams[i]).wf() && streams[i].recv_initial
            == w,
    ensures
        0 <= total_unread(streams) <= max_streams * w,
    decreases streams.len(),
{
    if streams.len() > 0 {
        let rest = streams.drop_first();
        assert forall|i: int| 0 <= i < rest.len() implies (#[trigger] rest[i]).wf()
            && rest[i].recv_initial == w by {
            assert(rest[i] == streams[i + 1]);
        }
        assert(streams[0].wf());
        lemma_memory_bound(rest, w, (max_streams - 1) as nat);
        assert(max_streams * w == (max_streams - 1) * w + w) by (nonlinear_arith)
            requires
                max_streams >= 1,
        ;
    } else {
        assert(0 <= max_streams * w) by (nonlinear_arith);
    }
}

} // verus!
