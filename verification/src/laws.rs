//! The channel's delivery guarantees, stated over the mathematical model and
//! proved once for every channel state: publishes with no readers always
//! succeed and leave the ring untouched; a subscriber that keeps up receives
//! every event in publish order with no overflow signal; one that stalls is
//! told exactly how many events were evicted past it and then resumes; and
//! all subscribers read from the same globally ordered ring, so none ever
//! sees events reordered.

use vstd::prelude::*;

use crate::channel::{
    publish_model, receive_model, ChannelModel, PublishOutcome, RecvModel, CAPACITY,
};
use crate::event::EventModel;

verus! {

/// Channel state after publishing each event of `evs`, in order, into state
/// `c`.
pub open spec fn publish_seq_model(c: ChannelModel, evs: Seq<EventModel>) -> ChannelModel
    decreases evs.len(),
{
    if evs.len() == 0 {
        c
    } else {
        publish_model(publish_seq_model(c, evs.drop_last()), evs.last()).0
    }
}

/// The outcome each of those publishes reported, in order.
pub open spec fn publish_seq_outcomes(c: ChannelModel, evs: Seq<EventModel>) -> Seq<PublishOutcome>
    decreases evs.len(),
{
    if evs.len() == 0 {
        Seq::empty()
    } else {
        publish_seq_outcomes(c, evs.drop_last()).push(
            publish_model(publish_seq_model(c, evs.drop_last()), evs.last()).1,
        )
    }
}

/// Outcomes of `k` successive receive calls starting at cursor position
/// `pos`, the cursor advancing as each call dictates.
pub open spec fn drain_model(c: ChannelModel, pos: int, k: nat) -> Seq<RecvModel>
    decreases k,
{
    if k == 0 {
        Seq::empty()
    } else {
        seq![receive_model(c, pos).0] + drain_model(c, receive_model(c, pos).1, (k - 1) as nat)
    }
}

/// Shape of the channel after a burst of publishes with at least one reader
/// attached: the sequence counter advances by one per publish, the ring
/// holds the newest events of the old ring followed by the burst — at most
/// `CAPACITY` of them — and readers and shutdown state are untouched.
pub proof fn lemma_publish_seq_shape(c: ChannelModel, evs: Seq<EventModel>)
    requires
        c.wf(),
        c.readers >= 1,
        c.next() + evs.len() <= u64::MAX,
    ensures
        publish_seq_model(c, evs).wf(),
        publish_seq_model(c, evs).readers == c.readers,
        publish_seq_model(c, evs).closed == c.closed,
        publish_seq_model(c, evs).next() == c.next() + evs.len(),
        publish_seq_model(c, evs).head == vstd::math::max(c.head, c.next() + evs.len() - CAPACITY),
        publish_seq_model(c, evs).buffer == (c.buffer + evs).skip(
            publish_seq_model(c, evs).head - c.head,
        ),
    decreases evs.len(),
{
    if evs.len() == 0 {
        assert(publish_seq_model(c, evs).buffer =~= (c.buffer + evs).skip(0));
    } else {
        let prefix = evs.drop_last();
        lemma_publish_seq_shape(c, prefix);
        let prev = publish_seq_model(c, prefix);
        let cur = publish_seq_model(c, evs);
        assert(c.buffer + prefix =~= (c.buffer + evs).drop_last());
        if prev.buffer.len() < CAPACITY {
            assert(cur.buffer =~= (c.buffer + evs).skip(cur.head - c.head));
        } else {
            assert(prev.buffer.skip(1) =~= (c.buffer + evs.drop_last()).skip(
                prev.head + 1 - c.head,
            ));
            assert(cur.buffer =~= (c.buffer + evs).skip(cur.head - c.head));
        }
    }
}

/// No reordering: whatever position a subscriber's cursor holds inside the
/// ring, successive receives return the ring's events from that position on,
/// each one an event and in the ring's own order. Since every subscriber
/// reads from the same globally ordered ring, any two subscribers see the
/// events they have in common in the same relative order.
pub proof fn lemma_drain_in_range(c: ChannelModel, pos: int, k: nat)
    requires
        c.head <= pos,
        pos + k <= c.next(),
    ensures
        drain_model(c, pos, k) == c.buffer.subrange(pos - c.head, pos - c.head + k).map_values(
            |e: EventModel| RecvModel::Received(e),
        ),
    decreases k,
{
    let expect = c.buffer.subrange(pos - c.head, pos - c.head + k).map_values(
        |e: EventModel| RecvModel::Received(e),
    );
    if k == 0 {
        assert(drain_model(c, pos, k) =~= expect);
    } else {
        lemma_drain_in_range(c, pos + 1, (k - 1) as nat);
        assert(drain_model(c, pos, k) =~= expect);
    }
}

/// With no readers attached, a burst of publishes of any length reports
/// success for every single publish (`Dropped` is a success, not an error)
/// and leaves the channel — ring buffer included — exactly as it was, so no
/// memory grows and the ring stays within its capacity.
pub proof fn lemma_publish_without_readers(c: ChannelModel, evs: Seq<EventModel>)
    requires
        c.wf(),
        c.readers == 0,
    ensures
        publish_seq_model(c, evs) == c,
        publish_seq_outcomes(c, evs) == Seq::new(evs.len(), |i: int| PublishOutcome::Dropped),
        publish_seq_model(c, evs).buffer.len() <= CAPACITY,
    decreases evs.len(),
{
    if evs.len() == 0 {
        assert(publish_seq_outcomes(c, evs) =~= Seq::new(
            evs.len(),
            |i: int| PublishOutcome::Dropped,
        ));
    } else {
        lemma_publish_without_readers(c, evs.drop_last());
        assert(publish_seq_outcomes(c, evs) =~= Seq::new(
            evs.len(),
            |i: int| PublishOutcome::Dropped,
        ));
    }
}

/// In-order delivery without loss: a subscriber whose cursor stands at "now"
/// when a burst of at most `CAPACITY` events is published receives, over as
/// many receive calls, exactly those events, in publish order, with zero
/// overflow signals.
pub proof fn lemma_in_order_delivery(c: ChannelModel, evs: Seq<EventModel>)
    requires
        c.wf(),
        c.readers >= 1,
        evs.len() <= CAPACITY,
        c.next() + evs.len() <= u64::MAX,
    ensures
        drain_model(publish_seq_model(c, evs), c.next(), evs.len()) == evs.map_values(
            |e: EventModel| RecvModel::Received(e),
        ),
{
    lemma_publish_seq_shape(c, evs);
    let after = publish_seq_model(c, evs);
    lemma_drain_in_range(after, c.next(), evs.len());
    assert(after.buffer.subrange(c.next() - after.head, c.next() - after.head + evs.len())
        =~= evs);
    assert(drain_model(after, c.next(), evs.len()) =~= evs.map_values(
        |e: EventModel| RecvModel::Received(e),
    ));
}

/// Overflow is exact and non-fatal: a subscriber whose cursor stands at
/// "now" and then stalls while more than `CAPACITY` events are published
/// gets, on its next receive, a single overflow signal counting exactly the
/// events evicted past it, and then receives the `CAPACITY` retained events
/// normally, in publish order.
pub proof fn lemma_overflow_then_resume(c: ChannelModel, evs: Seq<EventModel>)
    requires
        c.wf(),
        c.readers >= 1,
        evs.len() > CAPACITY,
        c.next() + evs.len() <= u64::MAX,
    ensures
        drain_model(publish_seq_model(c, evs), c.next(), (CAPACITY + 1) as nat) == seq![
            RecvModel::Overflowed(evs.len() - CAPACITY),
        ] + evs.skip(evs.len() - CAPACITY).map_values(|e: EventModel| RecvModel::Received(e)),
{
    lemma_publish_seq_shape(c, evs);
    let after = publish_seq_model(c, evs);
    let skipped = evs.len() - CAPACITY;
    assert(after.head == c.next() + skipped);
    assert(receive_model(after, c.next()) == (RecvModel::Overflowed(skipped as int), after.head));
    lemma_drain_in_range(after, after.head, CAPACITY as nat);
    assert(after.buffer.subrange(0, CAPACITY as int) =~= evs.skip(skipped));
    assert(drain_model(after, c.next(), (CAPACITY + 1) as nat) =~= seq![
        RecvModel::Overflowed(skipped as int),
    ] + evs.skip(skipped).map_values(|e: EventModel| RecvModel::Received(e)));
}

/// Two subscribers attached at the same moment — their cursors both at "now"
/// — each observe every event of a burst published after their attachment,
/// in publish order, and therefore in the same relative order as each other.
pub proof fn lemma_two_subscribers_same_order(
    c: ChannelModel,
    evs: Seq<EventModel>,
    pos1: int,
    pos2: int,
)
    requires
        c.wf(),
        c.readers >= 2,
        pos1 == c.next(),
        pos2 == c.next(),
        evs.len() <= CAPACITY,
        c.next() + evs.len() <= u64::MAX,
    ensures
        drain_model(publish_seq_model(c, evs), pos1, evs.len()) == evs.map_values(
            |e: EventModel| RecvModel::Received(e),
        ),
        drain_model(publish_seq_model(c, evs), pos2, evs.len()) == drain_model(
            publish_seq_model(c, evs),
            pos1,
            evs.len(),
        ),
{
    lemma_in_order_delivery(c, evs);
}

} // verus!
