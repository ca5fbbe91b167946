//! The bounded broadcast channel: a fixed-capacity ring of the most recent
//! events, a monotonically increasing sequence counter, and a logical count
//! of attached readers.
//!
//! Publishing never blocks and never fails: when the ring is full the oldest
//! retained event is evicted, and a publish with no attached readers simply
//! drops the event while still reporting success. Each subscriber owns a
//! private [`Cursor`]; a cursor that has fallen behind the ring is told how
//! many events it skipped and then resumes normally.

use vstd::prelude::*;

use crate::event::{Event, EventModel};

verus! {

/// Fixed capacity of the ring buffer: the channel retains at most this many
/// of the most recently published events.
pub const CAPACITY: usize = 16;

/// Mathematical model of the channel state.
#[verifier::ext_equal]
pub struct ChannelModel {
    /// The retained events, oldest first.
    pub buffer: Seq<EventModel>,
    /// Sequence number of the oldest retained event.
    pub head: int,
    /// Count of attached reader cursors.
    pub readers: int,
    /// Whether the channel has been permanently shut down.
    pub closed: bool,
}

impl ChannelModel {
    /// Sequence number that the next published event will receive.
    pub open spec fn next(self) -> int {
        self.head + self.buffer.len()
    }

    pub open spec fn wf(self) -> bool {
        &&& self.buffer.len() <= CAPACITY
        &&& 0 <= self.head
        &&& self.next() <= u64::MAX
        &&& 0 <= self.readers <= u64::MAX
    }
}

/// What a publish reports. Both variants are success: a publish with no
/// attached readers drops the event without surfacing an error.
#[derive(Debug, PartialEq, Eq)]
pub enum PublishOutcome {
    /// At least one reader was attached; the event entered the ring.
    Delivered,
    /// No reader was attached; the event was discarded.
    Dropped,
}

/// Channel state and outcome after publishing `ev` into state `c`.
///
/// With no readers the event is discarded and the state is unchanged.
/// Otherwise the event becomes the newest entry, evicting the oldest one
/// when the ring is already at capacity. The outcome never is an error.
pub open spec fn publish_model(c: ChannelModel, ev: EventModel) -> (ChannelModel, PublishOutcome) {
    if c.readers == 0 {
        (c, PublishOutcome::Dropped)
    } else if c.buffer.len() < CAPACITY {
        (ChannelModel { buffer: c.buffer.push(ev), ..c }, PublishOutcome::Delivered)
    } else {
        (
            ChannelModel { buffer: c.buffer.skip(1).push(ev), head: c.head + 1, ..c },
            PublishOutcome::Delivered,
        )
    }
}

/// What one receive call on a cursor returns.
#[derive(Debug, PartialEq, Eq)]
pub enum RecvOutcome {
    /// The next event, in publish order.
    Received(Event),
    /// The cursor had fallen behind and this many events were evicted past
    /// it; the cursor is repositioned and stays usable.
    Overflowed(u64),
    /// Nothing to read yet; the caller should wait and try again.
    Pending,
    /// The channel was shut down and everything retained has been read.
    Closed,
}

/// Mathematical model of a [`RecvOutcome`].
#[verifier::ext_equal]
pub enum RecvModel {
    Received(EventModel),
    Overflowed(int),
    Pending,
    Closed,
}

impl View for RecvOutcome {
    type V = RecvModel;

    open spec fn view(&self) -> RecvModel {
        match self {
            RecvOutcome::Received(e) => RecvModel::Received(e@),
            RecvOutcome::Overflowed(n) => RecvModel::Overflowed(*n as int),
            RecvOutcome::Pending => RecvModel::Pending,
            RecvOutcome::Closed => RecvModel::Closed,
        }
    }
}

/// Outcome and new cursor position of one receive call at position `pos` on
/// channel state `c`.
///
/// A cursor behind the ring is told how many events it skipped and jumps to
/// the oldest retained event; a cursor inside the ring gets the event at its
/// position and advances by one; a cursor that has caught up sees `Closed`
/// if the channel was shut down, else `Pending`.
pub open spec fn receive_model(c: ChannelModel, pos: int) -> (RecvModel, int) {
    if pos < c.head {
        (RecvModel::Overflowed(c.head - pos), c.head)
    } else if pos < c.next() {
        (RecvModel::Received(c.buffer[pos - c.head]), pos + 1)
    } else if c.closed {
        (RecvModel::Closed, pos)
    } else {
        (RecvModel::Pending, pos)
    }
}

/// The process-wide bounded broadcast channel.
pub struct BroadcastChannel {
    buffer: Vec<Event>,
    head: u64,
    readers: u64,
    closed: bool,
}

impl View for BroadcastChannel {
    type V = ChannelModel;

    closed spec fn view(&self) -> ChannelModel {
        ChannelModel {
            buffer: self.buffer@.map_values(|e: Event| e@),
            head: self.head as int,
            readers: self.readers as int,
            closed: self.closed,
        }
    }
}

/// A subscriber's private read position into the channel. Exclusively owned
/// by one subscriber session; never shared.
pub struct Cursor {
    pos: u64,
}

impl View for Cursor {
    type V = int;

    closed spec fn view(&self) -> int {
        self.pos as int
    }
}

impl BroadcastChannel {
    /// Creates the channel: empty, open, with no readers attached.
    pub fn new() -> (c: BroadcastChannel)
        ensures
            c@ == (ChannelModel { buffer: Seq::<EventModel>::empty(), head: 0, readers: 0, closed: false }),
            c@.wf(),
    {
        let c = BroadcastChannel { buffer: Vec::new(), head: 0, readers: 0, closed: false };
        proof {
            assert(c@.buffer =~= Seq::<EventModel>::empty());
            assert(c@ =~= (ChannelModel {
                buffer: Seq::<EventModel>::empty(),
                head: 0,
                readers: 0,
                closed: false,
            }));
        }
        c
    }

    /// Publishes one event. Non-blocking and never an error: with readers
    /// attached the event becomes the newest ring entry (evicting the oldest
    /// when full); with none it is dropped, and the outcome still reports
    /// success to the publisher.
    pub fn publish(&mut self, ev: Event) -> (r: PublishOutcome)
        requires
            old(self)@.wf(),
            !old(self)@.closed,
            old(self)@.next() < u64::MAX,
        ensures
            final(self)@ == publish_model(old(self)@, ev@).0,
            r == publish_model(old(self)@, ev@).1,
            final(self)@.wf(),
    {
        if self.readers == 0 {
            return PublishOutcome::Dropped;
        }
        if self.buffer.len() == CAPACITY {
            self.buffer.remove(0);
            self.head = self.head + 1;
            self.buffer.push(ev);
            proof {
                assert(self@.buffer =~= old(self)@.buffer.skip(1).push(self.buffer@.last()@));
                assert(self@ =~= publish_model(old(self)@, self.buffer@.last()@).0);
            }
        } else {
            self.buffer.push(ev);
            proof {
                assert(self@.buffer =~= old(self)@.buffer.push(self.buffer@.last()@));
                assert(self@ =~= publish_model(old(self)@, self.buffer@.last()@).0);
            }
        }
        PublishOutcome::Delivered
    }

    /// Attaches a new reader cursor positioned at "now": it receives only
    /// events published after this call, with no backfill of history. The
    /// very first subscriber succeeds identically to the hundredth.
    pub fn subscribe(&mut self) -> (cur: Cursor)
        requires
            old(self)@.wf(),
            old(self)@.readers < u64::MAX,
        ensures
            final(self)@ == (ChannelModel { readers: old(self)@.readers + 1, ..old(self)@ }),
            final(self)@.wf(),
            cur@ == old(self)@.next(),
    {
        self.readers = self.readers + 1;
        let pos = self.head + self.buffer.len() as u64;
        proof {
            assert(self@ =~= (ChannelModel { readers: old(self)@.readers + 1, ..old(self)@ }));
        }
        Cursor { pos }
    }

    /// Detaches a reader cursor when its session ends.
    pub fn release(&mut self, cursor: Cursor)
        requires
            old(self)@.wf(),
            old(self)@.readers >= 1,
        ensures
            final(self)@ == (ChannelModel { readers: old(self)@.readers - 1, ..old(self)@ }),
            final(self)@.wf(),
    {
        let _ = cursor;
        self.readers = self.readers - 1;
        proof {
            assert(self@ =~= (ChannelModel { readers: old(self)@.readers - 1, ..old(self)@ }));
        }
    }

    /// How many events the ring currently retains. Never more than
    /// [`CAPACITY`], however many were published.
    pub fn retained(&self) -> (n: usize)
        ensures
            n == self@.buffer.len(),
    {
        self.buffer.len()
    }

    /// How many reader cursors are attached.
    pub fn reader_count(&self) -> (n: u64)
        ensures
            n == self@.readers,
    {
        self.readers
    }

    /// Whether the channel has been shut down.
    pub fn is_closed(&self) -> (b: bool)
        ensures
            b == self@.closed,
    {
        self.closed
    }

    /// Shuts the channel down permanently: every cursor that catches up from
    /// now on sees the terminal `Closed` signal.
    pub fn close(&mut self)
        requires
            old(self)@.wf(),
        ensures
            final(self)@ == (ChannelModel { closed: true, ..old(self)@ }),
            final(self)@.wf(),
    {
        self.closed = true;
        proof {
            assert(self@ =~= (ChannelModel { closed: true, ..old(self)@ }));
        }
    }
}

impl Cursor {
    /// One receive step against the channel. Returns the next event when one
    /// is available; an overflow report (skipped count) when this cursor fell
    /// behind the ring, repositioning the cursor without closing it; `Closed`
    /// once the cursor has caught up on a shut-down channel; else `Pending`,
    /// meaning the caller should wait for a publish and try again.
    pub fn receive(&mut self, ch: &BroadcastChannel) -> (r: RecvOutcome)
        requires
            ch@.wf(),
            old(self)@ <= ch@.next(),
        ensures
            r@ == receive_model(ch@, old(self)@).0,
            final(self)@ == receive_model(ch@, old(self)@).1,
            final(self)@ <= ch@.next(),
    {
        if self.pos < ch.head {
            let n = ch.head - self.pos;
            self.pos = ch.head;
            RecvOutcome::Overflowed(n)
        } else if self.pos - ch.head < ch.buffer.len() as u64 {
            let i = (self.pos - ch.head) as usize;
            let ev = (&ch.buffer[i]).clone();
            self.pos = self.pos + 1;
            RecvOutcome::Received(ev)
        } else if ch.closed {
            RecvOutcome::Closed
        } else {
            RecvOutcome::Pending
        }
    }
}

} // verus!
