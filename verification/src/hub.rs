//! The display hub: a single-producer, multi-consumer fan-out of
//! normalized frames with a bounded backlog.
//!
//! The hub keeps a ring of the 16 most recently published frames and one
//! receive cursor per subscriber.  Publishing appends to the history and
//! drops the oldest retained frame once the ring is full; it never waits
//! for any subscriber.  A subscriber whose cursor has fallen out of the
//! ring is told how many frames it lost and resumes at the oldest retained
//! frame, in publish order.

use vstd::prelude::*;

use crate::pixel::{FrameModel, NormalizedFrame};

verus! {

/// How many frames the ring retains.
pub open spec fn hub_capacity() -> int {
    16
}

/// The fan-out hub.
pub struct DisplayHub {
    buf: Vec<NormalizedFrame>,
    head: u64,
    cursors: Vec<u64>,
    history: Ghost<Seq<FrameModel>>,
}

/// What a subscriber's receive returned.
pub enum RecvResult {
    /// The subscriber has seen everything published so far.
    Empty,
    /// The next frame, in publish order.
    Frame(NormalizedFrame),
    /// The subscriber lagged: this many frames fell out of the ring and are
    /// lost; the next receive resumes at the oldest retained frame.
    Lagged(u64),
}

impl DisplayHub {
    /// Every frame ever published, oldest first.
    pub closed spec fn history(&self) -> Seq<FrameModel> {
        self.history@
    }

    /// How many subscribers exist.
    pub closed spec fn num_subscribers(&self) -> int {
        self.cursors@.len() as int
    }

    /// Subscriber `i`'s cursor: the history index of the next frame it
    /// would receive.
    pub closed spec fn cursor(&self, i: int) -> int {
        self.cursors@[i] as int
    }

    /// The history index of the oldest frame still in the ring.
    pub closed spec fn oldest_retained(&self) -> int {
        self.history@.len() - self.buf@.len()
    }

    /// The hub's internal invariant: the ring holds the most recent
    /// `min(published, 16)` frames, they match the history, every frame is
    /// well-formed, and every cursor points into the history or just past
    /// its end.
    pub closed spec fn wf(&self) -> bool {
        &&& self.head == self.history@.len()
        &&& self.buf@.len() == if self.head < 16 {
            self.head as int
        } else {
            16int
        }
        &&& forall|i: int|
            0 <= i < self.buf@.len() ==> (#[trigger] self.buf@[i])@ == self.history@[self.history@.len()
                - self.buf@.len() + i] && self.buf@[i].wf()
        &&& forall|i: int| 0 <= i < self.cursors@.len() ==> #[trigger] self.cursors@[i] <= self.head
    }

    /// Creates an empty hub with no subscribers.
    pub fn new() -> (h: DisplayHub)
        ensures
            h.wf(),
            h.history() == Seq::<FrameModel>::empty(),
            h.num_subscribers() == 0,
    {
        let h = DisplayHub {
            buf: Vec::new(),
            head: 0,
            cursors: Vec::new(),
            history: Ghost(Seq::empty()),
        };
        h
    }

    /// Publishes a frame.  The publish depends only on the producer's own
    /// state: no subscriber, however far behind, can delay or refuse it.
    /// Every cursor is left untouched; once the ring is full the oldest
    /// retained frame is dropped.
    pub fn publish(&mut self, frame: NormalizedFrame)
        requires
            old(self).wf(),
            frame.wf(),
            old(self).history().len() < u64::MAX,
        ensures
            final(self).wf(),
            final(self).history() == old(self).history().push(frame@),
            final(self).num_subscribers() == old(self).num_subscribers(),
            forall|i: int|
                0 <= i < old(self).num_subscribers() ==> final(self).cursor(i) == old(self).cursor(
                    i,
                ),
    {
        if self.buf.len() >= 16 {
            self.buf.remove(0);
        }
        self.buf.push(frame);
        self.head = self.head + 1;
        proof {
            self.history@ = self.history@.push(frame@);
        }
    }

    /// Adds a subscriber.  Its cursor starts at the head of the history,
    /// so it has missed nothing at the moment it subscribes.
    pub fn subscribe(&mut self) -> (id: usize)
        requires
            old(self).wf(),
        ensures
            final(self).wf(),
            final(self).history() == old(self).history(),
            final(self).num_subscribers() == old(self).num_subscribers() + 1,
            id == old(self).num_subscribers(),
            final(self).cursor(id as int) == old(self).history().len(),
            forall|i: int|
                0 <= i < old(self).num_subscribers() ==> final(self).cursor(i) == old(self).cursor(
                    i,
                ),
    {
        let id = self.cursors.len();
        self.cursors.push(self.head);
        id
    }

    /// Receives the next frame for subscriber `id`.  Frames arrive in
    /// publish order; a cursor that fell out of the ring is moved forward
    /// to the oldest retained frame and the loss is reported.  Receiving
    /// never changes the history or any other subscriber's cursor.
    pub fn recv(&mut self, id: usize) -> (r: RecvResult)
        requires
            old(self).wf(),
            id < old(self).num_subscribers(),
        ensures
            final(self).wf(),
            final(self).history() == old(self).history(),
            final(self).num_subscribers() == old(self).num_subscribers(),
            forall|i: int|
                0 <= i < old(self).num_subscribers() && i != id
                    ==> final(self).cursor(i) == old(self).cursor(i),
            old(self).cursor(id as int) == old(self).history().len()
                ==> r is Empty && final(self).cursor(id as int) == old(self).cursor(id as int),
            old(self).oldest_retained() <= old(self).cursor(id as int)
                < old(self).history().len() ==> {
                &&& (r matches RecvResult::Frame(f)
                    ==> f@ == old(self).history()[old(self).cursor(id as int)] && f.wf())
                &&& r is Frame
                &&& final(self).cursor(id as int) == old(self).cursor(id as int) + 1
            },
            old(self).cursor(id as int) < old(self).oldest_retained() ==> {
                &&& (r matches RecvResult::Lagged(n)
                    ==> n == old(self).oldest_retained() - old(self).cursor(id as int))
                &&& r is Lagged
                &&& final(self).cursor(id as int) == old(self).oldest_retained()
            },
    {
        let c = self.cursors[id];
        if c == self.head {
            RecvResult::Empty
        } else {
            let oldest = self.head - (self.buf.len() as u64);
            if c >= oldest {
                let idx = (c - oldest) as usize;
                let f = self.buf[idx].duplicate();
                self.cursors.set(id, c + 1);
                RecvResult::Frame(f)
            } else {
                self.cursors.set(id, oldest);
                RecvResult::Lagged(oldest - c)
            }
        }
    }

    /// The most recently published frame, without consuming from any
    /// subscription; `None` only before the first publish.
    pub fn snapshot(&self) -> (r: Option<&NormalizedFrame>)
        requires
            self.wf(),
        ensures
            r is Some <==> self.history().len() > 0,
            r matches Some(f) ==> f@ == self.history().last() && f.wf(),
    {
        if self.buf.len() == 0 {
            None
        } else {
            Some(&self.buf[self.buf.len() - 1])
        }
    }

    /// The backlog is bounded and a laggard's loss is exactly the frames
    /// that fell out of the ring: in every well-formed hub the ring spans
    /// at most 16 frames back from the head, and every subscriber's cursor
    /// sits between zero and the head, so the producer's history never
    /// waits on a reader.
    pub proof fn lemma_bounded_backlog(&self, i: int)
        requires
            self.wf(),
            0 <= i < self.num_subscribers(),
        ensures
            0 <= self.oldest_retained(),
            self.history().len() - self.oldest_retained() <= hub_capacity(),
            0 <= self.cursor(i) <= self.history().len(),
    {
    }
}

} // verus!
