//! The bounded hand-off between the extracting workers and the single writer.
//!
//! The queue is the only flow control of a build: it is opened with room for as
//! many entries as there are workers, and a worker whose entry is refused has to
//! wait until the writer has taken one out.

use crate::entry::{Entry, EntryView};
use std::collections::VecDeque;
use vstd::prelude::*;

verus! {

/// The mathematical value of an [`EntryQueue`].
pub struct QueueView {
    /// How many entries the queue may hold.
    pub capacity: nat,
    /// The entries that wait for the writer, oldest first.
    pub pending: Seq<EntryView>,
    /// Whether every producer has finished.
    pub closed: bool,
}

/// One step in the life of a queue.
pub enum QueueOp {
    /// A worker offers an entry.
    Send(EntryView),
    /// The writer asks for the oldest entry.
    Recv,
    /// The last producer has finished.
    Close,
}

impl QueueView {
    /// A fresh queue: open, empty, with the given capacity.
    pub open spec fn opened(capacity: nat) -> QueueView {
        QueueView { capacity, pending: Seq::empty(), closed: false }
    }

    /// The queue holds no more than its capacity.
    pub open spec fn bounded(self) -> bool {
        self.pending.len() <= self.capacity
    }

    /// There is no room for another entry.
    pub open spec fn full(self) -> bool {
        self.pending.len() >= self.capacity
    }

    /// An entry offered now is taken.
    pub open spec fn accepts(self) -> bool {
        !self.closed && !self.full()
    }

    /// Every producer has finished and nothing waits: the writer may commit.
    pub open spec fn drained(self) -> bool {
        self.closed && self.pending.len() == 0
    }

    /// The queue after `entry` was offered: appended where the queue accepts,
    /// the queue as it was otherwise.
    pub open spec fn send(self, entry: EntryView) -> QueueView {
        if self.accepts() {
            QueueView { pending: self.pending.push(entry), ..self }
        } else {
            self
        }
    }

    /// The queue after the writer asked for an entry.
    pub open spec fn recv(self) -> QueueView {
        if self.pending.len() > 0 {
            QueueView { pending: self.pending.drop_first(), ..self }
        } else {
            self
        }
    }

    /// The queue after the last producer finished.
    pub open spec fn close(self) -> QueueView {
        QueueView { closed: true, ..self }
    }

    /// The queue after one step.
    pub open spec fn apply(self, op: QueueOp) -> QueueView {
        match op {
            QueueOp::Send(entry) => self.send(entry),
            QueueOp::Recv => self.recv(),
            QueueOp::Close => self.close(),
        }
    }

    /// The queue after the steps `ops`, in order.
    pub open spec fn run(self, ops: Seq<QueueOp>) -> QueueView
        decreases ops.len(),
    {
        if ops.len() == 0 {
            self
        } else {
            self.run(ops.drop_last()).apply(ops.last())
        }
    }
}

/// Why an entry was not taken; the entry comes back with the refusal.
#[derive(Debug)]
pub enum Refused {
    /// The queue holds as many entries as it may: the worker has to wait.
    Full(Entry),
    /// The queue was closed: nothing is taken any more.
    Closed(Entry),
}

/// A first-in, first-out queue of entries with a fixed capacity.
#[derive(Debug)]
pub struct EntryQueue {
    capacity: usize,
    pending: VecDeque<Entry>,
    closed: bool,
}

impl View for EntryQueue {
    type V = QueueView;

    closed spec fn view(&self) -> QueueView {
        QueueView {
            capacity: self.capacity as nat,
            pending: self.pending@.map_values(|e: Entry| e@),
            closed: self.closed,
        }
    }
}

impl EntryQueue {
    #[verifier::type_invariant]
    spec fn within_capacity(self) -> bool {
        self.pending@.len() <= self.capacity
    }

    /// Opens the queue of a build with `workers` extracting workers: it has
    /// room for one entry of each.
    pub fn new(workers: usize) -> (queue: Self)
        ensures
            queue@ == QueueView::opened(workers as nat),
    {
        let queue = EntryQueue { capacity: workers, pending: VecDeque::new(), closed: false };
        assert(queue@.pending =~= Seq::empty());
        queue
    }

    /// How many entries the queue may hold.
    pub fn capacity(&self) -> (n: usize)
        ensures
            n == self@.capacity,
    {
        self.capacity
    }

    /// How many entries wait for the writer: never more than the capacity.
    pub fn len(&self) -> (n: usize)
        ensures
            n == self@.pending.len(),
            self@.bounded(),
    {
        proof {
            use_type_invariant(self);
        }
        self.pending.len()
    }

    /// Whether nothing waits for the writer.
    pub fn is_empty(&self) -> (b: bool)
        ensures
            b == (self@.pending.len() == 0),
    {
        self.pending.len() == 0
    }

    /// Whether the queue holds as many entries as it may.
    pub fn is_full(&self) -> (b: bool)
        ensures
            b == self@.full(),
    {
        self.pending.len() >= self.capacity
    }

    /// Whether the queue was closed.
    pub fn is_closed(&self) -> (b: bool)
        ensures
            b == self@.closed,
    {
        self.closed
    }

    /// Whether the queue was closed and is empty.
    pub fn is_drained(&self) -> (b: bool)
        ensures
            b == self@.drained(),
    {
        self.closed && self.pending.len() == 0
    }

    /// Offers `entry` to the queue. A closed or full queue refuses it, hands it
    /// back and stays as it was; otherwise the entry is appended.
    pub fn try_send(&mut self, entry: Entry) -> (sent: Result<(), Refused>)
        ensures
            final(self)@ == old(self)@.send(entry@),
            final(self)@.bounded(),
            match sent {
                Ok(_) => old(self)@.accepts(),
                Err(Refused::Closed(back)) => old(self)@.closed && back == entry,
                Err(Refused::Full(back)) => !old(self)@.closed && old(self)@.full() && back
                    == entry,
            },
    {
        proof {
            use_type_invariant(&*self);
        }
        if self.closed {
            Err(Refused::Closed(entry))
        } else if self.pending.len() >= self.capacity {
            Err(Refused::Full(entry))
        } else {
            // The deque is taken out while it grows, so that the queue itself
            // is within its capacity at every moment.
            let mut pending = VecDeque::new();
            core::mem::swap(&mut self.pending, &mut pending);
            pending.push_back(entry);
            self.pending = pending;
            assert(self@.pending =~= old(self)@.pending.push(entry@));
            Ok(())
        }
    }

    /// Takes the oldest waiting entry out of the queue, if there is one.
    pub fn try_recv(&mut self) -> (taken: Option<Entry>)
        ensures
            final(self)@ == old(self)@.recv(),
            final(self)@.bounded(),
            match taken {
                Some(entry) => old(self)@.pending.len() > 0 && entry@ == old(self)@.pending[0],
                None => old(self)@.pending.len() == 0,
            },
    {
        proof {
            use_type_invariant(&*self);
        }
        let mut pending = VecDeque::new();
        core::mem::swap(&mut self.pending, &mut pending);
        let taken = pending.pop_front();
        self.pending = pending;
        assert(self@.pending =~= old(self)@.recv().pending);
        taken
    }

    /// Records that every producer has finished. What waits stays in the queue.
    pub fn close(&mut self)
        ensures
            final(self)@ == old(self)@.close(),
            final(self)@.bounded(),
    {
        proof {
            use_type_invariant(&*self);
        }
        self.closed = true;
    }
}

/// A step keeps a queue within its capacity, and keeps the capacity.
pub proof fn lemma_step_bounded(queue: QueueView, op: QueueOp)
    requires
        queue.bounded(),
    ensures
        queue.apply(op).bounded(),
        queue.apply(op).capacity == queue.capacity,
{
}

/// Backpressure: whatever is offered, taken out or closed, and in whatever
/// order, a queue opened with room for `capacity` entries never holds more
/// than `capacity` of them.
pub proof fn lemma_never_over_capacity(capacity: nat, ops: Seq<QueueOp>)
    ensures
        QueueView::opened(capacity).run(ops).capacity == capacity,
        QueueView::opened(capacity).run(ops).pending.len() <= capacity,
    decreases ops.len(),
{
    if ops.len() > 0 {
        lemma_never_over_capacity(capacity, ops.drop_last());
        lemma_step_bounded(QueueView::opened(capacity).run(ops.drop_last()), ops.last());
    }
}

/// A full queue grows by no offer: the entry is refused and the queue is as it was.
pub proof fn lemma_full_queue_refuses(queue: QueueView, entry: EntryView)
    requires
        queue.full(),
    ensures
        queue.send(entry) == queue,
{
}

} // verus!
