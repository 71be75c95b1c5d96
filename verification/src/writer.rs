//! The single consumer of the queue: it turns every entry into a record for
//! the index and commits once, when the producers are done and nothing waits.

use crate::entry::{record_of, Record, RecordView};
use crate::queue::{EntryQueue, QueueView};
use vstd::prelude::*;

verus! {

/// Where the writer stands.
#[derive(Debug, Clone, Copy, PartialEq, Eq, Structural)]
pub enum WriterState {
    /// Entries are still taken and submitted.
    Receiving,
    /// The one commit was issued.
    Committed,
    /// A record could not be inserted: the build is lost.
    Failed,
}

/// What the writer asks of the index engine next.
#[derive(Debug, Clone, PartialEq, Eq)]
pub enum WriterStep {
    /// Insert this record.
    Submit(Record),
    /// Nothing waits, but producers are still at work: ask again later.
    Wait,
    /// Everything was submitted: commit.
    Commit,
    /// The writer is done.
    Stop,
}

/// The mathematical value of a [`WriterStep`].
pub enum StepView {
    Submit(RecordView),
    Wait,
    Commit,
    Stop,
}

impl View for WriterStep {
    type V = StepView;

    open spec fn view(&self) -> StepView {
        match self {
            WriterStep::Submit(doc) => StepView::Submit(doc@),
            WriterStep::Wait => StepView::Wait,
            WriterStep::Commit => StepView::Commit,
            WriterStep::Stop => StepView::Stop,
        }
    }
}

/// What the writer asks for in `state`, facing `queue`. While it receives,
/// it submits the oldest waiting entry as its record; with nothing
/// waiting it commits if the queue was closed, and waits if it was not.
/// After the commit, or after a failure, it only stops.
pub open spec fn step_of(state: WriterState, queue: QueueView) -> StepView {
    if state != WriterState::Receiving {
        StepView::Stop
    } else if queue.pending.len() > 0 {
        StepView::Submit(record_of(queue.pending[0]))
    } else if queue.closed {
        StepView::Commit
    } else {
        StepView::Wait
    }
}

/// Where the writer stands after it asked for `step`.
pub open spec fn state_after(state: WriterState, step: StepView) -> WriterState {
    if step is Commit {
        WriterState::Committed
    } else {
        state
    }
}

/// What is left in the queue after the writer asked for `step`.
pub open spec fn queue_after(queue: QueueView, step: StepView) -> QueueView {
    if step is Submit {
        queue.recv()
    } else {
        queue
    }
}

/// Where the writer stands after the index engine refused a document.
pub open spec fn state_after_failure(state: WriterState) -> WriterState {
    if state == WriterState::Receiving {
        WriterState::Failed
    } else {
        state
    }
}

/// The consumer side of a build.
#[derive(Debug)]
pub struct Writer {
    state: WriterState,
}

impl View for Writer {
    type V = WriterState;

    closed spec fn view(&self) -> WriterState {
        self.state
    }
}

impl Writer {
    /// A writer that has submitted nothing yet.
    pub fn new() -> (writer: Self)
        ensures
            writer@ == WriterState::Receiving,
    {
        Writer { state: WriterState::Receiving }
    }

    /// Where the writer stands.
    pub fn state(&self) -> (state: WriterState)
        ensures
            state == self@,
    {
        self.state
    }

    /// Decides what to do next, and takes the entry to submit out of the
    /// queue.
    pub fn next(&mut self, queue: &mut EntryQueue) -> (step: WriterStep)
        ensures
            step@ == step_of(old(self)@, old(queue)@),
            final(self)@ == state_after(old(self)@, step@),
            final(queue)@ == queue_after(old(queue)@, step@),
    {
        match self.state {
            WriterState::Receiving => {
                let drained = queue.is_drained();
                match queue.try_recv() {
                    Some(entry) => WriterStep::Submit(entry.into_record()),
                    None => {
                        if drained {
                            self.state = WriterState::Committed;
                            WriterStep::Commit
                        } else {
                            WriterStep::Wait
                        }
                    },
                }
            },
            _ => WriterStep::Stop,
        }
    }

    /// Takes note that the index engine refused a record. The build is lost:
    /// from now on the writer only stops, and it never commits.
    pub fn insert_failed(&mut self)
        ensures
            final(self)@ == state_after_failure(old(self)@),
    {
        match self.state {
            WriterState::Receiving => {
                self.state = WriterState::Failed;
            },
            _ => {},
        }
    }
}

/// The writer commits exactly when it still receives and finds the queue
/// closed and empty.
pub proof fn lemma_commit_when_drained(state: WriterState, queue: QueueView)
    ensures
        step_of(state, queue) is Commit <==> state == WriterState::Receiving && queue.drained(),
{
}

/// After a failed insert the writer neither submits nor commits, whatever
/// it finds in the queue.
pub proof fn lemma_failure_is_final(state: WriterState, queue: QueueView)
    ensures
        step_of(state_after_failure(state), queue) is Stop,
{
}

} // verus!
