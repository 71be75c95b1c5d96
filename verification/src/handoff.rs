//! The hand-off of a build as a whole: workers offer entries to the queue,
//! the writer takes them out and submits them, and at the end it commits.
//!
//! The workers and the writer run side by side, so what happens to the
//! hand-off is a sequence of events in no fixed order. What is proved here
//! holds of every such sequence.

use crate::entry::{record_of, EntryView, RecordView};
use crate::queue::QueueView;
use crate::writer::{
    queue_after, state_after, state_after_failure, step_of, StepView, WriterState,
};
use vstd::prelude::*;

verus! {

/// Something that happens to the hand-off of a build.
pub enum BuildEvent {
    /// A worker offers an entry to the queue.
    Offer(EntryView),
    /// The last worker has finished: the queue is closed.
    Finish,
    /// The writer is asked what to do next, and does it.
    Turn,
    /// The index engine refused the record that the writer submitted last.
    InsertFailed,
}

/// The hand-off of a build, with a record of what went through it.
pub struct Build {
    /// The queue between the workers and the writer.
    pub queue: QueueView,
    /// Where the writer stands.
    pub writer: WriterState,
    /// The entries that the queue has taken, in the order it took them.
    pub taken: Seq<EntryView>,
    /// The records that the writer has submitted, in order.
    pub submitted: Seq<RecordView>,
    /// How many commits the writer has issued.
    pub commits: nat,
}

/// The records of a list of entries.
pub open spec fn records_of(entries: Seq<EntryView>) -> Seq<RecordView> {
    entries.map_values(|e: EntryView| record_of(e))
}

impl Build {
    /// A build as it begins, with `workers` workers.
    pub open spec fn begun(workers: nat) -> Build {
        Build {
            queue: QueueView::opened(workers),
            writer: WriterState::Receiving,
            taken: Seq::empty(),
            submitted: Seq::empty(),
            commits: 0,
        }
    }

    /// The build after `event`.
    pub open spec fn after(self, event: BuildEvent) -> Build {
        match event {
            BuildEvent::Offer(entry) => Build {
                queue: self.queue.send(entry),
                taken: if self.queue.accepts() {
                    self.taken.push(entry)
                } else {
                    self.taken
                },
                ..self
            },
            BuildEvent::Finish => Build { queue: self.queue.close(), ..self },
            BuildEvent::Turn => {
                let step = step_of(self.writer, self.queue);
                Build {
                    queue: queue_after(self.queue, step),
                    writer: state_after(self.writer, step),
                    submitted: match step {
                        StepView::Submit(doc) => self.submitted.push(doc),
                        _ => self.submitted,
                    },
                    commits: if step is Commit {
                        self.commits + 1
                    } else {
                        self.commits
                    },
                    ..self
                }
            },
            BuildEvent::InsertFailed => Build {
                writer: state_after_failure(self.writer),
                ..self
            },
        }
    }

    /// The build after `events`, in order.
    pub open spec fn run(self, events: Seq<BuildEvent>) -> Build
        decreases events.len(),
    {
        if events.len() == 0 {
            self
        } else {
            self.run(events.drop_last()).after(events.last())
        }
    }

    /// What holds of a build at every moment: the queue is within its
    /// capacity; what was taken is what was submitted followed by what still
    /// waits; and the writer has committed once if it stands at
    /// [`WriterState::Committed`], where nothing waits any more, and never
    /// otherwise.
    pub open spec fn consistent(self) -> bool {
        &&& self.queue.bounded()
        &&& records_of(self.taken) == self.submitted + records_of(self.queue.pending)
        &&& self.writer == WriterState::Committed ==> self.commits == 1 && self.queue.drained()
        &&& self.writer != WriterState::Committed ==> self.commits == 0
    }
}

/// An event keeps a build consistent, and keeps the capacity of its queue.
pub proof fn lemma_event_keeps_consistent(build: Build, event: BuildEvent)
    requires
        build.consistent(),
    ensures
        build.after(event).consistent(),
        build.after(event).queue.capacity == build.queue.capacity,
{
    let next = build.after(event);
    match event {
        BuildEvent::Offer(entry) => {
            if build.queue.accepts() {
                assert(records_of(next.taken) =~= records_of(build.taken).push(
                    record_of(entry),
                ));
                assert(records_of(next.queue.pending) =~= records_of(
                    build.queue.pending,
                ).push(record_of(entry)));
                assert(next.submitted + records_of(next.queue.pending) =~= (build.submitted
                    + records_of(build.queue.pending)).push(record_of(entry)));
            }
        },
        BuildEvent::Turn => {
            if step_of(build.writer, build.queue) is Submit {
                let first = record_of(build.queue.pending[0]);
                assert(records_of(build.queue.pending) =~= seq![first] + records_of(
                    next.queue.pending,
                ));
                assert(next.submitted + records_of(next.queue.pending) =~= build.submitted
                    + records_of(build.queue.pending));
            }
        },
        _ => {},
    }
}

/// A build is consistent from its beginning on, whatever happens to it, and
/// its queue keeps the capacity it was opened with.
pub proof fn lemma_build_consistent(workers: nat, events: Seq<BuildEvent>)
    ensures
        Build::begun(workers).run(events).consistent(),
        Build::begun(workers).run(events).queue.capacity == workers,
    decreases events.len(),
{
    if events.len() == 0 {
        let build = Build::begun(workers);
        assert(records_of(build.taken) =~= build.submitted + records_of(build.queue.pending));
    } else {
        lemma_build_consistent(workers, events.drop_last());
        lemma_event_keeps_consistent(Build::begun(workers).run(events.drop_last()), events.last());
    }
}

/// Nothing is lost on the way into the index and nothing goes in twice: once
/// the writer has committed, it has committed exactly once, nothing waits in
/// the queue, and the records it submitted are those of the entries that
/// the queue took, one for each and in the same order. Short of the commit,
/// there has been none.
pub proof fn lemma_committed_build_is_complete(workers: nat, events: Seq<BuildEvent>)
    ensures
        ({
            let build = Build::begun(workers).run(events);
            if build.writer == WriterState::Committed {
                &&& build.commits == 1
                &&& build.queue.pending.len() == 0
                &&& build.submitted == records_of(build.taken)
            } else {
                build.commits == 0
            }
        }),
{
    lemma_build_consistent(workers, events);
    let build = Build::begun(workers).run(events);
    if build.writer == WriterState::Committed {
        assert(records_of(build.queue.pending) =~= Seq::<RecordView>::empty());
        assert(build.submitted + Seq::<RecordView>::empty() =~= build.submitted);
    }
}

/// A build in which an insert failed is never committed afterwards.
pub proof fn lemma_failed_build_is_not_committed(build: Build, events: Seq<BuildEvent>)
    requires
        build.writer == WriterState::Failed,
    ensures
        build.run(events).writer == WriterState::Failed,
        build.run(events).commits == build.commits,
        build.run(events).submitted == build.submitted,
    decreases events.len(),
{
    if events.len() > 0 {
        lemma_failed_build_is_not_committed(build, events.drop_last());
    }
}

} // verus!
