//! What a build does with each thing the directory walker comes upon.
//!
//! A read error stays with the entry it befell: it is reported, the entry is
//! skipped, and the walk goes on. Only where the root of the walk itself
//! cannot be read is there nothing left to walk, and the traversal ends.

use vstd::prelude::*;
use vstd::string::StringExecFns;

verus! {

/// What the walker came upon.
#[derive(Debug, Clone, PartialEq, Eq)]
pub enum Found {
    /// A regular file, with its path.
    File(String),
    /// A directory, or anything else that is no regular file.
    Other,
    /// Something that could not be read. `depth` says how far below the root
    /// of the walk it lies, 0 being the root itself, where that is known;
    /// `cause` says what went wrong.
    Unreadable { depth: Option<usize>, cause: String },
}

/// What to do about it.
#[derive(Debug, Clone, PartialEq, Eq)]
pub enum Visit {
    /// Digest the file at this path, then walk on.
    Digest(String),
    /// Nothing to index here: walk on.
    Pass,
    /// Report this message, leave the entry out, and walk on.
    Report(String),
    /// Report this message and stop the traversal. Files found earlier are
    /// still processed.
    Quit(String),
}

/// The mathematical value of a [`Found`].
pub enum FoundView {
    File(Seq<char>),
    Other,
    Unreadable { depth: Option<usize>, cause: Seq<char> },
}

/// The mathematical value of a [`Visit`].
pub enum VisitView {
    Digest(Seq<char>),
    Pass,
    Report(Seq<char>),
    Quit(Seq<char>),
}

impl View for Found {
    type V = FoundView;

    open spec fn view(&self) -> FoundView {
        match self {
            Found::File(path) => FoundView::File(path@),
            Found::Other => FoundView::Other,
            Found::Unreadable { depth, cause } => FoundView::Unreadable {
                depth: *depth,
                cause: cause@,
            },
        }
    }
}

impl View for Visit {
    type V = VisitView;

    open spec fn view(&self) -> VisitView {
        match self {
            Visit::Digest(path) => VisitView::Digest(path@),
            Visit::Pass => VisitView::Pass,
            Visit::Report(message) => VisitView::Report(message@),
            Visit::Quit(message) => VisitView::Quit(message@),
        }
    }
}

/// Whether a read error at this depth is fatal to the traversal: it is
/// where it befell the root of the walk.
pub open spec fn is_fatal(depth: Option<usize>) -> bool {
    depth == Some(0usize)
}

/// The message for something that could not be read.
pub open spec fn message_of(cause: Seq<char>) -> Seq<char> {
    "failed to read: "@ + cause
}

/// Regular files are digested and everything else that can be read is
/// walked past. What cannot be read is reported with its cause; the walk
/// ends if that is the root, and goes on without the entry if it is not.
pub open spec fn visit_of(found: FoundView) -> VisitView {
    match found {
        FoundView::File(path) => VisitView::Digest(path),
        FoundView::Other => VisitView::Pass,
        FoundView::Unreadable { depth, cause } => if is_fatal(depth) {
            VisitView::Quit(message_of(cause))
        } else {
            VisitView::Report(message_of(cause))
        },
    }
}

/// Decides what to do about what the walker came upon.
pub fn visit(found: Found) -> (decision: Visit)
    ensures
        decision@ == visit_of(found@),
{
    match found {
        Found::File(path) => Visit::Digest(path),
        Found::Other => Visit::Pass,
        Found::Unreadable { depth, cause } => {
            let message = String::from_str("failed to read: ").concat(cause.as_str());
            match depth {
                Some(0) => Visit::Quit(message),
                _ => Visit::Report(message),
            }
        },
    }
}

impl Visit {
    /// Whether the traversal goes on after this decision.
    pub fn walks_on(&self) -> (on: bool)
        ensures
            on == !(self@ is Quit),
    {
        match self {
            Visit::Quit(_) => false,
            _ => true,
        }
    }
}

/// A read error below the root of the walk never ends the walk: it is
/// reported, with its cause, and the walk goes on. The same holds where the
/// depth of the error is not known.
pub proof fn lemma_entry_error_is_skipped(depth: Option<usize>, cause: Seq<char>)
    requires
        depth != Some(0usize),
    ensures
        visit_of(FoundView::Unreadable { depth, cause }) == VisitView::Report(message_of(cause)),
{
}

/// The walk ends on nothing but a read error at its root.
pub proof fn lemma_only_the_root_ends_the_walk(found: FoundView)
    ensures
        visit_of(found) is Quit <==> (found matches FoundView::Unreadable { depth, .. }
            && is_fatal(depth)),
{
}

} // verus!
