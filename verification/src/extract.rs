//! Digesting one file into an entry.
//!
//! How a file is handled goes by its kind. Reading files and running the
//! converter for PDFs is left to the caller: an [`Extraction`] names the next
//! [`Task`], the caller carries it out and [`Report`]s back, until the
//! extraction is finished and holds its outcome. A PDF is converted into a
//! scratch file, and no extraction that started a conversion finishes before
//! it has asked for that file to be removed.

use crate::entry::{text_of, Entry, EntryView};
use crate::kind::{file_kind, kind_of, FileKind};
use crate::path::{filename, names_file, stem_of};
use vstd::prelude::*;

pub mod laws;

verus! {

/// What went wrong with a file.
#[derive(Debug, Clone, Copy, PartialEq, Eq, Structural)]
pub enum Failure {
    /// The path names no file, so there is nothing to title the entry with.
    NoFileName,
    /// The file, or what the converter wrote, could not be read.
    Unreadable,
    /// The converter could not be run, or it ran and exited with failure.
    ConversionFailed,
    /// The property list could not be parsed, or names no URL.
    Malformed,
    /// The scratch file could not be removed.
    CleanupFailed,
}

/// Why a file was not digested. The file is skipped; the build goes on.
#[derive(Debug, Clone, PartialEq, Eq)]
pub struct ExtractError {
    pub kind: Failure,
    /// What went wrong, in words, for the log.
    pub cause: String,
}

/// What the caller is asked to do next.
#[derive(Debug, Clone, PartialEq, Eq)]
pub enum Task {
    /// Read the whole file at `path` as text, and report the text.
    Read { path: String },
    /// Parse the property list at `path`, and report its name and URL.
    Parse { path: String },
    /// Run the converter on `input`, writing to the scratch file `scratch` in
    /// the directory for temporary files. The task is done only if the
    /// converter exits with success; one that cannot be started, or exits
    /// with failure, has failed.
    Convert { input: String, scratch: String },
    /// Read the scratch file as text, and report the text.
    ReadScratch { scratch: String },
    /// Remove the scratch file.
    RemoveScratch { scratch: String },
    /// Nothing: the extraction is finished.
    Finished,
}

/// How a task went.
#[derive(Debug, Clone, PartialEq, Eq)]
pub enum Report {
    /// The converter exited with success, or the scratch file was removed.
    Done,
    /// The text that was read.
    Text(String),
    /// What the property list holds.
    Webloc { name: Option<String>, url: String },
    /// The task failed; the text says how.
    Failed(String),
}

/// What an extraction comes to: an entry, nothing to index, or a failure.
pub type Outcome = Result<Option<Entry>, ExtractError>;

/// The mathematical value of an [`ExtractError`].
pub struct ErrorView {
    pub kind: Failure,
    pub cause: Seq<char>,
}

/// The mathematical value of a [`Task`].
pub enum TaskView {
    Read { path: Seq<char> },
    Parse { path: Seq<char> },
    Convert { input: Seq<char>, scratch: Seq<char> },
    ReadScratch { scratch: Seq<char> },
    RemoveScratch { scratch: Seq<char> },
    Finished,
}

/// The mathematical value of a [`Report`].
pub enum ReportView {
    Done,
    Text(Seq<char>),
    Webloc { name: Option<Seq<char>>, url: Seq<char> },
    Failed(Seq<char>),
}

/// The mathematical value of an [`Outcome`].
pub type OutcomeView = Result<Option<EntryView>, ErrorView>;

/// The mathematical value of an [`Extraction`]: what it waits for, and what
/// it needs to go on from there.
pub enum ExtractionView {
    /// Waiting for the text of the file at `path`.
    Reading { path: Seq<char>, stem: Seq<char> },
    /// Waiting for the parsed property list at `path`.
    Parsing { path: Seq<char>, stem: Seq<char> },
    /// Waiting for the converter to turn the PDF at `path` into text.
    Converting { path: Seq<char>, stem: Seq<char> },
    /// Waiting for the text that the converter wrote.
    ReadingScratch { path: Seq<char>, stem: Seq<char> },
    /// Waiting for the scratch file to be removed; `then` is the outcome if
    /// that goes well.
    Removing { stem: Seq<char>, then: OutcomeView },
    /// Waiting for nothing: the outcome stands.
    Finished { outcome: OutcomeView },
}

impl View for ExtractError {
    type V = ErrorView;

    open spec fn view(&self) -> ErrorView {
        ErrorView { kind: self.kind, cause: self.cause@ }
    }
}

impl View for Task {
    type V = TaskView;

    open spec fn view(&self) -> TaskView {
        match self {
            Task::Read { path } => TaskView::Read { path: path@ },
            Task::Parse { path } => TaskView::Parse { path: path@ },
            Task::Convert { input, scratch } => TaskView::Convert {
                input: input@,
                scratch: scratch@,
            },
            Task::ReadScratch { scratch } => TaskView::ReadScratch { scratch: scratch@ },
            Task::RemoveScratch { scratch } => TaskView::RemoveScratch { scratch: scratch@ },
            Task::Finished => TaskView::Finished,
        }
    }
}

impl View for Report {
    type V = ReportView;

    open spec fn view(&self) -> ReportView {
        match self {
            Report::Done => ReportView::Done,
            Report::Text(text) => ReportView::Text(text@),
            Report::Webloc { name, url } => ReportView::Webloc { name: text_of(*name), url: url@ },
            Report::Failed(cause) => ReportView::Failed(cause@),
        }
    }
}

/// The view of an outcome.
pub open spec fn outcome_view(outcome: Outcome) -> OutcomeView {
    match outcome {
        Ok(Some(entry)) => Ok(Some(entry@)),
        Ok(None) => Ok(None),
        Err(e) => Err(e@),
    }
}

/// The entry for a file without extension: known by its name alone.
pub open spec fn bare_entry(path: Seq<char>, stem: Seq<char>) -> EntryView {
    EntryView { title: stem, body: None, loc: None, archive_loc: Some(path) }
}

/// The entry for a file with text, its own or what was extracted from it.
pub open spec fn text_entry(path: Seq<char>, stem: Seq<char>, text: Seq<char>) -> EntryView {
    EntryView { title: stem, body: Some(text), loc: None, archive_loc: Some(path) }
}

/// The title of a web location: its name, or the stem where it has no name
/// or an empty one.
pub open spec fn webloc_title(stem: Seq<char>, name: Option<Seq<char>>) -> Seq<char> {
    match name {
        Some(n) => if n.len() > 0 {
            n
        } else {
            stem
        },
        None => stem,
    }
}

/// The entry for a web location: it points at the URL, and has neither text
/// nor an archived location.
pub open spec fn webloc_entry(stem: Seq<char>, name: Option<Seq<char>>, url: Seq<char>)
    -> EntryView {
    EntryView { title: webloc_title(stem, name), body: None, loc: Some(url), archive_loc: None }
}

/// The failure of a task, with what the report says of it.
pub open spec fn failure(kind: Failure, report: ReportView) -> ErrorView {
    ErrorView {
        kind,
        cause: match report {
            ReportView::Failed(cause) => cause,
            _ => "the report does not answer the task"@,
        },
    }
}

/// The failure of a path that names no file.
pub open spec fn no_file_name() -> ErrorView {
    ErrorView { kind: Failure::NoFileName, cause: "the path names no file"@ }
}

/// An extraction as it starts out. A file of an opaque kind is finished at
/// once with nothing to index, and a file without extension with its entry;
/// a file of another kind begins with the task that its kind calls for. A
/// path that names no file has no stem to go by, and fails.
pub open spec fn started(path: Seq<char>) -> ExtractionView {
    let kind = kind_of(path);
    let stem = stem_of(path);
    if kind == FileKind::Opaque {
        ExtractionView::Finished { outcome: Ok(None) }
    } else if !names_file(path) {
        ExtractionView::Finished { outcome: Err(no_file_name()) }
    } else {
        match kind {
            FileKind::Bare => ExtractionView::Finished {
                outcome: Ok(Some(bare_entry(path, stem))),
            },
            FileKind::PlainText => ExtractionView::Reading { path, stem },
            FileKind::PortableDocument => ExtractionView::Converting { path, stem },
            _ => ExtractionView::Parsing { path, stem },
        }
    }
}

/// The task that an extraction waits for.
pub open spec fn task_of(x: ExtractionView) -> TaskView {
    match x {
        ExtractionView::Reading { path, .. } => TaskView::Read { path },
        ExtractionView::Parsing { path, .. } => TaskView::Parse { path },
        ExtractionView::Converting { path, stem } => TaskView::Convert {
            input: path,
            scratch: stem,
        },
        ExtractionView::ReadingScratch { stem, .. } => TaskView::ReadScratch { scratch: stem },
        ExtractionView::Removing { stem, .. } => TaskView::RemoveScratch { scratch: stem },
        ExtractionView::Finished { .. } => TaskView::Finished,
    }
}

/// What reading the text of a file comes to.
pub open spec fn read_outcome(path: Seq<char>, stem: Seq<char>, report: ReportView)
    -> OutcomeView {
    match report {
        ReportView::Text(text) => Ok(Some(text_entry(path, stem, text))),
        _ => Err(failure(Failure::Unreadable, report)),
    }
}

/// What parsing the property list of a web location comes to.
pub open spec fn parse_outcome(stem: Seq<char>, report: ReportView) -> OutcomeView {
    match report {
        ReportView::Webloc { name, url } => Ok(Some(webloc_entry(stem, name, url))),
        _ => Err(failure(Failure::Malformed, report)),
    }
}

/// What a PDF comes to once the removal of its scratch file was reported on,
/// `then` being what it had come to before: what failed first stands; what
/// had gone well stands only if the removal went well, too.
pub open spec fn settled(then: OutcomeView, removed: ReportView) -> OutcomeView {
    if removed is Done || then is Err {
        then
    } else {
        Err(failure(Failure::CleanupFailed, removed))
    }
}

/// What the text file at `path` comes to, given how reading it went.
pub open spec fn text_outcome(path: Seq<char>, read: ReportView) -> OutcomeView {
    if names_file(path) {
        read_outcome(path, stem_of(path), read)
    } else {
        Err(no_file_name())
    }
}

/// What the web location at `path` comes to, given how parsing it went.
pub open spec fn webloc_outcome(path: Seq<char>, parsed: ReportView) -> OutcomeView {
    if names_file(path) {
        parse_outcome(stem_of(path), parsed)
    } else {
        Err(no_file_name())
    }
}

/// What the PDF at `path` comes to, given how the converter went, how
/// reading the scratch file went, which counts only where the converter
/// succeeded, and how removing the scratch file went.
pub open spec fn pdf_outcome(
    path: Seq<char>,
    converted: ReportView,
    read: ReportView,
    removed: ReportView,
) -> OutcomeView {
    if !names_file(path) {
        Err(no_file_name())
    } else if converted is Done {
        settled(read_outcome(path, stem_of(path), read), removed)
    } else {
        settled(Err(failure(Failure::ConversionFailed, converted)), removed)
    }
}

/// The extraction after its task was reported on. A report that does not
/// answer the task counts as its failure.
///
/// Text that was asked for finishes a text file with its entry. A parsed
/// property list finishes a web location with its entry. After the converter
/// ran, the scratch file is read; after that, or once the converter failed,
/// the scratch file is removed; and only then is a PDF finished: with what
/// failed first, or with its entry if nothing did and the removal went well.
pub open spec fn advanced(x: ExtractionView, report: ReportView) -> ExtractionView {
    match x {
        ExtractionView::Reading { path, stem } => ExtractionView::Finished {
            outcome: read_outcome(path, stem, report),
        },
        ExtractionView::Parsing { path, stem } => ExtractionView::Finished {
            outcome: parse_outcome(stem, report),
        },
        ExtractionView::Converting { path, stem } => match report {
            ReportView::Done => ExtractionView::ReadingScratch { path, stem },
            _ => ExtractionView::Removing {
                stem,
                then: Err(failure(Failure::ConversionFailed, report)),
            },
        },
        ExtractionView::ReadingScratch { path, stem } => ExtractionView::Removing {
            stem,
            then: read_outcome(path, stem, report),
        },
        ExtractionView::Removing { stem, then } => ExtractionView::Finished {
            outcome: settled(then, report),
        },
        ExtractionView::Finished { outcome } => x,
    }
}

/// Where an extraction stands, with what it holds.
#[derive(Debug)]
enum State {
    Reading { path: String, stem: String },
    Parsing { path: String, stem: String },
    Converting { path: String, stem: String },
    ReadingScratch { path: String, stem: String },
    Removing { stem: String, then: Outcome },
    Finished { outcome: Outcome },
}

/// The extraction of one file, between its tasks.
#[derive(Debug)]
pub struct Extraction {
    state: State,
}

impl View for Extraction {
    type V = ExtractionView;

    closed spec fn view(&self) -> ExtractionView {
        match self.state {
            State::Reading { path, stem } => ExtractionView::Reading { path: path@, stem: stem@ },
            State::Parsing { path, stem } => ExtractionView::Parsing { path: path@, stem: stem@ },
            State::Converting { path, stem } => ExtractionView::Converting {
                path: path@,
                stem: stem@,
            },
            State::ReadingScratch { path, stem } => ExtractionView::ReadingScratch {
                path: path@,
                stem: stem@,
            },
            State::Removing { stem, then } => ExtractionView::Removing {
                stem: stem@,
                then: outcome_view(then),
            },
            State::Finished { outcome } => ExtractionView::Finished {
                outcome: outcome_view(outcome),
            },
        }
    }
}

/// The error for a path that names no file.
fn unnamed() -> (e: ExtractError)
    ensures
        e@ == no_file_name(),
{
    ExtractError { kind: Failure::NoFileName, cause: "the path names no file".to_owned() }
}

/// The error for a task that failed, with what the report says of it.
fn failed(kind: Failure, report: Report) -> (e: ExtractError)
    ensures
        e@ == failure(kind, report@),
{
    let cause = match report {
        Report::Failed(cause) => cause,
        _ => "the report does not answer the task".to_owned(),
    };
    ExtractError { kind, cause }
}

/// Builds the entry for a file with text.
fn entry_with_text(path: String, stem: String, text: String) -> (entry: Entry)
    ensures
        entry@ == text_entry(path@, stem@, text@),
{
    Entry { title: stem, body: Some(text), loc: None, archive_loc: Some(path) }
}

/// Builds the entry for a web location.
fn entry_for_webloc(stem: String, name: Option<String>, url: String) -> (entry: Entry)
    ensures
        entry@ == webloc_entry(stem@, text_of(name), url@),
{
    let title = match name {
        Some(n) => if n.as_str().is_empty() {
            stem
        } else {
            n
        },
        None => stem,
    };
    Entry { title, body: None, loc: Some(url), archive_loc: None }
}

/// What reading the text of a file comes to.
fn outcome_of_reading(path: String, stem: String, report: Report) -> (outcome: Outcome)
    ensures
        outcome_view(outcome) == read_outcome(path@, stem@, report@),
{
    match report {
        Report::Text(text) => Ok(Some(entry_with_text(path, stem, text))),
        other => Err(failed(Failure::Unreadable, other)),
    }
}

/// What parsing the property list of a web location comes to.
fn outcome_of_parsing(stem: String, report: Report) -> (outcome: Outcome)
    ensures
        outcome_view(outcome) == parse_outcome(stem@, report@),
{
    match report {
        Report::Webloc { name, url } => Ok(Some(entry_for_webloc(stem, name, url))),
        other => Err(failed(Failure::Malformed, other)),
    }
}

/// What a PDF comes to once the removal of its scratch file was reported on.
fn settle(then: Outcome, removed: Report) -> (outcome: Outcome)
    ensures
        outcome_view(outcome) == settled(outcome_view(then), removed@),
{
    match (removed, then) {
        (Report::Done, kept) => kept,
        (_, Err(first)) => Err(first),
        (other, Ok(_)) => Err(failed(Failure::CleanupFailed, other)),
    }
}

/// What the text file at `path` comes to, given how reading it went: an
/// entry titled by the stem and archived at the path, with the text as its
/// body, if the text was read; a failure if it was not, or if the path names
/// no file.
pub fn handle_text(path: String, read: Report) -> (outcome: Outcome)
    ensures
        outcome_view(outcome) == text_outcome(path@, read@),
{
    match filename(path.as_str()) {
        Some(stem) => outcome_of_reading(path, stem, read),
        None => Err(unnamed()),
    }
}

/// What the web location at `path` comes to, given how parsing its property
/// list went: an entry titled by the name, or by the stem where there is no
/// name or an empty one, and located at the URL, if the list was parsed; a
/// failure if it was not, or if the path names no file.
pub fn handle_webloc(path: String, parsed: Report) -> (outcome: Outcome)
    ensures
        outcome_view(outcome) == webloc_outcome(path@, parsed@),
{
    match filename(path.as_str()) {
        Some(stem) => outcome_of_parsing(stem, parsed),
        None => Err(unnamed()),
    }
}

/// What the PDF at `path` comes to, given how the converter went, how
/// reading the scratch file went, and how removing the scratch file went.
/// There is no outcome short of the last: whether or not the conversion
/// failed, the removal has been asked for before a PDF comes to anything.
/// `read` counts only where the converter succeeded. The PDF comes to an
/// entry, titled by the stem and archived at the path, with the text as its
/// body, only if all three went well; it fails with what failed first.
pub fn handle_pdf(path: String, converted: Report, read: Report, removed: Report) -> (outcome:
    Outcome)
    ensures
        outcome_view(outcome) == pdf_outcome(path@, converted@, read@, removed@),
{
    let stem = match filename(path.as_str()) {
        Some(stem) => stem,
        None => {
            return Err(unnamed());
        },
    };
    let then = match converted {
        Report::Done => outcome_of_reading(path, stem, read),
        other => Err(failed(Failure::ConversionFailed, other)),
    };
    settle(then, removed)
}

/// Begins to digest the file at `path`.
pub fn digest(path: String) -> (x: Extraction)
    ensures
        x@ == started(path@),
{
    let kind = file_kind(path.as_str());
    match kind {
        FileKind::Opaque => {
            return Extraction { state: State::Finished { outcome: Ok(None) } };
        },
        _ => {},
    }
    let stem = match filename(path.as_str()) {
        Some(stem) => stem,
        None => {
            return Extraction { state: State::Finished { outcome: Err(unnamed()) } };
        },
    };
    let state = match kind {
        FileKind::Bare => {
            let entry = Entry { title: stem, body: None, loc: None, archive_loc: Some(path) };
            State::Finished { outcome: Ok(Some(entry)) }
        },
        FileKind::PlainText => State::Reading { path, stem },
        FileKind::PortableDocument => State::Converting { path, stem },
        _ => State::Parsing { path, stem },
    };
    Extraction { state }
}

impl Extraction {
    /// Whether the extraction is finished.
    pub fn is_finished(&self) -> (done: bool)
        ensures
            done == (self@ is Finished),
    {
        match &self.state {
            State::Finished { .. } => true,
            _ => false,
        }
    }

    /// The task that the extraction waits for.
    pub fn task(&self) -> (task: Task)
        ensures
            task@ == task_of(self@),
    {
        match &self.state {
            State::Reading { path, .. } => Task::Read { path: path.clone() },
            State::Parsing { path, .. } => Task::Parse { path: path.clone() },
            State::Converting { path, stem } => Task::Convert {
                input: path.clone(),
                scratch: stem.clone(),
            },
            State::ReadingScratch { stem, .. } => Task::ReadScratch { scratch: stem.clone() },
            State::Removing { stem, .. } => Task::RemoveScratch { scratch: stem.clone() },
            State::Finished { .. } => Task::Finished,
        }
    }

    /// Takes in how the task went and moves on.
    pub fn advance(self, report: Report) -> (next: Extraction)
        ensures
            next@ == advanced(self@, report@),
    {
        let state = match self.state {
            State::Reading { path, stem } => State::Finished {
                outcome: outcome_of_reading(path, stem, report),
            },
            State::Parsing { path, stem } => State::Finished {
                outcome: outcome_of_parsing(stem, report),
            },
            State::Converting { path, stem } => match report {
                Report::Done => State::ReadingScratch { path, stem },
                other => State::Removing {
                    stem,
                    then: Err(failed(Failure::ConversionFailed, other)),
                },
            },
            State::ReadingScratch { path, stem } => {
                let then = outcome_of_reading(path, stem.clone(), report);
                State::Removing { stem, then }
            },
            State::Removing { stem, then } => State::Finished { outcome: settle(then, report) },
            State::Finished { outcome } => State::Finished { outcome },
        };
        Extraction { state }
    }

    /// The outcome of the extraction, once it is finished.
    pub fn into_outcome(self) -> (outcome: Option<Outcome>)
        ensures
            match outcome {
                Some(o) => self@ == (ExtractionView::Finished { outcome: outcome_view(o) }),
                None => !(self@ is Finished),
            },
    {
        match self.state {
            State::Finished { outcome } => Some(outcome),
            _ => None,
        }
    }
}

} // verus!
