//! The entry that an extraction produces and the record that is indexed from it.

use vstd::prelude::*;

verus! {

/// What extraction learns about one file, before it is indexed.
#[derive(Debug, Clone, PartialEq, Eq)]
pub struct Entry {
    /// Display title; a well-formed entry has a non-empty one.
    pub title: String,
    /// Full text, where the file has any.
    pub body: Option<String>,
    /// Live location of the content, such as a URL.
    pub loc: Option<String>,
    /// Stable archived location, typically the path of the file.
    pub archive_loc: Option<String>,
}

/// The mathematical value of an [`Entry`].
pub struct EntryView {
    pub title: Seq<char>,
    pub body: Option<Seq<char>>,
    pub loc: Option<Seq<char>>,
    pub archive_loc: Option<Seq<char>>,
}

/// What is indexed of an entry: its four fields, none of them absent.
#[derive(Debug, Clone, PartialEq, Eq)]
pub struct Record {
    pub title: String,
    pub body: String,
    pub loc: String,
    pub archive_loc: String,
}

/// The mathematical value of a [`Record`].
pub struct RecordView {
    pub title: Seq<char>,
    pub body: Seq<char>,
    pub loc: Seq<char>,
    pub archive_loc: Seq<char>,
}

/// The characters of an optional string.
pub open spec fn text_of(field: Option<String>) -> Option<Seq<char>> {
    match field {
        Some(s) => Some(s@),
        None => None,
    }
}

/// The text indexed for an optional field: its value, or the empty text.
pub open spec fn or_empty(field: Option<Seq<char>>) -> Seq<char> {
    match field {
        Some(s) => s,
        None => Seq::empty(),
    }
}

/// The record of an entry: its fields, with the empty text for each that is
/// absent.
pub open spec fn record_of(entry: EntryView) -> RecordView {
    RecordView {
        title: entry.title,
        body: or_empty(entry.body),
        loc: or_empty(entry.loc),
        archive_loc: or_empty(entry.archive_loc),
    }
}

impl View for Entry {
    type V = EntryView;

    open spec fn view(&self) -> EntryView {
        EntryView {
            title: self.title@,
            body: text_of(self.body),
            loc: text_of(self.loc),
            archive_loc: text_of(self.archive_loc),
        }
    }
}

impl View for Record {
    type V = RecordView;

    open spec fn view(&self) -> RecordView {
        RecordView {
            title: self.title@,
            body: self.body@,
            loc: self.loc@,
            archive_loc: self.archive_loc@,
        }
    }
}

impl EntryView {
    /// An entry is well formed when it has a title.
    pub open spec fn well_formed(self) -> bool {
        self.title.len() > 0
    }
}

/// The value of an optional field, or the empty string where it is absent.
fn unwrap_or_empty(field: Option<String>) -> (text: String)
    ensures
        text@ == or_empty(text_of(field)),
{
    match field {
        Some(s) => s,
        None => String::new(),
    }
}

impl Entry {
    /// Whether this entry has a title.
    pub open spec fn well_formed(&self) -> bool {
        self@.well_formed()
    }

    /// Turns the entry into the record to index, with the empty string in
    /// place of every absent field.
    pub fn into_record(self) -> (record: Record)
        ensures
            record@ == record_of(self@),
    {
        Record {
            title: self.title,
            body: unwrap_or_empty(self.body),
            loc: unwrap_or_empty(self.loc),
            archive_loc: unwrap_or_empty(self.archive_loc),
        }
    }
}

} // verus!
