//! Documents and schemas as the index engine holds them.
//!
//! The engine is `tantivy`. Its documents and schemas are opaque here; what
//! is said of them rests on the few contracts in this module that are stated
//! of the engine's own functions and taken on trust.

use crate::entry::{text_of, Record, RecordView};
use vstd::prelude::*;

verus! {

/// The engine's document: a list of field values.
#[verifier::external_type_specification]
#[verifier::external_body]
pub struct ExDocument(tantivy::Document);

/// The engine's schema: a list of named fields.
#[verifier::external_type_specification]
#[verifier::external_body]
pub struct ExSchema(tantivy::schema::Schema);

/// What a document of the engine holds: its values in the order they were
/// added, each with the id of its field and with its text, or with `None`
/// where the value is no plain text.
pub uninterp spec fn field_values(doc: tantivy::Document) -> Seq<(u32, Option<Seq<char>>)>;

/// The names of the fields of a schema, in the order they were registered.
/// The id of a field is its position in this list.
pub uninterp spec fn field_names(schema: tantivy::schema::Schema) -> Seq<Seq<char>>;

/// The text of the first value of `field` among `values`.
pub open spec fn first_text_of(values: Seq<(u32, Option<Seq<char>>)>, field: u32) -> Option<
    Seq<char>,
>
    decreases values.len(),
{
    if values.len() == 0 {
        None
    } else if values[0].0 == field {
        values[0].1
    } else {
        first_text_of(values.drop_first(), field)
    }
}

/// Whether `name` is the name of a field of the schema.
pub open spec fn has_field(names: Seq<Seq<char>>, name: Seq<char>) -> bool {
    exists|i: int| 0 <= i < names.len() && names[i] == name
}

/// Whether `id` is the one position at which the schema has a field `name`.
pub open spec fn is_field(names: Seq<Seq<char>>, name: Seq<char>, id: u32) -> bool {
    id < names.len() && forall|i: int| 0 <= i < names.len() ==> (names[i] == name <==> i == id)
}

/// `tantivy::Document::new`: a document without values.
#[verifier::external_body]
fn new_document() -> (doc: tantivy::Document)
    ensures
        field_values(doc) == Seq::<(u32, Option<Seq<char>>)>::empty(),
{
    tantivy::Document::new()
}

/// `tantivy::Document::add_text`: appends `text` as a value of the field with
/// the id `field`, and leaves the values before it as they are.
#[verifier::external_body]
fn add_text(doc: &mut tantivy::Document, field: u32, text: &str)
    ensures
        field_values(*final(doc)) == field_values(*old(doc)).push((field, Some(text@))),
{
    doc.add_text(tantivy::schema::Field::from_field_id(field), text)
}

/// `tantivy::Document::get_first`, read with `tantivy::schema::Value::as_text`:
/// the text of the first value of the field with the id `field`; `None` where
/// the document has no value of that field, or where the first one is no
/// plain text.
#[verifier::external_body]
fn first_text(doc: &tantivy::Document, field: u32) -> (text: Option<String>)
    ensures
        text_of(text) == first_text_of(field_values(*doc), field),
{
    let value = doc.get_first(tantivy::schema::Field::from_field_id(field));
    value.and_then(|v| v.as_text()).map(|t| t.to_owned())
}

/// `tantivy::schema::Schema::get_field`: the id of the field named `name`,
/// or `None` where the schema has no such field. No two fields of a schema
/// have the same name, so the id is the only position that holds the name.
#[verifier::external_body]
fn field_id(schema: &tantivy::schema::Schema, name: &str) -> (id: Option<u32>)
    ensures
        match id {
            Some(at) => is_field(field_names(*schema), name@, at),
            None => !has_field(field_names(*schema), name@),
        },
{
    schema.get_field(name).map(|field| field.field_id())
}

/// What the engine has stored of a matched document: the text of each field
/// that can be read back, or `None` where the document has no text there.
#[derive(Debug, Clone, PartialEq, Eq)]
pub struct Stored {
    pub title: Option<String>,
    pub loc: Option<String>,
    pub archive_loc: Option<String>,
}

/// The mathematical value of a [`Stored`].
pub struct StoredView {
    pub title: Option<Seq<char>>,
    pub loc: Option<Seq<char>>,
    pub archive_loc: Option<Seq<char>>,
}

impl View for Stored {
    type V = StoredView;

    open spec fn view(&self) -> StoredView {
        StoredView {
            title: text_of(self.title),
            loc: text_of(self.loc),
            archive_loc: text_of(self.archive_loc),
        }
    }
}

/// The ids under which the engine knows the four fields of a document.
#[derive(Debug, Clone, Copy, PartialEq, Eq, Structural)]
pub struct Fields {
    pub title: u32,
    pub body: u32,
    pub loc: u32,
    pub archive_loc: u32,
}

/// A schema lacks a field that documents need.
#[derive(Debug, Clone, Copy, PartialEq, Eq)]
pub struct MissingField {
    /// The name of the field.
    pub name: &'static str,
}

/// The values of the engine's document for `record`: title, body, location
/// and archived location, in this order, each under the id of its field.
pub open spec fn values_of(record: RecordView, fields: Fields) -> Seq<(u32, Option<Seq<char>>)> {
    seq![
        (fields.title, Some(record.title)),
        (fields.body, Some(record.body)),
        (fields.loc, Some(record.loc)),
        (fields.archive_loc, Some(record.archive_loc)),
    ]
}

/// What can be read back from values: the first text of the title, of the
/// location and of the archived location. The body is not read back.
pub open spec fn stored_in(values: Seq<(u32, Option<Seq<char>>)>, fields: Fields) -> StoredView {
    StoredView {
        title: first_text_of(values, fields.title),
        loc: first_text_of(values, fields.loc),
        archive_loc: first_text_of(values, fields.archive_loc),
    }
}

/// Whether `fields` holds the ids of the four fields in the schema.
pub open spec fn located(names: Seq<Seq<char>>, fields: Fields) -> bool {
    &&& is_field(names, "title"@, fields.title)
    &&& is_field(names, "body"@, fields.body)
    &&& is_field(names, "loc"@, fields.loc)
    &&& is_field(names, "archive_loc"@, fields.archive_loc)
}

/// The first of the four fields that the schema lacks, if it lacks any.
pub open spec fn first_missing(names: Seq<Seq<char>>) -> Option<Seq<char>> {
    if !has_field(names, "title"@) {
        Some("title"@)
    } else if !has_field(names, "body"@) {
        Some("body"@)
    } else if !has_field(names, "loc"@) {
        Some("loc"@)
    } else if !has_field(names, "archive_loc"@) {
        Some("archive_loc"@)
    } else {
        None
    }
}

/// Looks up one field.
fn find(schema: &tantivy::schema::Schema, name: &'static str) -> (found: Result<
    u32,
    MissingField,
>)
    ensures
        match found {
            Ok(id) => has_field(field_names(*schema), name@) && is_field(
                field_names(*schema),
                name@,
                id,
            ),
            Err(e) => !has_field(field_names(*schema), name@) && e.name@ == name@,
        },
{
    match field_id(schema, name) {
        Some(id) => {
            assert(field_names(*schema)[id as int] == name@);
            Ok(id)
        },
        None => Err(MissingField { name }),
    }
}

/// Looks up the four fields of a document in the schema of an index. Fails
/// where the schema lacks one of them, and names the first that it lacks.
pub fn resolve(schema: &tantivy::schema::Schema) -> (found: Result<Fields, MissingField>)
    ensures
        match found {
            Ok(fields) => first_missing(field_names(*schema)) is None && located(
                field_names(*schema),
                fields,
            ),
            Err(e) => first_missing(field_names(*schema)) == Some(e.name@),
        },
{
    let title = match find(schema, "title") {
        Ok(id) => id,
        Err(e) => {
            return Err(e);
        },
    };
    let body = match find(schema, "body") {
        Ok(id) => id,
        Err(e) => {
            return Err(e);
        },
    };
    let loc = match find(schema, "loc") {
        Ok(id) => id,
        Err(e) => {
            return Err(e);
        },
    };
    let archive_loc = match find(schema, "archive_loc") {
        Ok(id) => id,
        Err(e) => {
            return Err(e);
        },
    };
    Ok(Fields { title, body, loc, archive_loc })
}

/// Builds the engine's document for `record`.
pub fn engine_document(record: Record, fields: &Fields) -> (made: tantivy::Document)
    ensures
        field_values(made) == values_of(record@, *fields),
{
    let mut made = new_document();
    add_text(&mut made, fields.title, record.title.as_str());
    add_text(&mut made, fields.body, record.body.as_str());
    add_text(&mut made, fields.loc, record.loc.as_str());
    add_text(&mut made, fields.archive_loc, record.archive_loc.as_str());
    assert(field_values(made) =~= values_of(record@, *fields));
    made
}

/// Reads back what a matched document has stored.
pub fn stored_of(doc: &tantivy::Document, fields: &Fields) -> (stored: Stored)
    ensures
        stored@ == stored_in(field_values(*doc), *fields),
{
    Stored {
        title: first_text(doc, fields.title),
        loc: first_text(doc, fields.loc),
        archive_loc: first_text(doc, fields.archive_loc),
    }
}

/// The ids of the four fields of a schema differ from each other.
pub proof fn lemma_located_fields_differ(names: Seq<Seq<char>>, fields: Fields)
    requires
        located(names, fields),
    ensures
        fields.title != fields.body,
        fields.title != fields.loc,
        fields.title != fields.archive_loc,
        fields.body != fields.loc,
        fields.body != fields.archive_loc,
        fields.loc != fields.archive_loc,
{
    reveal_strlit("title");
    reveal_strlit("body");
    reveal_strlit("loc");
    reveal_strlit("archive_loc");
    assert("title"@.len() == 5 && "body"@.len() == 4 && "loc"@.len() == 3 && "archive_loc"@.len()
        == 11);
    assert(names[fields.title as int] == "title"@);
    assert(names[fields.body as int] == "body"@);
    assert(names[fields.loc as int] == "loc"@);
    assert(names[fields.archive_loc as int] == "archive_loc"@);
}

/// What was written is what is read back: from the engine's document for
/// `record`, the title, the location and the archived location come back as
/// they went in.
pub proof fn lemma_written_document_reads_back(record: RecordView, fields: Fields)
    requires
        fields.title != fields.body,
        fields.title != fields.loc,
        fields.title != fields.archive_loc,
        fields.body != fields.loc,
        fields.body != fields.archive_loc,
        fields.loc != fields.archive_loc,
    ensures
        stored_in(values_of(record, fields), fields) == (StoredView {
            title: Some(record.title),
            loc: Some(record.loc),
            archive_loc: Some(record.archive_loc),
        }),
{
    let values = values_of(record, fields);
    let after_title = values.drop_first();
    let after_body = after_title.drop_first();
    let after_loc = after_body.drop_first();
    assert(after_title[0] == values[1]);
    assert(after_body[0] == values[2]);
    assert(after_loc[0] == values[3]);
    assert(first_text_of(after_loc, fields.archive_loc) == Some(record.archive_loc));
    assert(first_text_of(after_body, fields.archive_loc) == Some(record.archive_loc));
    assert(first_text_of(after_title, fields.archive_loc) == Some(record.archive_loc));
    assert(first_text_of(after_body, fields.loc) == Some(record.loc));
    assert(first_text_of(after_title, fields.loc) == Some(record.loc));
}

} // verus!
