use memex::engine::{engine_document, resolve, stored_of, Fields, MissingField, Stored};
use memex::{Entry, Record};
use tantivy::schema::{Field, Schema, STORED, STRING, TEXT};

fn schema_of(names: &[&str]) -> Schema {
    let mut builder = Schema::builder();
    for name in names {
        builder.add_text_field(name, TEXT | STORED);
    }
    builder.build()
}

fn record(title: &str, body: &str, loc: &str, archive_loc: &str) -> Record {
    Record {
        title: title.to_string(),
        body: body.to_string(),
        loc: loc.to_string(),
        archive_loc: archive_loc.to_string(),
    }
}

fn texts(doc: &tantivy::Document) -> Vec<(u32, String)> {
    doc.field_values()
        .iter()
        .map(|fv| (fv.field().field_id(), fv.value().as_text().unwrap().to_string()))
        .collect()
}

const FIELDS: Fields = Fields { title: 0, body: 1, loc: 2, archive_loc: 3 };

#[test]
fn resolve_finds_the_fields_in_registration_order() {
    let schema = schema_of(&["title", "body", "loc", "archive_loc"]);
    assert_eq!(resolve(&schema), Ok(FIELDS));
}

#[test]
fn resolve_finds_the_fields_wherever_they_stand() {
    let schema = schema_of(&["archive_loc", "extra", "body", "title", "more", "loc"]);
    assert_eq!(resolve(&schema), Ok(Fields { title: 3, body: 2, loc: 5, archive_loc: 0 }));
}

#[test]
fn resolve_agrees_with_the_engine() {
    let schema = schema_of(&["x", "loc", "title", "archive_loc", "body"]);
    let fields = resolve(&schema).unwrap();
    assert_eq!(Field::from_field_id(fields.title), schema.get_field("title").unwrap());
    assert_eq!(Field::from_field_id(fields.body), schema.get_field("body").unwrap());
    assert_eq!(Field::from_field_id(fields.loc), schema.get_field("loc").unwrap());
    assert_eq!(Field::from_field_id(fields.archive_loc), schema.get_field("archive_loc").unwrap());
}

#[test]
fn resolve_names_the_first_field_that_is_missing() {
    assert_eq!(resolve(&schema_of(&[])), Err(MissingField { name: "title" }));
    assert_eq!(resolve(&schema_of(&["body", "loc"])), Err(MissingField { name: "title" }));
    assert_eq!(resolve(&schema_of(&["title", "loc"])), Err(MissingField { name: "body" }));
    assert_eq!(
        resolve(&schema_of(&["title", "body", "archive_loc"])),
        Err(MissingField { name: "loc" })
    );
    assert_eq!(
        resolve(&schema_of(&["title", "body", "loc", "Archive_loc"])),
        Err(MissingField { name: "archive_loc" })
    );
}

#[test]
fn engine_document_holds_the_four_fields_in_order() {
    let doc = engine_document(record("Alpha", "first letter", "http://a", "/tmp/a.txt"), &FIELDS);
    assert_eq!(
        texts(&doc),
        vec![
            (0, "Alpha".to_string()),
            (1, "first letter".to_string()),
            (2, "http://a".to_string()),
            (3, "/tmp/a.txt".to_string()),
        ]
    );
}

#[test]
fn engine_document_files_each_text_under_its_field() {
    let fields = Fields { title: 7, body: 5, loc: 3, archive_loc: 1 };
    let doc = engine_document(record("t", "b", "l", "a"), &fields);
    let text = |id: u32| {
        doc.get_first(Field::from_field_id(id)).and_then(|v| v.as_text()).map(|t| t.to_string())
    };
    assert_eq!(text(7), Some("t".to_string()));
    assert_eq!(text(5), Some("b".to_string()));
    assert_eq!(text(3), Some("l".to_string()));
    assert_eq!(text(1), Some("a".to_string()));
    assert_eq!(text(0), None);
    assert_eq!(doc.len(), 4);
}

#[test]
fn engine_document_keeps_empty_fields() {
    let entry = Entry { title: "Beta".to_string(), body: None, loc: None, archive_loc: None };
    let doc = engine_document(entry.into_record(), &FIELDS);
    assert_eq!(
        texts(&doc),
        vec![
            (0, "Beta".to_string()),
            (1, String::new()),
            (2, String::new()),
            (3, String::new()),
        ]
    );
}

#[test]
fn stored_of_reads_back_what_was_written() {
    let doc = engine_document(record("Alpha", "first letter", "http://a", "/tmp/a.txt"), &FIELDS);
    assert_eq!(
        stored_of(&doc, &FIELDS),
        Stored {
            title: Some("Alpha".to_string()),
            loc: Some("http://a".to_string()),
            archive_loc: Some("/tmp/a.txt".to_string()),
        }
    );
}

#[test]
fn stored_of_reads_the_first_value_of_each_field() {
    let mut doc = tantivy::Document::new();
    doc.add_text(Field::from_field_id(2), "first loc");
    doc.add_text(Field::from_field_id(0), "first title");
    doc.add_text(Field::from_field_id(0), "second title");
    doc.add_text(Field::from_field_id(2), "second loc");
    assert_eq!(
        stored_of(&doc, &FIELDS),
        Stored {
            title: Some("first title".to_string()),
            loc: Some("first loc".to_string()),
            archive_loc: None,
        }
    );
}

#[test]
fn stored_of_has_nothing_for_a_value_that_is_no_text() {
    let mut doc = tantivy::Document::new();
    doc.add_u64(Field::from_field_id(0), 7);
    doc.add_text(Field::from_field_id(0), "late title");
    doc.add_text(Field::from_field_id(3), "/a");
    assert_eq!(
        stored_of(&doc, &FIELDS),
        Stored { title: None, loc: None, archive_loc: Some("/a".to_string()) }
    );
}

#[test]
fn stored_of_an_empty_document_has_nothing() {
    let doc = tantivy::Document::new();
    assert_eq!(stored_of(&doc, &FIELDS), Stored { title: None, loc: None, archive_loc: None });
}

#[test]
fn exact_fields_are_registered_like_the_others() {
    let mut builder = Schema::builder();
    builder.add_text_field("title", TEXT | STORED);
    builder.add_text_field("body", TEXT);
    builder.add_text_field("loc", STRING | STORED);
    builder.add_text_field("archive_loc", STRING | STORED);
    assert_eq!(resolve(&builder.build()), Ok(FIELDS));
}
