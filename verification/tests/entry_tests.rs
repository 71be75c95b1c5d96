use memex::{Record, Entry};

#[test]
fn document_keeps_the_fields_that_are_present() {
    let entry = Entry {
        title: "Alpha".to_string(),
        body: Some("first letter".to_string()),
        loc: Some("http://alpha".to_string()),
        archive_loc: Some("/tmp/a.txt".to_string()),
    };
    assert_eq!(
        entry.into_record(),
        Record {
            title: "Alpha".to_string(),
            body: "first letter".to_string(),
            loc: "http://alpha".to_string(),
            archive_loc: "/tmp/a.txt".to_string(),
        }
    );
}

#[test]
fn document_has_empty_strings_for_absent_fields() {
    let entry = Entry { title: "Beta".to_string(), body: None, loc: None, archive_loc: None };
    assert_eq!(
        entry.into_record(),
        Record {
            title: "Beta".to_string(),
            body: String::new(),
            loc: String::new(),
            archive_loc: String::new(),
        }
    );
}

#[test]
fn document_of_a_bookmark_has_only_title_and_location() {
    let entry = Entry {
        title: "Example".to_string(),
        body: None,
        loc: Some("http://example.com".to_string()),
        archive_loc: None,
    };
    let doc = entry.into_record();
    assert_eq!(doc.title, "Example");
    assert_eq!(doc.body, "");
    assert_eq!(doc.loc, "http://example.com");
    assert_eq!(doc.archive_loc, "");
}
