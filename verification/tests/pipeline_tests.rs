use memex::engine::{engine_document, resolve, stored_of, Fields};
use memex::extract::{digest, Report};
use memex::queue::{EntryQueue, Refused};
use memex::request::{search_request, RequestError};
use memex::results::Results;
use memex::schema::{default_search_fields, index_schema, Indexing};
use memex::service::{gather, respond, Fetched, Reply};
use memex::writer::{Writer, WriterStep};
use memex::{Entry, Record};
use tantivy::collector::{Count, TopDocs};
use tantivy::query::QueryParser;
use tantivy::schema::{Field, Schema, STORED, STRING, TEXT};
use tantivy::{Index, IndexWriter};

fn engine_schema() -> Schema {
    let mut builder = Schema::builder();
    for field in index_schema() {
        let options = match field.indexing {
            Indexing::Tokenized => TEXT,
            Indexing::Exact => STRING,
        };
        let options = if field.stored { options | STORED } else { options };
        builder.add_text_field(field.name, options);
    }
    builder.build()
}

fn insert(writer: &mut IndexWriter, fields: &Fields, record: Record) {
    writer.add_document(engine_document(record, fields)).unwrap();
}

/// Builds in memory; see `build_into`.
fn build(entries: Vec<Entry>, threads: usize) -> (Index, usize) {
    build_into(Index::create_in_ram(engine_schema()), entries, threads)
}

/// Runs a build in one thread: whenever the queue is full, the writer takes
/// its turn. Returns the index and the largest number of entries that waited.
fn build_into(index: Index, entries: Vec<Entry>, threads: usize) -> (Index, usize) {
    let fields = resolve(&index.schema()).unwrap();
    let mut engine = index.writer_with_num_threads(threads, 50_000_000).unwrap();
    let mut queue = EntryQueue::new(threads);
    let mut writer = Writer::new();
    let mut high_water = 0;
    let mut commits = 0;
    for entry in entries {
        let mut offered = entry;
        loop {
            match queue.try_send(offered) {
                Ok(()) => break,
                Err(Refused::Full(back)) => {
                    offered = back;
                    match writer.next(&mut queue) {
                        WriterStep::Submit(record) => insert(&mut engine, &fields, record),
                        other => panic!("{:?}", other),
                    }
                }
                Err(Refused::Closed(_)) => panic!("closed too early"),
            }
        }
        high_water = high_water.max(queue.len());
    }
    queue.close();
    loop {
        match writer.next(&mut queue) {
            WriterStep::Submit(record) => insert(&mut engine, &fields, record),
            WriterStep::Commit => {
                engine.commit().unwrap();
                commits += 1;
            }
            WriterStep::Wait => panic!("nothing to wait for"),
            WriterStep::Stop => break,
        }
    }
    assert_eq!(commits, 1);
    (index, high_water)
}

fn search(index: &Index, query_string: &[(&str, &str)]) -> Result<Results, RequestError> {
    let pairs = query_string.iter().map(|(k, v)| (k.to_string(), v.to_string())).collect();
    let request = search_request(Some(pairs))?;
    let schema = index.schema();
    let fields = index_schema();
    let defaults: Vec<Field> = default_search_fields(&fields)
        .into_iter()
        .map(|at| schema.get_field(fields[at].name).unwrap())
        .collect();
    let parser = QueryParser::new(schema.clone(), defaults, index.tokenizers().clone());
    let query = parser.parse_query(&request.query).unwrap();
    let searcher = index.reader().unwrap().searcher();
    let collector = (TopDocs::with_limit(request.num_hits).and_offset(request.offset), Count);
    let (top, _) = searcher.search(&query, &collector).unwrap();
    let ids = resolve(&schema).unwrap();
    let fetched: Vec<Fetched> = top
        .iter()
        .map(|(_, address)| match searcher.doc(*address) {
            Ok(doc) => Fetched::Read(stored_of(&doc, &ids)),
            Err(e) => Fetched::Failed(e.to_string()),
        })
        .collect();
    match respond(gather(fetched)) {
        Reply::Found(results) => Ok(results),
        Reply::Refused { status, message } => panic!("{} {}", status, message),
    }
}

fn alpha_and_beta() -> Vec<Entry> {
    vec![
        Entry {
            title: "Alpha".to_string(),
            body: None,
            loc: None,
            archive_loc: Some("/tmp/a.txt".to_string()),
        },
        Entry {
            title: "Beta".to_string(),
            body: None,
            loc: Some("http://b".to_string()),
            archive_loc: None,
        },
    ]
}

#[test]
fn query_for_an_archived_file_returns_it_as_a_file() {
    let (index, _) = build(alpha_and_beta(), 2);
    let results = search(&index, &[("q", "Alpha"), ("nhits", "10"), ("offset", "0")]).unwrap();
    assert_eq!(results.items.len(), 1);
    let item = &results.items[0];
    assert_eq!(item.title, "Alpha");
    assert_eq!(item.arg, "/tmp/a.txt");
    assert_eq!(item.action.file, Some("/tmp/a.txt".to_string()));
    assert_eq!(item.action.url, None);
}

#[test]
fn query_for_a_bookmark_returns_it_as_a_url() {
    let (index, _) = build(alpha_and_beta(), 2);
    let results = search(&index, &[("q", "Beta")]).unwrap();
    assert_eq!(results.items.len(), 1);
    let item = &results.items[0];
    assert_eq!(item.title, "Beta");
    assert_eq!(item.arg, "http://b");
    assert_eq!(item.action.url, Some("http://b".to_string()));
    assert_eq!(item.action.file, None);
}

#[test]
fn query_without_q_is_refused_before_any_search() {
    let (index, _) = build(alpha_and_beta(), 2);
    let refused = search(&index, &[("nhits", "10")]).unwrap_err();
    assert_eq!(refused.status(), 400);
}

#[test]
fn free_text_does_not_search_the_locations() {
    let (index, _) = build(alpha_and_beta(), 2);
    assert_eq!(search(&index, &[("q", "tmp")]).unwrap().items.len(), 0);
    assert_eq!(search(&index, &[("q", "http")]).unwrap().items.len(), 0);
}

#[test]
fn free_text_searches_the_body() {
    let x = digest("/notes/shopping.txt".to_string());
    let x = x.advance(Report::Text("remember the oat milk".to_string()));
    let entry = x.into_outcome().unwrap().unwrap().unwrap();
    let (index, _) = build(vec![entry], 1);
    let results = search(&index, &[("q", "milk")]).unwrap();
    assert_eq!(results.items.len(), 1);
    assert_eq!(results.items[0].title, "shopping");
    assert_eq!(results.items[0].arg, "/notes/shopping.txt");
    assert_eq!(results.items[0].action.file, Some("/notes/shopping.txt".to_string()));
}

#[test]
fn hits_and_offset_page_through_the_matches() {
    let entries: Vec<Entry> = (0..7)
        .map(|i| Entry {
            title: format!("report number{}", i),
            body: None,
            loc: None,
            archive_loc: Some(format!("/r/{}.txt", i)),
        })
        .collect();
    let (index, _) = build(entries, 3);
    assert_eq!(search(&index, &[("q", "report")]).unwrap().items.len(), 7);
    assert_eq!(search(&index, &[("q", "report"), ("nhits", "3")]).unwrap().items.len(), 3);
    let rest = search(&index, &[("q", "report"), ("nhits", "5"), ("offset", "5")]).unwrap();
    assert_eq!(rest.items.len(), 2);
    assert_eq!(search(&index, &[("q", "report"), ("offset", "7")]).unwrap().items.len(), 0);
    assert_eq!(search(&index, &[("q", "report"), ("nhits", "0")]).unwrap().items.len(), 7);
}

#[test]
fn build_never_queues_more_than_the_thread_count() {
    let entries: Vec<Entry> = (0..25)
        .map(|i| Entry { title: format!("doc{}", i), body: None, loc: None, archive_loc: None })
        .collect();
    for threads in 1..4 {
        let (index, high_water) = build(entries.clone(), threads);
        assert!(high_water <= threads);
        assert_eq!(high_water, threads);
        let reader = index.reader().unwrap();
        assert_eq!(reader.searcher().num_docs(), 25);
    }
}

#[test]
fn empty_build_yields_a_searchable_index() {
    let (index, high_water) = build(Vec::new(), 2);
    assert_eq!(high_water, 0);
    assert_eq!(search(&index, &[("q", "anything")]).unwrap().items.len(), 0);
}

#[test]
fn build_into_a_fresh_directory_yields_a_searchable_index() {
    let index = Index::create_from_tempdir(engine_schema()).unwrap();
    let (index, _) = build_into(index, alpha_and_beta(), 2);
    let results = search(&index, &[("q", "Alpha")]).unwrap();
    assert_eq!(results.items.len(), 1);
    assert_eq!(results.items[0].arg, "/tmp/a.txt");
    let results = search(&index, &[("q", "Beta")]).unwrap();
    assert_eq!(results.items.len(), 1);
    assert_eq!(results.items[0].arg, "http://b");
}
