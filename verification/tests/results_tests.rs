use memex::results::{shape, shape_all, Action, Hit, Results, SearchResult};

fn hit(title: &str, loc: &str, archive_loc: &str) -> Hit {
    Hit { title: title.to_string(), loc: loc.to_string(), archive_loc: archive_loc.to_string() }
}

fn file_result(title: &str, path: &str) -> SearchResult {
    SearchResult {
        title: title.to_string(),
        arg: path.to_string(),
        action: Action { file: Some(path.to_string()), url: None },
    }
}

fn url_result(title: &str, url: &str) -> SearchResult {
    SearchResult {
        title: title.to_string(),
        arg: url.to_string(),
        action: Action { file: None, url: Some(url.to_string()) },
    }
}

#[test]
fn archived_file_is_opened_as_a_file() {
    assert_eq!(shape(&hit("Alpha", "", "/tmp/a.txt")), file_result("Alpha", "/tmp/a.txt"));
}

#[test]
fn live_url_is_opened_as_a_url() {
    assert_eq!(shape(&hit("Beta", "http://b", "")), url_result("Beta", "http://b"));
}

#[test]
fn archived_location_wins_over_the_live_one() {
    assert_eq!(
        shape(&hit("Both", "http://live", "/archive/both.pdf")),
        file_result("Both", "/archive/both.pdf")
    );
    assert_eq!(
        shape(&hit("Both", "/live", "https://archive.example/both")),
        url_result("Both", "https://archive.example/both")
    );
}

#[test]
fn location_that_is_neither_has_no_action() {
    for location in ["relative/path.txt", "mailto:me@example.com", "", "C:\\docs\\a.txt", ":/"] {
        assert_eq!(
            shape(&hit("Odd", location, "")),
            SearchResult {
                title: "Odd".to_string(),
                arg: location.to_string(),
                action: Action { file: None, url: None },
            },
            "{:?}",
            location
        );
    }
}

#[test]
fn path_that_holds_a_scheme_mark_is_still_a_file() {
    assert_eq!(
        shape(&hit("Mirror", "", "/mirror/http://example.com/index.txt")),
        file_result("Mirror", "/mirror/http://example.com/index.txt")
    );
}

#[test]
fn at_most_one_action_is_set() {
    let locations = ["/", "/a", "://", "a://b", "/a://b", "", "a", "//a", "file:///tmp/a"];
    for loc in locations {
        for archive_loc in locations {
            let item = shape(&hit("t", loc, archive_loc));
            assert!(item.action.file.is_none() || item.action.url.is_none());
            let chosen = if archive_loc.is_empty() { loc } else { archive_loc };
            assert_eq!(item.arg, chosen);
            assert_eq!(item.action.file.is_some(), chosen.starts_with('/'));
            assert_eq!(item.action.url.is_some(), !chosen.starts_with('/') && chosen.contains("://"));
            if let Some(file) = &item.action.file {
                assert_eq!(file, chosen);
            }
            if let Some(url) = &item.action.url {
                assert_eq!(url, chosen);
            }
        }
    }
}

#[test]
fn results_keep_the_order_of_the_hits() {
    let hits = vec![
        hit("Alpha", "", "/tmp/a.txt"),
        hit("Beta", "http://b", ""),
        hit("Gamma", "gamma", ""),
    ];
    assert_eq!(
        shape_all(&hits),
        Results {
            items: vec![
                file_result("Alpha", "/tmp/a.txt"),
                url_result("Beta", "http://b"),
                SearchResult {
                    title: "Gamma".to_string(),
                    arg: "gamma".to_string(),
                    action: Action { file: None, url: None },
                },
            ],
        }
    );
}

#[test]
fn no_hits_give_no_results() {
    assert_eq!(shape_all(&Vec::new()), Results { items: Vec::new() });
}
