use memex::walk::{visit, Found, Visit};

fn unreadable(depth: Option<usize>, cause: &str) -> Found {
    Found::Unreadable { depth, cause: cause.to_string() }
}

#[test]
fn regular_file_is_digested() {
    let decision = visit(Found::File("/data/notes.txt".to_string()));
    assert_eq!(decision, Visit::Digest("/data/notes.txt".to_string()));
    assert!(decision.walks_on());
}

#[test]
fn directory_is_walked_past() {
    let decision = visit(Found::Other);
    assert_eq!(decision, Visit::Pass);
    assert!(decision.walks_on());
}

#[test]
fn unreadable_entry_is_reported_and_skipped() {
    for depth in [Some(1), Some(2), Some(40), Some(usize::MAX), None] {
        let decision = visit(unreadable(depth, "permission denied"));
        assert_eq!(
            decision,
            Visit::Report("failed to read: permission denied".to_string()),
            "{:?}",
            depth
        );
        assert!(decision.walks_on());
    }
}

#[test]
fn unreadable_root_ends_the_walk() {
    let decision = visit(unreadable(Some(0), "No such file or directory"));
    assert_eq!(decision, Visit::Quit("failed to read: No such file or directory".to_string()));
    assert!(!decision.walks_on());
}

#[test]
fn walk_goes_on_after_an_unreadable_entry() {
    let found = vec![
        Found::File("/data/a.txt".to_string()),
        unreadable(Some(1), "permission denied"),
        Found::Other,
        Found::File("/data/b.txt".to_string()),
    ];
    let mut digested = Vec::new();
    let mut reported = Vec::new();
    for one in found {
        let decision = visit(one);
        assert!(decision.walks_on());
        match decision {
            Visit::Digest(path) => digested.push(path),
            Visit::Report(message) => reported.push(message),
            Visit::Pass => {}
            Visit::Quit(message) => panic!("{}", message),
        }
    }
    assert_eq!(digested, vec!["/data/a.txt".to_string(), "/data/b.txt".to_string()]);
    assert_eq!(reported, vec!["failed to read: permission denied".to_string()]);
}
