use memex::queue::{EntryQueue, Refused};
use memex::Entry;

fn entry(title: &str) -> Entry {
    Entry { title: title.to_string(), body: None, loc: None, archive_loc: None }
}

#[test]
fn new_queue_is_open_and_empty() {
    let q = EntryQueue::new(3);
    assert_eq!(q.capacity(), 3);
    assert_eq!(q.len(), 0);
    assert!(q.is_empty());
    assert!(!q.is_full());
    assert!(!q.is_closed());
    assert!(!q.is_drained());
}

#[test]
fn queue_hands_entries_out_in_the_order_they_came() {
    let mut q = EntryQueue::new(3);
    assert!(q.try_send(entry("a")).is_ok());
    assert!(q.try_send(entry("b")).is_ok());
    assert!(q.try_send(entry("c")).is_ok());
    assert_eq!(q.try_recv(), Some(entry("a")));
    assert_eq!(q.try_recv(), Some(entry("b")));
    assert!(q.try_send(entry("d")).is_ok());
    assert_eq!(q.try_recv(), Some(entry("c")));
    assert_eq!(q.try_recv(), Some(entry("d")));
    assert_eq!(q.try_recv(), None);
}

#[test]
fn full_queue_refuses_and_hands_the_entry_back() {
    let mut q = EntryQueue::new(2);
    assert!(q.try_send(entry("a")).is_ok());
    assert!(q.try_send(entry("b")).is_ok());
    assert!(q.is_full());
    match q.try_send(entry("c")) {
        Err(Refused::Full(back)) => assert_eq!(back, entry("c")),
        other => panic!("{:?}", other),
    }
    assert_eq!(q.len(), 2);
    assert_eq!(q.try_recv(), Some(entry("a")));
    assert!(!q.is_full());
    assert!(q.try_send(entry("c")).is_ok());
    assert_eq!(q.len(), 2);
}

#[test]
fn queue_never_holds_more_than_its_capacity() {
    for capacity in 0..5usize {
        let mut q = EntryQueue::new(capacity);
        let mut accepted = 0;
        for i in 0..20 {
            if q.try_send(entry(&format!("e{}", i))).is_ok() {
                accepted += 1;
            }
            assert!(q.len() <= capacity);
            if i % 7 == 6 && q.try_recv().is_some() {
                accepted -= 1;
            }
            assert_eq!(q.len(), accepted);
        }
    }
}

#[test]
fn queue_without_room_accepts_nothing() {
    let mut q = EntryQueue::new(0);
    assert!(q.is_full());
    assert!(q.is_empty());
    match q.try_send(entry("a")) {
        Err(Refused::Full(back)) => assert_eq!(back, entry("a")),
        other => panic!("{:?}", other),
    }
    assert_eq!(q.len(), 0);
}

#[test]
fn closed_queue_refuses_but_still_hands_out() {
    let mut q = EntryQueue::new(2);
    assert!(q.try_send(entry("a")).is_ok());
    q.close();
    assert!(q.is_closed());
    assert!(!q.is_drained());
    match q.try_send(entry("b")) {
        Err(Refused::Closed(back)) => assert_eq!(back, entry("b")),
        other => panic!("{:?}", other),
    }
    assert_eq!(q.len(), 1);
    assert_eq!(q.try_recv(), Some(entry("a")));
    assert!(q.is_drained());
    assert_eq!(q.try_recv(), None);
}

#[test]
fn closed_full_queue_says_closed() {
    let mut q = EntryQueue::new(1);
    assert!(q.try_send(entry("a")).is_ok());
    q.close();
    match q.try_send(entry("b")) {
        Err(Refused::Closed(back)) => assert_eq!(back, entry("b")),
        other => panic!("{:?}", other),
    }
}
