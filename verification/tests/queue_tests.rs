use van_core::{LoadMode, TrackQueue};

#[test]
fn queue_starts_empty() {
    let q = TrackQueue::new();
    assert_eq!(q.len(), 0);
    assert!(q.snapshot().is_empty());
}

#[test]
fn add_appends_in_order() {
    let mut q = TrackQueue::new();
    q.add("https://example.com/a");
    q.add("https://example.com/b");
    q.add("https://example.com/c");
    assert_eq!(q.len(), 3);
    let snap = q.snapshot();
    assert_eq!(snap.len(), 3);
    assert_eq!(snap[0].locator, "https://example.com/a");
    assert_eq!(snap[1].locator, "https://example.com/b");
    assert_eq!(snap[2].locator, "https://example.com/c");
    assert_eq!(snap[0].mode, LoadMode::AppendPlay);
    assert_eq!(snap[0].subtitle, None);
}

#[test]
fn snapshot_is_whole_before_or_after_append() {
    // A snapshot around one append observes either the whole old contents
    // or the whole new contents, and the former is a prefix of the latter.
    let mut q = TrackQueue::new();
    q.add("a");
    q.add("b");
    let before = q.snapshot();
    q.add("c");
    let after = q.snapshot();
    assert_eq!(before.len(), 2);
    assert_eq!(after.len(), 3);
    for i in 0..before.len() {
        assert_eq!(before[i].locator, after[i].locator);
    }
    assert_eq!(after[2].locator, "c");
}

#[test]
fn snapshot_is_owned_copy() {
    let mut q = TrackQueue::new();
    q.add("a");
    let snap = q.snapshot();
    q.add("b");
    // The copy taken earlier is unaffected by later appends.
    assert_eq!(snap.len(), 1);
    assert_eq!(snap[0].locator, "a");
}
