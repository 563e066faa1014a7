use portfolio::thumbnail::{LoadPoll, Thumbnail};

#[test]
fn thumbnail_poll_pending_then_ready_then_cached() {
    let mut t = Thumbnail::new();
    let mut loads = 0;
    // first frame: the loader is still busy
    assert_eq!(t.cached(), None);
    assert!(t.wants_load());
    loads += 1;
    assert_eq!(t.record(LoadPoll::Pending), None);
    // second frame: the image is ready
    assert_eq!(t.cached(), None);
    assert!(t.wants_load());
    loads += 1;
    assert_eq!(t.record(LoadPoll::Ready(42)), Some(42));
    // third frame: served from the cache, no new load
    assert_eq!(t.cached(), Some(42));
    assert!(!t.wants_load());
    assert_eq!(loads, 2);
    assert_eq!(t, Thumbnail::Ready(42));
}

#[test]
fn failed_thumbnail_stays_absent() {
    let mut t = Thumbnail::new();
    assert_eq!(t.record(LoadPoll::Failed), None);
    assert_eq!(t, Thumbnail::Failed);
    assert!(!t.wants_load());
    assert_eq!(t.cached(), None);
}
