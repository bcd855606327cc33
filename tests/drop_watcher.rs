use drop_tracker::drop_watcher::DropWatcher;

#[test]
fn notify_drop() {
    let mut watcher = DropWatcher::new();
    let marker = watcher.allocate(());

    assert!(watcher.markers()[0].drop_count() == 0);
    assert!(watcher.markers()[0].is_leaked());

    watcher.notify_drop(marker.id());
    assert!(watcher.markers()[0].drop_count() == 1);
    assert!(watcher.markers()[0].is_properly_dropped());

    watcher.notify_drop(marker.id());
    assert!(watcher.markers()[0].drop_count() == 2);
    assert!(watcher.markers()[0].is_illegally_dropped());
}

#[test]
fn new_registry_is_empty() {
    let watcher: DropWatcher<u32> = DropWatcher::new();
    assert_eq!(watcher.markers().len(), 0);
}

#[test]
fn ids_are_sequential() {
    let mut watcher = DropWatcher::new();
    let mut tokens = Vec::new();
    for i in 0..5u32 {
        tokens.push(watcher.allocate(i * 10));
    }
    for (i, t) in tokens.iter().enumerate() {
        assert_eq!(t.id(), i);
    }
    assert_eq!(watcher.markers().len(), 5);
}

#[test]
fn records_follow_allocation_order() {
    let mut watcher = DropWatcher::new();
    let _a = watcher.allocate(String::from("first"));
    let _b = watcher.allocate(String::from("second"));
    let _c = watcher.allocate(String::from("third"));
    let records = watcher.markers();
    assert_eq!(records.len(), 3);
    assert_eq!(records[0].props(), "first");
    assert_eq!(records[1].props(), "second");
    assert_eq!(records[2].props(), "third");
}

#[test]
fn released_once_is_proper() {
    let mut watcher = DropWatcher::new();
    let t = watcher.allocate(7u8);
    t.release(&mut watcher);
    let r = watcher.watch(0);
    assert_eq!(r.drop_count(), 1);
    assert!(r.is_properly_dropped());
    assert!(!r.is_leaked());
    assert!(!r.is_illegally_dropped());
}

#[test]
fn never_released_is_leaked() {
    let mut watcher = DropWatcher::new();
    let _kept = watcher.allocate(1u8);
    let other = watcher.allocate(2u8);
    other.release(&mut watcher);
    let r = watcher.watch(0);
    assert_eq!(r.drop_count(), 0);
    assert!(r.is_leaked());
    assert!(!r.is_properly_dropped());
    assert!(!r.is_illegally_dropped());
}

#[test]
fn second_release_is_illegal() {
    let mut watcher = DropWatcher::new();
    let t = watcher.allocate(());
    let id = t.id();
    t.release(&mut watcher);
    watcher.notify_drop(id);
    let r = watcher.watch(id);
    assert_eq!(r.drop_count(), 2);
    assert!(r.is_illegally_dropped());
    assert!(!r.is_properly_dropped());
    assert!(!r.is_leaked());
}

#[test]
fn payload_survives_releases() {
    let mut watcher = DropWatcher::new();
    let t = watcher.allocate(vec![1u8, 2, 3]);
    let id = t.id();
    assert_eq!(t.props(&watcher), &vec![1u8, 2, 3]);
    t.release(&mut watcher);
    watcher.notify_drop(id);
    assert_eq!(watcher.watch(id).props(), &vec![1u8, 2, 3]);
}

#[test]
fn scenario_single_token_lifecycle() {
    let mut watcher = DropWatcher::new();
    let t = watcher.allocate(());
    let id = t.id();
    assert_eq!(watcher.watch(id).drop_count(), 0);
    assert!(watcher.watch(id).is_leaked());
    t.release(&mut watcher);
    assert_eq!(watcher.watch(id).drop_count(), 1);
    assert!(watcher.watch(id).is_properly_dropped());
    watcher.notify_drop(id);
    assert_eq!(watcher.watch(id).drop_count(), 2);
    assert!(watcher.watch(id).is_illegally_dropped());
}

#[test]
fn scenario_release_middle_of_three() {
    let mut watcher = DropWatcher::new();
    let a = watcher.allocate(0u32);
    let b = watcher.allocate(1u32);
    let c = watcher.allocate(2u32);
    assert_eq!((a.id(), b.id(), c.id()), (0, 1, 2));
    b.release(&mut watcher);
    let records = watcher.markers();
    assert!(records[0].is_leaked());
    assert!(records[1].is_properly_dropped());
    assert!(records[2].is_leaked());
}

#[test]
fn tokens_compare_by_id() {
    let mut watcher = DropWatcher::new();
    let a = watcher.allocate(5u8);
    let b = watcher.allocate(5u8);
    assert!(a == a);
    assert!(a != b);
}

#[test]
fn cloned_record_keeps_fields() {
    let mut watcher = DropWatcher::new();
    let t = watcher.allocate(3u16);
    t.release(&mut watcher);
    let copy = watcher.watch(0).clone();
    assert_eq!(copy.drop_count(), 1);
    assert_eq!(*copy.props(), 3);
}
