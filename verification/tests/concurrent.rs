use yield_progress::ConcurrentProgress;

#[test]
fn fresh_subtasks_have_no_label() {
    let c = ConcurrentProgress::new(3);
    assert_eq!(c.len(), 3);
    assert_eq!(c.first_incomplete_label(), None);
}

#[test]
fn zero_subtasks() {
    let c = ConcurrentProgress::new(0);
    assert_eq!(c.len(), 0);
    assert_eq!(c.first_incomplete_label(), None);
}

#[test]
fn concurrent_label_sequence() {
    // Two subtasks labelled "p1" and "p2" report half, then finish, in turn.
    let mut c = ConcurrentProgress::new(2);
    c.record(0, false, Some(String::from("p1")));
    assert_eq!(c.first_incomplete_label(), Some("p1"));
    c.record(1, false, Some(String::from("p2")));
    assert_eq!(c.first_incomplete_label(), Some("p1"));
    c.record(0, true, Some(String::from("p1")));
    assert_eq!(c.first_incomplete_label(), Some("p2"));
    c.record(1, true, Some(String::from("p2")));
    assert_eq!(c.first_incomplete_label(), None);
}

#[test]
fn unlabelled_incomplete_subtask_is_skipped() {
    let mut c = ConcurrentProgress::new(3);
    c.record(0, false, None);
    c.record(2, false, Some(String::from("third")));
    assert_eq!(c.first_incomplete_label(), Some("third"));
}

#[test]
fn finished_subtask_label_is_not_passed() {
    let mut c = ConcurrentProgress::new(2);
    c.record(0, true, Some(String::from("done")));
    assert_eq!(c.first_incomplete_label(), None);
    c.record(1, false, Some(String::from("")));
    assert_eq!(c.first_incomplete_label(), Some(""));
}

#[test]
fn record_replaces_previous_report() {
    let mut c = ConcurrentProgress::new(1);
    c.record(0, false, Some(String::from("a")));
    c.record(0, false, Some(String::from("b")));
    assert_eq!(c.first_incomplete_label(), Some("b"));
    c.record(0, false, None);
    assert_eq!(c.first_incomplete_label(), None);
}

fn assert_send_sync<T: Send + Sync>() {}

#[test]
fn library_types_are_send_sync() {
    assert_send_sync::<ConcurrentProgress>();
    assert_send_sync::<yield_progress::PortionLabel>();
    assert_send_sync::<yield_progress::BasicYieldNow>();
}
