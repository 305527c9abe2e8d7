use std::collections::HashSet;

use watch_adapter::adapter::Adapter;
use watch_adapter::event::{EventKind, FilterPolicy, Notification, ObservationError, Poll};
use watch_adapter::forward::forwarded_events;

fn ok_batch(paths: Vec<&str>, kind: EventKind) -> Result<Notification, ObservationError> {
    Ok(Notification { paths: paths.into_iter().map(String::from).collect(), kind })
}

fn err_input(detail: &str) -> Result<Notification, ObservationError> {
    Err(ObservationError { detail: String::from(detail) })
}

#[test]
fn forwards_modify_batch_in_order() {
    let evs = forwarded_events(&ok_batch(vec!["/a", "/b"], EventKind::Modify), FilterPolicy::ForwardAll);
    assert_eq!(evs.len(), 2);
    assert_eq!(evs[0].path, "/a");
    assert_eq!(evs[0].kind, EventKind::Modify);
    assert_eq!(evs[1].path, "/b");
    assert_eq!(evs[1].kind, EventKind::Modify);
}

#[test]
fn forward_all_keeps_every_kind() {
    for kind in [EventKind::Create, EventKind::Modify, EventKind::Remove, EventKind::Other] {
        let evs = forwarded_events(&ok_batch(vec!["/p"], kind), FilterPolicy::ForwardAll);
        assert_eq!(evs.len(), 1);
        assert_eq!(evs[0].kind, kind);
    }
}

#[test]
fn modify_only_discards_other_kinds() {
    for kind in [EventKind::Create, EventKind::Remove, EventKind::Other] {
        let evs = forwarded_events(&ok_batch(vec!["/p"], kind), FilterPolicy::ModifyOnly);
        assert_eq!(evs.len(), 0);
    }
    let kept = forwarded_events(&ok_batch(vec!["/p"], EventKind::Modify), FilterPolicy::ModifyOnly);
    assert_eq!(kept.len(), 1);
}

#[test]
fn observation_error_forwards_nothing() {
    for policy in [FilterPolicy::ForwardAll, FilterPolicy::ModifyOnly] {
        let evs = forwarded_events(&err_input("watch backend failure"), policy);
        assert_eq!(evs.len(), 0);
    }
}

#[test]
fn fifo_order_within_and_across_batches() {
    let mut a = Adapter::new(FilterPolicy::ForwardAll);
    a.deliver(&ok_batch(vec!["/one", "/two"], EventKind::Create));
    a.deliver(&ok_batch(vec!["/three"], EventKind::Modify));
    let expected = [("/one", EventKind::Create), ("/two", EventKind::Create), ("/three", EventKind::Modify)];
    for (path, kind) in expected {
        match a.try_receive() {
            Poll::Event(e) => {
                assert_eq!(e.path, path);
                assert_eq!(e.kind, kind);
            },
            _ => panic!("expected a pending event for {}", path),
        }
    }
    assert!(matches!(a.try_receive(), Poll::Empty));
}

#[test]
fn no_false_positives_under_modify_only() {
    let mut a = Adapter::new(FilterPolicy::ModifyOnly);
    a.deliver(&ok_batch(vec!["/c"], EventKind::Create));
    a.deliver(&ok_batch(vec!["/m"], EventKind::Modify));
    a.deliver(&ok_batch(vec!["/r"], EventKind::Remove));
    a.deliver(&err_input("transient failure"));
    let mut seen: Vec<(String, EventKind)> = Vec::new();
    loop {
        match a.try_receive() {
            Poll::Event(e) => seen.push((e.path, e.kind)),
            Poll::Empty => break,
            Poll::Closed => panic!("queue must still be open"),
        }
    }
    assert_eq!(seen.len(), 1);
    assert_eq!(seen[0].0, "/m");
    assert_eq!(seen[0].1, EventKind::Modify);
}

#[test]
fn post_cancellation_silence() {
    let mut a = Adapter::new(FilterPolicy::ForwardAll);
    a.deliver(&ok_batch(vec!["/kept"], EventKind::Modify));
    a.stop();
    a.deliver(&ok_batch(vec!["/dropped"], EventKind::Modify));
    match a.try_receive() {
        Poll::Event(e) => assert_eq!(e.path, "/kept"),
        _ => panic!("the pending event must survive cancellation"),
    }
    assert!(matches!(a.try_receive(), Poll::Closed));
    assert!(matches!(a.try_receive(), Poll::Closed));
}

#[test]
fn empty_open_polls_return_empty() {
    let mut a = Adapter::new(FilterPolicy::ForwardAll);
    for _ in 0..100 {
        assert!(matches!(a.try_receive(), Poll::Empty));
    }
    a.stop();
    assert!(matches!(a.try_receive(), Poll::Closed));
}

#[test]
fn coverage_of_1500_watched_paths() {
    let total: usize = 1500;
    let mut a = Adapter::new(FilterPolicy::ModifyOnly);
    let mut expected: HashSet<String> = HashSet::new();
    for i in 1..=total {
        let path = format!("/tmp/dir_{}/file", i);
        expected.insert(path.clone());
        a.deliver(&Ok(Notification { paths: vec![path], kind: EventKind::Modify }));
    }
    loop {
        match a.try_receive() {
            Poll::Event(e) => {
                assert_eq!(e.kind, EventKind::Modify);
                expected.remove(&e.path);
            },
            Poll::Empty => break,
            Poll::Closed => panic!("queue must still be open"),
        }
    }
    assert_eq!(expected.len(), 0, "{}/{} file paths not observed", expected.len(), total);
}
