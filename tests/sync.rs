use ruma_client::sync::{SyncAction, SyncStream};

fn since(a: SyncAction) -> Option<String> {
    match a {
        SyncAction::Dispatch(s) => s,
        other => panic!("expected a dispatch, got {:?}", other),
    }
}

#[test]
fn stream_threads_tokens_then_stops_on_failure() {
    let mut s = SyncStream::new(None, true);
    assert_eq!(since(s.poll()), None);
    s.complete(Some("t1".to_string()));
    assert_eq!(since(s.poll()), Some("t1".to_string()));
    s.complete(Some("t2".to_string()));
    assert_eq!(since(s.poll()), Some("t2".to_string()));
    s.complete(None);
    assert!(s.is_exhausted());
    assert!(matches!(s.poll(), SyncAction::Exhausted));
    assert!(matches!(s.poll(), SyncAction::Exhausted));
}

#[test]
fn stream_resumes_from_given_token() {
    let mut s = SyncStream::new(Some("s0".to_string()), false);
    assert!(s.presence_offline());
    assert_eq!(since(s.poll()), Some("s0".to_string()));
}

#[test]
fn stream_has_one_call_in_flight() {
    let mut s = SyncStream::new(None, true);
    assert!(!s.presence_offline());
    assert_eq!(since(s.poll()), None);
    assert!(matches!(s.poll(), SyncAction::Busy));
    s.complete(Some("t1".to_string()));
    assert_eq!(since(s.poll()), Some("t1".to_string()));
}

#[test]
fn completion_without_call_changes_nothing() {
    let mut s = SyncStream::new(None, true);
    s.complete(None);
    assert!(!s.is_exhausted());
    assert_eq!(since(s.poll()), None);
}
