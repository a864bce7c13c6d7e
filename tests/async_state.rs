use octane::async_state::{
    failure_message, success_message, AsyncResult, AsyncState, ErrorText, LoadState, Trace,
};

#[test]
fn superseded_ticket_is_dropped_and_latest_commits() {
    let mut s: AsyncState<i32, String> = AsyncState::new();
    let t1 = s.start_load();
    let t2 = s.start_load();
    let r1 = s.apply(AsyncResult { ticket: t1, result: Ok(1) });
    assert!(r1.is_none());
    assert!(matches!(s.view(), LoadState::Loading { .. }));
    assert!(s.is_loading());
    let r2 = s.apply(AsyncResult { ticket: t2, result: Ok(2) });
    assert!(r2.is_some());
    assert!(matches!(s.view(), LoadState::Loaded(2)));
    assert!(!s.is_loading());
}

#[test]
fn tickets_strictly_increase() {
    let mut s: AsyncState<i32, String> = AsyncState::new();
    let mut last = 0u64;
    for _ in 0..10 {
        let t = s.start_load();
        assert!(t.generation() > last);
        last = t.generation();
    }
    assert_eq!(last, 10);
}

#[test]
fn stale_ticket_after_commit_leaves_state() {
    let mut s: AsyncState<i32, String> = AsyncState::new();
    let t1 = s.start_load();
    assert!(s.apply(AsyncResult { ticket: t1, result: Ok(5) }).is_some());
    assert!(s.apply(AsyncResult { ticket: t1, result: Ok(6) }).is_none());
    assert!(matches!(s.view(), LoadState::Loaded(5)));
}

#[test]
fn previous_value_retained_on_reload() {
    let mut s: AsyncState<i32, String> = AsyncState::new();
    let t = s.start_load();
    match s.view() {
        LoadState::Loading { prev, .. } => assert!(prev.is_none()),
        _ => panic!("not loading"),
    }
    s.apply(AsyncResult { ticket: t, result: Ok(7) });
    s.start_load();
    match s.view() {
        LoadState::Loading { prev, .. } => assert_eq!(*prev, Some(7)),
        _ => panic!("not loading"),
    }
    assert_eq!(s.view().value(), Some(&7));
    // A second reload keeps the value that was retained.
    s.start_load();
    assert_eq!(s.view().value(), Some(&7));
}

#[test]
fn error_result_and_reload_from_error() {
    let mut s: AsyncState<i32, String> = AsyncState::default();
    let t = s.start_load();
    s.apply(AsyncResult { ticket: t, result: Err("boom".to_string()) });
    assert_eq!(s.view().error(), Some(&"boom".to_string()));
    assert_eq!(s.view().value(), None);
    s.start_load();
    match s.view() {
        LoadState::Loading { prev, .. } => assert!(prev.is_none()),
        _ => panic!("not loading"),
    }
}

#[test]
fn apply_without_load_is_dropped() {
    let mut s: AsyncState<i32, String> = AsyncState::new();
    let mut other: AsyncState<i32, String> = AsyncState::new();
    let t = other.start_load();
    assert!(s.apply(AsyncResult { ticket: t, result: Ok(1) }).is_none());
    assert!(matches!(s.view(), LoadState::Idle));
}

#[test]
fn map_keeps_ticket() {
    let mut s: AsyncState<i32, String> = AsyncState::new();
    let t = s.start_load();
    let r: AsyncResult<i32, String> = AsyncResult { ticket: t, result: Ok(20) };
    let m = r.map(|v| v * 2);
    assert_eq!(m.ticket, t);
    assert_eq!(m.result, Ok(40));
    let e: AsyncResult<i32, String> = AsyncResult { ticket: t, result: Err("x".to_string()) };
    assert_eq!(e.map(|v| v + 1).result, Err("x".to_string()));
}

#[test]
fn apply_trace_reports_success_and_error() {
    let mut s: AsyncState<Vec<u8>, String> = AsyncState::new();
    let t = s.start_load();
    let trace = s.apply_trace(AsyncResult { ticket: t, result: Ok(vec![1, 2]) }, "Loaded", |v| {
        format!("{} items", v.len())
    });
    match trace {
        Some(Trace::Success(m)) => {
            assert!(m.starts_with("Loaded in "));
            assert!(m.ends_with(" (2 items)"));
        }
        _ => panic!("expected success"),
    }
    let t = s.start_load();
    let trace = s.apply_trace(AsyncResult { ticket: t, result: Err("bad".to_string()) }, "Loaded", |_| {
        String::new()
    });
    match trace {
        Some(Trace::Error(m)) => {
            assert!(m.starts_with("Loaded after "));
            assert!(m.ends_with(" (Error: bad)"));
        }
        _ => panic!("expected error"),
    }
    let trace = s.apply_trace(AsyncResult { ticket: t, result: Ok(vec![]) }, "Loaded", |_| String::new());
    assert!(trace.is_none());
}

#[test]
fn messages_are_exact() {
    assert_eq!(success_message("Devices", "1.50s", "3 devices"), "Devices in 1.50s (3 devices)");
    assert_eq!(failure_message("Devices", "2.00ms", "lost"), "Devices after 2.00ms (Error: lost)");
    assert_eq!("e".to_string().error_text(), "e");
}
