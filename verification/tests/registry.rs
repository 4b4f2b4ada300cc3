use transcribe_core::handlers::{handle_callback, handle_status, CallbackResponse, StatusQueryResponse};
use transcribe_core::registry::JobRegistry;

#[test]
fn register_then_read_is_pending() {
    let mut reg = JobRegistry::new();
    reg.register("job-1".to_string());
    let st = reg.read(&"job-1".to_string()).expect("a registered job must be readable");
    assert!(!st.complete);
    assert!(st.result.is_none());
}

#[test]
fn complete_unknown_id_is_not_found_and_changes_nothing() {
    let mut reg = JobRegistry::new();
    reg.register("known".to_string());
    let before = reg.len();
    let found = reg.complete(&"missing".to_string(), "text".to_string());
    assert!(!found);
    assert_eq!(reg.len(), before);
    let st = reg.read(&"known".to_string()).unwrap();
    assert!(!st.complete);
    assert!(st.result.is_none());
}

#[test]
fn contains_tracks_membership() {
    let mut reg = JobRegistry::new();
    assert!(!reg.contains(&"x".to_string()));
    reg.register("x".to_string());
    assert!(reg.contains(&"x".to_string()));
    assert!(!reg.contains(&"y".to_string()));
}

#[test]
fn complete_on_empty_registry_is_not_found() {
    let mut reg = JobRegistry::new();
    assert!(!reg.complete(&"anything".to_string(), "text".to_string()));
    assert_eq!(reg.len(), 0);
}

#[test]
fn second_complete_keeps_first_result() {
    let mut reg = JobRegistry::new();
    reg.register("job".to_string());
    assert!(reg.complete(&"job".to_string(), "first".to_string()));
    assert!(reg.complete(&"job".to_string(), "second".to_string()));
    let st = reg.read(&"job".to_string()).unwrap();
    assert!(st.complete);
    assert_eq!(st.result.as_deref(), Some("first"));
}

#[test]
fn distinct_registers_yield_distinct_pending_records() {
    let mut reg = JobRegistry::new();
    for i in 0..10 {
        reg.register(format!("job-{i}"));
    }
    assert_eq!(reg.len(), 10);
    for i in 0..10 {
        let st = reg.read(&format!("job-{i}")).expect("every registered job is present");
        assert!(!st.complete);
        assert!(st.result.is_none());
    }
}

#[test]
fn callback_for_registered_job_succeeds_and_echoes_result() {
    let mut reg = JobRegistry::new();
    reg.register("id-1".to_string());
    let resp = handle_callback(&mut reg, &"id-1".to_string(), "hello".to_string());
    match resp {
        CallbackResponse::Success { data } => assert_eq!(data, "hello"),
        CallbackResponse::UnknownJob => panic!("registered job must be found"),
    }
    match handle_status(&reg, Some(&"id-1".to_string())) {
        StatusQueryResponse::Found { status } => {
            assert!(status.complete);
            assert_eq!(status.result.as_deref(), Some("hello"));
        }
        _ => panic!("completed job must be found"),
    }
}

#[test]
fn callback_for_unknown_job_is_not_found_and_changes_nothing() {
    let mut reg = JobRegistry::new();
    reg.register("id-1".to_string());
    let before = reg.len();
    let resp = handle_callback(&mut reg, &"unknown-id".to_string(), "hello".to_string());
    assert!(matches!(resp, CallbackResponse::UnknownJob));
    assert_eq!(reg.len(), before);
    let st = reg.read(&"id-1".to_string()).unwrap();
    assert!(!st.complete);
}

#[test]
fn second_callback_echoes_stored_result() {
    let mut reg = JobRegistry::new();
    reg.register("id-1".to_string());
    let first = handle_callback(&mut reg, &"id-1".to_string(), "first".to_string());
    assert!(matches!(first, CallbackResponse::Success { .. }));
    match handle_callback(&mut reg, &"id-1".to_string(), "second".to_string()) {
        CallbackResponse::Success { data } => assert_eq!(data, "first"),
        CallbackResponse::UnknownJob => panic!("job is tracked"),
    }
}

#[test]
fn status_query_without_parameter_is_a_client_error() {
    let reg = JobRegistry::new();
    assert!(matches!(handle_status(&reg, None), StatusQueryResponse::MissingParameter));
}

#[test]
fn status_query_for_unknown_job_is_not_found() {
    let reg = JobRegistry::new();
    let resp = handle_status(&reg, Some(&"nobody".to_string()));
    assert!(matches!(resp, StatusQueryResponse::UnknownJob));
}

#[test]
fn pending_job_reads_as_incomplete_without_result() {
    let mut reg = JobRegistry::new();
    reg.register("p".to_string());
    match handle_status(&reg, Some(&"p".to_string())) {
        StatusQueryResponse::Found { status } => {
            assert!(!status.complete);
            assert!(status.result.is_none());
        }
        _ => panic!("pending job must be found"),
    }
}
