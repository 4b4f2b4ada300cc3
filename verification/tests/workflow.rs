use transcribe_core::handlers::{
    handle_callback, handle_status, CallbackResponse, StatusQueryResponse,
};
use transcribe_core::jobid::job_id_of_handle;
use transcribe_core::registry::JobRegistry;
use transcribe_core::upload::stage_file;
use transcribe_core::workflow::{
    build_workflow_request, handle_trigger_outcome, ProcessResponse, TriggerOutcome,
    ValidationError,
};

#[test]
fn job_id_is_the_segment_after_the_last_colon() {
    assert_eq!(
        job_id_of_handle("arn:aws:states:us-east-1:718203338152:execution:transcribe:run-42"),
        "run-42"
    );
    assert_eq!(job_id_of_handle("a:b:c"), "c");
}

#[test]
fn job_id_of_handle_without_colon_is_the_whole_handle() {
    assert_eq!(job_id_of_handle("plain-handle"), "plain-handle");
}

#[test]
fn job_id_of_handle_ending_in_colon_is_empty() {
    assert_eq!(job_id_of_handle("ends:"), "");
    assert_eq!(job_id_of_handle(""), "");
}

#[test]
fn request_for_clip_names_locator_and_state_machine() {
    let req = build_workflow_request("clip.mp4").expect("a non-empty identifier is accepted");
    assert_eq!(req.input_locator, "s3://transcribe-ids721/clip.mp4");
    assert_eq!(
        req.state_machine,
        "arn:aws:states:us-east-1:718203338152:stateMachine:transcribe"
    );
}

#[test]
fn empty_identifier_is_rejected_before_any_trigger_call() {
    let r = build_workflow_request("");
    assert!(matches!(r, Err(ValidationError::EmptyObjectIdentifier)));
}

#[test]
fn accepted_trigger_registers_one_pending_job() {
    let mut reg = JobRegistry::new();
    let outcome = TriggerOutcome::Accepted {
        handle: "arn:aws:states:us-east-1:718203338152:execution:transcribe:run-42".to_string(),
    };
    match handle_trigger_outcome(&mut reg, outcome) {
        ProcessResponse::Started { message, process_id } => {
            assert_eq!(message, "Processing started");
            assert_eq!(process_id, "run-42");
        }
        _ => panic!("an accepted trigger starts processing"),
    }
    assert_eq!(reg.len(), 1);
    match handle_status(&reg, Some(&"run-42".to_string())) {
        StatusQueryResponse::Found { status } => {
            assert!(!status.complete);
            assert!(status.result.is_none());
        }
        _ => panic!("the started job is tracked"),
    }
}

#[test]
fn full_lifecycle_from_upload_to_completion() {
    let staged = stage_file("demo", "clip.mp4").expect("a valid media file is accepted");
    assert_eq!(staged.object_key, "uploads/demo/clip.mp4");

    let req = build_workflow_request(&staged.object_key).expect("the key is non-empty");
    assert_eq!(req.input_locator, "s3://transcribe-ids721/uploads/demo/clip.mp4");

    let mut reg = JobRegistry::new();
    let handle = "arn:aws:states:us-east-1:718203338152:execution:transcribe:run-7".to_string();
    let id = match handle_trigger_outcome(&mut reg, TriggerOutcome::Accepted { handle }) {
        ProcessResponse::Started { process_id, .. } => process_id,
        _ => panic!("the engine accepted"),
    };
    assert_eq!(id, "run-7");

    match handle_status(&reg, Some(&id)) {
        StatusQueryResponse::Found { status } => assert!(!status.complete),
        _ => panic!("the started job is tracked"),
    }

    match handle_callback(&mut reg, &id, "transcript text".to_string()) {
        CallbackResponse::Success { data } => assert_eq!(data, "transcript text"),
        CallbackResponse::UnknownJob => panic!("the job is tracked"),
    }

    match handle_status(&reg, Some(&id)) {
        StatusQueryResponse::Found { status } => {
            assert!(status.complete);
            assert_eq!(status.result.as_deref(), Some("transcript text"));
        }
        _ => panic!("the completed job is tracked"),
    }
}

#[test]
fn rejected_trigger_leaves_the_registry_untouched() {
    let mut reg = JobRegistry::new();
    match handle_trigger_outcome(&mut reg, TriggerOutcome::Rejected { status_code: 502 }) {
        ProcessResponse::TriggerRejected { status_code } => assert_eq!(status_code, 502),
        _ => panic!("a rejected trigger is a server error"),
    }
    assert_eq!(reg.len(), 0);
}

#[test]
fn unreachable_trigger_leaves_the_registry_untouched() {
    let mut reg = JobRegistry::new();
    let outcome = TriggerOutcome::Unreachable { detail: "connection refused".to_string() };
    match handle_trigger_outcome(&mut reg, outcome) {
        ProcessResponse::TriggerUnreachable { detail } => {
            assert_eq!(detail, "connection refused")
        }
        _ => panic!("an unreachable engine is a server error"),
    }
    assert_eq!(reg.len(), 0);
}
