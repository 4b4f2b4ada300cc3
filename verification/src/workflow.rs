//! Starting a workflow execution: request construction and the recording of
//! its outcome.
//!
//! The actual network call to the workflow engine is made by the surrounding
//! application, strictly between the two functions here: first the request is
//! built (and an empty identifier rejected before anything is sent), then the
//! engine's answer is turned into a response and, on success only, into a
//! fresh `pending` registry entry.

use vstd::prelude::*;

use crate::jobid::job_id_of_handle;
use crate::jobid::spec_job_id_of;
use crate::registry::JobRegistry;
use crate::status::JobStatusView;
use crate::upload::bucket_uri;
use crate::upload::spec_bucket_uri;

verus! {

/// The state machine every execution is started on.
pub open spec fn spec_state_machine_id() -> Seq<char> {
    "arn:aws:states:us-east-1:718203338152:stateMachine:transcribe"@
}

/// Bad or missing input, answered with a client error and never retried.
#[derive(Debug)]
pub enum ValidationError {
    EmptyObjectIdentifier,
}

/// Everything the workflow engine needs to start one execution.
pub struct WorkflowRequest {
    pub input_locator: String,
    pub state_machine: String,
}

/// What the workflow engine answered when asked to start an execution.
pub enum TriggerOutcome {
    /// The engine accepted and named the execution by this opaque handle.
    Accepted { handle: String },
    /// The engine answered with a non-success status code.
    Rejected { status_code: u16 },
    /// The engine could not be reached at all.
    Unreachable { detail: String },
}

/// The response to a process request whose trigger call was made.
pub enum ProcessResponse {
    /// Processing started; poll under `process_id`.
    Started { message: String, process_id: String },
    /// Server error: the engine rejected the start request.
    TriggerRejected { status_code: u16 },
    /// Server error: the engine was unreachable.
    TriggerUnreachable { detail: String },
}

/// Build the start request for `object_identifier`, or reject an empty
/// identifier before any network call is made.
pub fn build_workflow_request(object_identifier: &str) -> (r: Result<
    WorkflowRequest,
    ValidationError,
>)
    ensures
        match r {
            Ok(req) => object_identifier@.len() > 0 && req.input_locator@ == spec_bucket_uri(
                object_identifier@,
            ) && req.state_machine@ == spec_state_machine_id(),
            Err(e) => object_identifier@.len() == 0 && e == ValidationError::EmptyObjectIdentifier,
        },
{
    if object_identifier.unicode_len() == 0 {
        return Err(ValidationError::EmptyObjectIdentifier);
    }
    let input_locator = bucket_uri(object_identifier);
    let state_machine = String::from_str(
        "arn:aws:states:us-east-1:718203338152:stateMachine:transcribe",
    );
    Ok(WorkflowRequest { input_locator, state_machine })
}

/// The execution was started under `handle`: derive its job identifier and
/// track the job as `pending`. Execution handles are globally unique, so the
/// identifier is expected fresh; should it collide after all, the existing
/// record is kept — a tracked job never reverts to `pending`.
pub fn record_started(registry: &mut JobRegistry, handle: &str) -> (job_id: String)
    requires
        old(registry).wf(),
    ensures
        final(registry).wf(),
        job_id@ == spec_job_id_of(handle@),
        !old(registry)@.contains_key(spec_job_id_of(handle@)) ==> final(registry)@ == old(registry)@.insert(spec_job_id_of(handle@), JobStatusView::pending()),
        old(registry)@.contains_key(spec_job_id_of(handle@)) ==> final(registry)@ == old(registry)@,
{
    let job_id = job_id_of_handle(handle);
    if !registry.contains(&job_id) {
        registry.register(job_id.clone());
    }
    job_id
}

/// Turn the engine's answer into the process response. Only an accepted
/// start touches the registry — a new `pending` entry under the identifier
/// derived from the handle; on any failure the registry is left exactly as
/// it was, with no partial entry.
pub fn handle_trigger_outcome(registry: &mut JobRegistry, outcome: TriggerOutcome) -> (r:
    ProcessResponse)
    requires
        old(registry).wf(),
    ensures
        final(registry).wf(),
        match r {
            ProcessResponse::Started { message, process_id } => outcome
                matches TriggerOutcome::Accepted { handle } && process_id@ == spec_job_id_of(
                handle@,
            ) && message@ == "Processing started"@ && (!old(registry)@.contains_key(
                spec_job_id_of(handle@),
            ) ==> final(registry)@ == old(registry)@.insert(
                spec_job_id_of(handle@),
                JobStatusView::pending(),
            )) && (old(registry)@.contains_key(spec_job_id_of(handle@)) ==> final(registry)@
                == old(registry)@),
            ProcessResponse::TriggerRejected { status_code } => outcome
                matches TriggerOutcome::Rejected { status_code: c } && status_code == c && final(registry)@ == old(registry)@,
            ProcessResponse::TriggerUnreachable { detail } => outcome
                matches TriggerOutcome::Unreachable { detail: d } && detail@ == d@ && final(registry)@ == old(registry)@,
        },
{
    match outcome {
        TriggerOutcome::Accepted { handle } => {
            let process_id = record_started(registry, handle.as_str());
            ProcessResponse::Started {
                message: String::from_str("Processing started"),
                process_id,
            }
        },
        TriggerOutcome::Rejected { status_code } => ProcessResponse::TriggerRejected {
            status_code,
        },
        TriggerOutcome::Unreachable { detail } => ProcessResponse::TriggerUnreachable { detail },
    }
}

} // verus!
