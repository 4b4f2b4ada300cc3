//! The callback and status handlers: each one registry step and its response.

use vstd::prelude::*;

use crate::registry::JobRegistry;
use crate::status::JobStatus;

verus! {

/// The response to a completion callback.
pub enum CallbackResponse {
    /// The job was found; `data` echoes the result now stored for it.
    Success { data: String },
    /// No job with this identifier is tracked; nothing was changed.
    UnknownJob,
}

/// Apply a completion callback: move the job to `complete` and echo the
/// stored result — the one just recorded, or, for a job that had already
/// completed, the original one, which is never overwritten. A callback for
/// an unknown job changes nothing and is answered distinctly.
pub fn handle_callback(registry: &mut JobRegistry, job_id: &String, text_result: String) -> (r:
    CallbackResponse)
    requires
        old(registry).wf(),
    ensures
        final(registry).wf(),
        match r {
            CallbackResponse::Success { data } => old(registry)@.contains_key(job_id@) && final(registry)@ == old(registry)@.insert(
                job_id@,
                old(registry)@[job_id@].after_callback(text_result@),
            ) && final(registry)@[job_id@].complete && final(registry)@[job_id@].result
                == Option::Some(data@),
            CallbackResponse::UnknownJob => !old(registry)@.contains_key(job_id@) && final(registry)@ == old(registry)@,
        },
{
    let found = registry.complete(job_id, text_result);
    if !found {
        return CallbackResponse::UnknownJob;
    }
    match registry.read(job_id) {
        Some(status) => match status.result {
            Some(data) => CallbackResponse::Success { data },
            None => unreached(),
        },
        None => unreached(),
    }
}

/// The response to a status query.
pub enum StatusQueryResponse {
    /// The query named no job identifier: a client error.
    MissingParameter,
    /// No job with this identifier is tracked.
    UnknownJob,
    /// The job's current record, complete or still pending.
    Found { status: JobStatus },
}

/// Serve a status read: a missing parameter is a client error, an unknown
/// identifier is not found, and otherwise the job's record is returned
/// verbatim as a consistent snapshot.
pub fn handle_status(registry: &JobRegistry, process_id: Option<&String>) -> (r:
    StatusQueryResponse)
    requires
        registry.wf(),
    ensures
        match r {
            StatusQueryResponse::MissingParameter => process_id is None,
            StatusQueryResponse::UnknownJob => process_id matches Some(id)
                && !registry@.contains_key(id@),
            StatusQueryResponse::Found { status } => process_id matches Some(id)
                && registry@.contains_key(id@) && status@ == registry@[id@]
                && status@.well_formed(),
        },
{
    match process_id {
        None => StatusQueryResponse::MissingParameter,
        Some(id) => match registry.read(id) {
            None => StatusQueryResponse::UnknownJob,
            Some(status) => StatusQueryResponse::Found { status },
        },
    }
}

} // verus!
