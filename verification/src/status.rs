//! The status record kept for one workflow execution.

use vstd::prelude::*;

verus! {

/// Mathematical model of a job's status record.
pub ghost struct JobStatusView {
    pub complete: bool,
    pub result: Option<Seq<char>>,
}

/// Status record for one job: `complete` stays `false` until the completion
/// callback arrives, and `result` carries the text payload recorded at that
/// transition.
pub struct JobStatus {
    pub complete: bool,
    pub result: Option<String>,
}

impl View for JobStatus {
    type V = JobStatusView;

    open spec fn view(&self) -> JobStatusView {
        JobStatusView {
            complete: self.complete,
            result: match self.result {
                Option::Some(s) => Option::Some(s@),
                Option::None => Option::None,
            },
        }
    }
}

impl JobStatusView {
    /// The record every job starts in: not complete, no result.
    pub open spec fn pending() -> JobStatusView {
        JobStatusView { complete: false, result: Option::None }
    }

    /// A record is well formed when it carries a result exactly if it is
    /// complete: `pending` has none, `complete` always has one.
    pub open spec fn well_formed(self) -> bool {
        self.complete <==> self.result is Some
    }

    /// The record after a completion callback carrying `text` reaches a job
    /// in state `self`: the first callback sets the result, and a record
    /// that is already complete is left untouched, so a recorded result is
    /// never overwritten.
    pub open spec fn after_callback(self, text: Seq<char>) -> JobStatusView {
        if self.complete {
            self
        } else {
            JobStatusView { complete: true, result: Option::Some(text) }
        }
    }
}

impl JobStatus {
    /// A fresh `pending` record.
    pub fn pending() -> (r: JobStatus)
        ensures
            r@ == JobStatusView::pending(),
    {
        JobStatus { complete: false, result: None }
    }

    /// An independent copy of this record.
    pub fn snapshot(&self) -> (r: JobStatus)
        ensures
            r@ == self@,
    {
        let result = match &self.result {
            Some(s) => Some(s.clone()),
            None => None,
        };
        JobStatus { complete: self.complete, result }
    }
}

/// A completed record stays complete and keeps its result, whatever later
/// callbacks carry: applying a second callback is a no-op.
pub proof fn lemma_callback_idempotent(st: JobStatusView, first: Seq<char>, second: Seq<char>)
    ensures
        st.after_callback(first).after_callback(second) == st.after_callback(first),
{
}

/// `complete` is terminal: a callback always leaves the record complete, and
/// a record that is already complete is left exactly as it is, result
/// included. Callbacks preserve well-formedness.
pub proof fn lemma_complete_is_terminal(st: JobStatusView, text: Seq<char>)
    ensures
        st.after_callback(text).complete,
        st.complete ==> st.after_callback(text) == st,
        st.well_formed() ==> st.after_callback(text).well_formed(),
{
}

} // verus!
