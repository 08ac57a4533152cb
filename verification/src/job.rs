//! The job data model: one tracked unit of asynchronous computation.
//!
//! A job is born `Pending` and makes at most one transition, to `Completed`
//! (carrying a success payload) or to `Failed` (carrying a diagnostic string).
//! Exactly one of the two payload fields is populated once the job is
//! terminal, and neither is populated while it is pending.

use vstd::prelude::*;

verus! {

/// Lifecycle state of one tracked job. `Pending` is the sole initial state;
/// `Completed` and `Failed` are terminal.
#[derive(Clone, Copy, PartialEq, Eq, Structural, Debug)]
pub enum JobState {
    Pending,
    Completed,
    Failed,
}

impl JobState {
    /// A terminal state allows no further transition.
    pub fn is_terminal(&self) -> (r: bool)
        ensures
            r == (*self != JobState::Pending),
    {
        match self {
            JobState::Pending => false,
            JobState::Completed => true,
            JobState::Failed => true,
        }
    }
}

/// The success payload attached to a completed job: the proof blob, a fixed
/// success marker, and the correlation salt under which the run's external
/// artifacts were named.
#[derive(Clone, Debug)]
pub struct ProofResponse {
    pub proof: String,
    pub status: String,
    pub id: String,
}

/// Mathematical image of a `ProofResponse`.
pub struct ProofResponseView {
    pub proof: Seq<char>,
    pub status: Seq<char>,
    pub id: Seq<char>,
}

impl View for ProofResponse {
    type V = ProofResponseView;

    open spec fn view(&self) -> ProofResponseView {
        ProofResponseView { proof: self.proof@, status: self.status@, id: self.id@ }
    }
}

impl ProofResponse {
    /// Builds the success payload for a finished run: the proof text and the
    /// correlation salt, with the fixed `"success"` marker.
    pub fn new(proof: String, salt: String) -> (r: ProofResponse)
        ensures
            r@.proof == proof@,
            r@.status == "success"@,
            r@.id == salt@,
    {
        ProofResponse { proof, status: String::from_str("success"), id: salt }
    }

    /// An exact copy, usable where the contract must relate the copy to its
    /// source (a derived `Clone` says nothing in contracts).
    pub fn duplicate(&self) -> (r: ProofResponse)
        ensures
            r == *self,
    {
        ProofResponse { proof: self.proof.clone(), status: self.status.clone(), id: self.id.clone() }
    }
}

/// One job record as the store keeps it: the lifecycle state plus the
/// payload of whichever terminal outcome was reached, if any.
#[derive(Clone, Debug)]
pub struct JobStatus {
    pub state: JobState,
    pub proof: Option<ProofResponse>,
    pub error: Option<String>,
}

/// Mathematical image of a `JobStatus`.
pub struct JobStatusView {
    pub state: JobState,
    pub proof: Option<ProofResponseView>,
    pub error: Option<Seq<char>>,
}

impl View for JobStatus {
    type V = JobStatusView;

    open spec fn view(&self) -> JobStatusView {
        JobStatusView {
            state: self.state,
            proof: match self.proof {
                Some(p) => Some(p@),
                None => None,
            },
            error: match self.error {
                Some(e) => Some(e@),
                None => None,
            },
        }
    }
}

impl JobStatusView {
    /// Well-formedness: the non-`Pending` states carry exactly one of the two
    /// payloads, and `Pending` carries neither.
    pub open spec fn wf(self) -> bool {
        match self.state {
            JobState::Pending => self.proof is None && self.error is None,
            JobState::Completed => self.proof is Some && self.error is None,
            JobState::Failed => self.proof is None && self.error is Some,
        }
    }
}

/// The record every job starts as.
pub open spec fn pending_view() -> JobStatusView {
    JobStatusView { state: JobState::Pending, proof: None, error: None }
}

/// The record of a job whose run succeeded with payload `p`.
pub open spec fn completed_view(p: ProofResponseView) -> JobStatusView {
    JobStatusView { state: JobState::Completed, proof: Some(p), error: None }
}

/// The record of a job whose run failed with diagnostic `e`.
pub open spec fn failed_view(e: Seq<char>) -> JobStatusView {
    JobStatusView { state: JobState::Failed, proof: None, error: Some(e) }
}

/// The transport label of each state.
pub open spec fn status_label(s: JobState) -> Seq<char> {
    match s {
        JobState::Pending => "pending"@,
        JobState::Completed => "completed"@,
        JobState::Failed => "failed"@,
    }
}

impl JobStatus {
    /// A fresh pending record.
    pub fn pending() -> (j: JobStatus)
        ensures
            j@ == pending_view(),
    {
        JobStatus { state: JobState::Pending, proof: None, error: None }
    }

    /// A completed record carrying the success payload.
    pub fn completed(p: ProofResponse) -> (j: JobStatus)
        ensures
            j@ == completed_view(p@),
    {
        JobStatus { state: JobState::Completed, proof: Some(p), error: None }
    }

    /// A failed record carrying the diagnostic string.
    pub fn failed(e: String) -> (j: JobStatus)
        ensures
            j@ == failed_view(e@),
    {
        JobStatus { state: JobState::Failed, proof: None, error: Some(e) }
    }

    /// The state's transport label (`"pending"`, `"completed"`, `"failed"`).
    pub fn status_text(&self) -> (r: String)
        ensures
            r@ == status_label(self.state),
    {
        match self.state {
            JobState::Pending => String::from_str("pending"),
            JobState::Completed => String::from_str("completed"),
            JobState::Failed => String::from_str("failed"),
        }
    }

    /// An exact copy of the record.
    pub fn duplicate(&self) -> (r: JobStatus)
        ensures
            r == *self,
    {
        JobStatus {
            state: self.state,
            proof: match &self.proof {
                Some(p) => Some(p.duplicate()),
                None => None,
            },
            error: match &self.error {
                Some(e) => Some(e.clone()),
                None => None,
            },
        }
    }
}

/// Exactly one of `proof`/`error` is populated on a well-formed record, and
/// only when the state is terminal.
pub proof fn lemma_exactly_one_payload(j: JobStatusView)
    requires
        j.wf(),
    ensures
        !(j.proof is Some && j.error is Some),
        j.state == JobState::Pending <==> (j.proof is None && j.error is None),
        j.state == JobState::Completed <==> j.proof is Some,
        j.state == JobState::Failed <==> j.error is Some,
{
}

} // verus!
