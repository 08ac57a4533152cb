//! The job lifecycle manager: identity generation, submission, and the
//! single terminal write.
//!
//! `submit` files a fresh `Pending` record and returns at once with the new
//! identity — it never waits on the computation, which the surrounding
//! process schedules concurrently. When that run ends, `apply_outcome`
//! performs the one write that moves the record to its terminal state. A
//! record that is already terminal, or already swept, is left as it is.

use vstd::prelude::*;

use crate::invoker::ProofAndSalt;
use crate::job::{pending_view, JobStatusView, ProofResponse, ProofResponseView};
use crate::store::{complete_effect, fail_effect, JobStore};
use crate::trusted::fresh_uuid;

verus! {

/// The caller-supplied computation parameters. The orchestration layer does
/// not interpret them; they are forwarded whole to the computation run.
#[derive(Clone, Debug)]
pub struct PublicInputs {
    pub birthdate_timestamp: u64,
    pub id_number: u64,
    pub expiry_date: u64,
    pub msghash: Vec<String>,
    pub sig_r: Vec<String>,
    pub sig_s: Vec<String>,
    pub pub_key: Vec<Vec<String>>,
    pub current_timestamp: String,
}

/// What a submission call answers: the new job's identity and the fixed
/// `"pending"` marker.
#[derive(Debug)]
pub struct GenerateProofResponse {
    pub job_id: String,
    pub status: String,
}

/// What a status lookup answers for an identity the store does not hold.
#[derive(Debug)]
pub struct LookupFailure {
    pub error: String,
    pub status: String,
}

/// Files a new job: a fresh identity mapped to a `Pending` record, every
/// other record untouched. Returns the identity without waiting on any
/// computation.
pub fn submit(store: &mut JobStore) -> (id: String)
    requires
        old(store).wf(),
    ensures
        final(store).wf(),
        final(store)@ == old(store)@.insert(id@, pending_view()),
        id@.len() == 36,
{
    let id = fresh_uuid();
    store.insert_pending(&id);
    id
}

/// The immediate answer to a submission: its job identity, status
/// `"pending"`.
pub fn accepted_response(job_id: String) -> (r: GenerateProofResponse)
    ensures
        r.job_id@ == job_id@,
        r.status@ == "pending"@,
{
    GenerateProofResponse { job_id, status: String::from_str("pending") }
}

/// The answer to a status lookup of an unknown identity.
pub fn not_found_response() -> (r: LookupFailure)
    ensures
        r.error@ == "Job not found"@,
        r.status@ == "not_found"@,
{
    LookupFailure {
        error: String::from_str("Job not found"),
        status: String::from_str("not_found"),
    }
}

/// The success payload a finished run contributes to its job record.
pub open spec fn outcome_payload(a: &ProofAndSalt) -> ProofResponseView {
    ProofResponseView { proof: a.proof@, status: "success"@, id: a.salt@ }
}

/// The single terminal write for job `id`: a success outcome moves its
/// record to `Completed` with the proof and salt, a failure moves it to
/// `Failed` with the diagnostic — in either case only if the record is
/// still present and `Pending`.
pub fn apply_outcome(store: &mut JobStore, id: &String, outcome: Result<ProofAndSalt, String>)
    requires
        old(store).wf(),
    ensures
        final(store).wf(),
        outcome matches Ok(a) ==> final(store)@ == complete_effect(
            old(store)@,
            id@,
            outcome_payload(&a),
        ),
        outcome matches Err(e) ==> final(store)@ == fail_effect(old(store)@, id@, e@),
{
    match outcome {
        Ok(a) => {
            let payload = ProofResponse::new(a.proof, a.salt);
            store.complete(id, payload);
        },
        Err(e) => {
            store.fail(id, e);
        },
    }
}

/// The mapping after a batch of submissions, one insert per identity in
/// order.
pub open spec fn submit_all(
    m: Map<Seq<char>, JobStatusView>,
    ids: Seq<Seq<char>>,
) -> Map<Seq<char>, JobStatusView>
    decreases ids.len(),
{
    if ids.len() == 0 {
        m
    } else {
        submit_all(m, ids.drop_last()).insert(ids.last(), pending_view())
    }
}

proof fn lemma_contains_split(ids: Seq<Seq<char>>, k: Seq<char>)
    requires
        ids.len() > 0,
    ensures
        ids.contains(k) <==> (ids.drop_last().contains(k) || k == ids.last()),
{
    if ids.contains(k) {
        let i = choose|i: int| 0 <= i < ids.len() && ids[i] == k;
        if i < ids.len() - 1 {
            assert(ids.drop_last()[i] == k);
        }
    }
    if ids.drop_last().contains(k) {
        let i = choose|i: int| 0 <= i < ids.drop_last().len() && ids.drop_last()[i] == k;
        assert(ids[i] == k);
    }
    if k == ids.last() {
        assert(ids[ids.len() - 1] == k);
    }
}

/// Any batch of submissions files every submitted identity as `Pending` and
/// leaves every record under any other identity exactly as it was: the
/// submitted jobs are independent of each other and of everything already
/// in the store.
pub proof fn lemma_submissions_independent(m: Map<Seq<char>, JobStatusView>, ids: Seq<Seq<char>>)
    ensures
        forall|k: Seq<char>|
            #[trigger] submit_all(m, ids).dom().contains(k) <==> (m.dom().contains(k)
                || ids.contains(k)),
        forall|i: int|
            0 <= i < ids.len() ==> submit_all(m, ids)[#[trigger] ids[i]] == pending_view(),
        forall|k: Seq<char>|
            m.dom().contains(k) && !ids.contains(k) ==> #[trigger] submit_all(m, ids)[k] == m[k],
    decreases ids.len(),
{
    if ids.len() > 0 {
        lemma_submissions_independent(m, ids.drop_last());
        assert forall|k: Seq<char>| true implies (ids.contains(k) <==> (ids.drop_last().contains(k)
            || k == ids.last())) by {
            lemma_contains_split(ids, k);
        }
        assert forall|i: int| 0 <= i < ids.len() implies submit_all(m, ids)[#[trigger] ids[i]]
            == pending_view() by {
            if i < ids.len() - 1 {
                assert(ids.drop_last()[i] == ids[i]);
                assert(ids.drop_last().contains(ids[i]));
            }
        }
    }
}

/// A batch of pairwise-distinct fresh identities grows the store by exactly
/// the batch's size: K concurrent submissions file exactly K new jobs.
pub proof fn lemma_distinct_submission_count(
    m: Map<Seq<char>, JobStatusView>,
    ids: Seq<Seq<char>>,
)
    requires
        m.dom().finite(),
        forall|i: int, j: int| 0 <= i < j < ids.len() ==> ids[i] != ids[j],
        forall|i: int| 0 <= i < ids.len() ==> !m.dom().contains(#[trigger] ids[i]),
    ensures
        submit_all(m, ids).dom().finite(),
        submit_all(m, ids).dom().len() == m.dom().len() + ids.len(),
    decreases ids.len(),
{
    if ids.len() > 0 {
        let prefix = ids.drop_last();
        assert forall|i: int, j: int| 0 <= i < j < prefix.len() implies prefix[i] != prefix[j] by {
            assert(prefix[i] == ids[i]);
            assert(prefix[j] == ids[j]);
        }
        assert forall|i: int| 0 <= i < prefix.len() implies !m.dom().contains(
            #[trigger] prefix[i],
        ) by {
            assert(prefix[i] == ids[i]);
        }
        lemma_distinct_submission_count(m, prefix);
        assert(!submit_all(m, prefix).dom().contains(ids.last())) by {
            lemma_submissions_independent(m, prefix);
            if prefix.contains(ids.last()) {
                let i = choose|i: int| 0 <= i < prefix.len() && prefix[i] == ids.last();
                assert(ids[i] == ids[ids.len() - 1]);
            }
            assert(!m.dom().contains(ids[ids.len() - 1]));
        }
        assert(submit_all(m, ids).dom() =~= submit_all(m, prefix).dom().insert(ids.last()));
    }
}

} // verus!
