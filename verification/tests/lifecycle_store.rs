use proof_jobs::job::{JobState, JobStatus, ProofResponse};
use proof_jobs::lifecycle::{
    accepted_response, apply_outcome, not_found_response, submit, PublicInputs,
};
use proof_jobs::invoker::ProofAndSalt;
use proof_jobs::store::JobStore;

fn sample_inputs() -> PublicInputs {
    PublicInputs {
        birthdate_timestamp: 0,
        id_number: 1,
        expiry_date: 2,
        msghash: vec![],
        sig_r: vec![],
        sig_s: vec![],
        pub_key: vec![],
        current_timestamp: "0".to_string(),
    }
}

// A stand-in for the external computation: ignores the inputs and hands back
// a fixed outcome, as the real run would through `apply_outcome`.
fn stub_outcome(_inputs: &PublicInputs, outcome: Result<(&str, &str), &str>) -> Result<ProofAndSalt, String> {
    match outcome {
        Ok((proof, salt)) => Ok(ProofAndSalt { proof: proof.to_string(), salt: salt.to_string() }),
        Err(e) => Err(e.to_string()),
    }
}

#[test]
fn submit_returns_pending_immediately() {
    let mut store = JobStore::new();
    let id = submit(&mut store);
    assert_eq!(id.len(), 36);
    let job = store.lookup(&id).expect("job must be filed at submission");
    assert_eq!(job.state, JobState::Pending);
    assert!(job.proof.is_none());
    assert!(job.error.is_none());
}

#[test]
fn accepted_response_carries_id_and_pending() {
    let r = accepted_response("some-id".to_string());
    assert_eq!(r.job_id, "some-id");
    assert_eq!(r.status, "pending");
}

#[test]
fn lookup_unknown_id_is_not_found() {
    let store = JobStore::new();
    assert!(store.lookup(&"no-such-id".to_string()).is_none());
    let r = not_found_response();
    assert_eq!(r.error, "Job not found");
    assert_eq!(r.status, "not_found");
}

#[test]
fn scenario_success_reaches_completed() {
    let mut store = JobStore::new();
    let inputs = sample_inputs();
    let id = submit(&mut store);
    let outcome = stub_outcome(&inputs, Ok(("PROOF123", "S1")));
    apply_outcome(&mut store, &id, outcome);
    let job = store.lookup(&id).expect("job still filed");
    assert_eq!(job.state, JobState::Completed);
    let payload = job.proof.expect("completed job carries the result");
    assert_eq!(payload.proof, "PROOF123");
    assert_eq!(payload.id, "S1");
    assert_eq!(payload.status, "success");
    assert!(job.error.is_none());
}

#[test]
fn scenario_failure_reaches_failed() {
    let mut store = JobStore::new();
    let inputs = sample_inputs();
    let id = submit(&mut store);
    let outcome = stub_outcome(&inputs, Err("wasm not found"));
    apply_outcome(&mut store, &id, outcome);
    let job = store.lookup(&id).expect("job still filed");
    assert_eq!(job.state, JobState::Failed);
    assert_eq!(job.error.expect("failed job carries the diagnostic"), "wasm not found");
    assert!(job.proof.is_none());
}

#[test]
fn terminal_state_never_changes() {
    let mut store = JobStore::new();
    let id = submit(&mut store);
    apply_outcome(&mut store, &id, Ok(ProofAndSalt { proof: "P".to_string(), salt: "S".to_string() }));

    let first = store.lookup(&id).unwrap();
    let second = store.lookup(&id).unwrap();
    assert_eq!(first.state, second.state);
    assert_eq!(first.proof.as_ref().unwrap().proof, second.proof.as_ref().unwrap().proof);

    // A late failure report against the completed job is a no-op.
    apply_outcome(&mut store, &id, Err("too late".to_string()));
    let third = store.lookup(&id).unwrap();
    assert_eq!(third.state, JobState::Completed);
    assert!(third.error.is_none());
    assert_eq!(third.proof.unwrap().proof, "P");

    // So is a second, different completion report.
    store.complete(&id, ProofResponse::new("OTHER".to_string(), "S2".to_string()));
    let fourth = store.lookup(&id).unwrap();
    assert_eq!(fourth.proof.unwrap().proof, "P");
}

#[test]
fn exactly_one_payload_per_state() {
    let pending = JobStatus::pending();
    assert!(pending.proof.is_none() && pending.error.is_none());

    let done = JobStatus::completed(ProofResponse::new("p".to_string(), "s".to_string()));
    assert!(done.proof.is_some() && done.error.is_none());

    let failed = JobStatus::failed("boom".to_string());
    assert!(failed.proof.is_none() && failed.error.is_some());
}

#[test]
fn status_text_labels() {
    assert_eq!(JobStatus::pending().status_text(), "pending");
    let done = JobStatus::completed(ProofResponse::new("p".to_string(), "s".to_string()));
    assert_eq!(done.status_text(), "completed");
    assert_eq!(JobStatus::failed("e".to_string()).status_text(), "failed");
}

#[test]
fn janitor_sweeps_terminal_keeps_pending() {
    let mut store = JobStore::new();
    let done_id = submit(&mut store);
    let failed_id = submit(&mut store);
    let pending_id = submit(&mut store);
    apply_outcome(
        &mut store,
        &done_id,
        Ok(ProofAndSalt { proof: "P".to_string(), salt: "S".to_string() }),
    );
    apply_outcome(&mut store, &failed_id, Err("nope".to_string()));

    store.sweep();

    assert!(store.lookup(&done_id).is_none());
    assert!(store.lookup(&failed_id).is_none());
    let kept = store.lookup(&pending_id).expect("pending job survives the sweep");
    assert_eq!(kept.state, JobState::Pending);
}

#[test]
fn sweep_on_empty_store_is_harmless() {
    let mut store = JobStore::new();
    store.sweep();
    assert!(store.lookup(&"anything".to_string()).is_none());
}

#[test]
fn completion_after_sweep_is_lost_update() {
    let mut store = JobStore::new();
    let id = submit(&mut store);
    apply_outcome(&mut store, &id, Err("early failure".to_string()));
    store.sweep();
    // The janitor removed the entry; a late report must not resurrect it.
    apply_outcome(&mut store, &id, Ok(ProofAndSalt { proof: "P".to_string(), salt: "S".to_string() }));
    assert!(store.lookup(&id).is_none());
}

#[test]
fn fifty_jobs_are_distinct_and_independent() {
    let mut store = JobStore::new();
    let mut ids: Vec<String> = Vec::new();
    for _ in 0..50 {
        ids.push(submit(&mut store));
    }

    let mut unique: std::collections::HashSet<String> = std::collections::HashSet::new();
    for id in &ids {
        assert!(unique.insert(id.clone()), "job ids must be distinct");
        assert_eq!(store.lookup(id).unwrap().state, JobState::Pending);
    }

    // Settle the jobs in a scrambled order, each with its own outcome.
    let mut order: Vec<usize> = (0..50).collect();
    order.reverse();
    order.rotate_left(13);
    for &i in &order {
        if i % 2 == 0 {
            let salt = format!("salt-{}", i);
            let proof = format!("proof-{}", i);
            apply_outcome(&mut store, &ids[i], Ok(ProofAndSalt { proof, salt }));
        } else {
            apply_outcome(&mut store, &ids[i], Err(format!("error-{}", i)));
        }
    }

    // Every job reached exactly the terminal state of its own outcome.
    for i in 0..50 {
        let job = store.lookup(&ids[i]).unwrap();
        if i % 2 == 0 {
            assert_eq!(job.state, JobState::Completed);
            let payload = job.proof.unwrap();
            assert_eq!(payload.proof, format!("proof-{}", i));
            assert_eq!(payload.id, format!("salt-{}", i));
            assert!(job.error.is_none());
        } else {
            assert_eq!(job.state, JobState::Failed);
            assert_eq!(job.error.unwrap(), format!("error-{}", i));
            assert!(job.proof.is_none());
        }
    }
}
