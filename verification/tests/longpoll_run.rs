use proof_jobs::job::{JobState, JobStatus, ProofResponse};
use proof_jobs::longpoll::{PollDecision, PollState, KEEP_ALIVE_INTERVAL, POLL_BUDGET};

fn terminal_job() -> JobStatus {
    JobStatus::completed(ProofResponse::new("P".to_string(), "S".to_string()))
}

// Drives the long-poll discipline against a stub that turns terminal after
// `completes_after` attempts (`None`: never), with no real sleeping.
// Returns the finishing decision and how many steps were taken.
fn drive(completes_after: Option<u64>) -> (PollDecision, u64) {
    let pending = JobStatus::pending();
    let done = terminal_job();
    let mut st = PollState::start();
    let mut steps: u64 = 0;
    loop {
        let current = match completes_after {
            Some(n) if steps >= n => Some(&done),
            _ => Some(&pending),
        };
        let d = st.step(current);
        steps += 1;
        match d {
            PollDecision::Finish(_) | PollDecision::Timeout => return (d, steps),
            PollDecision::KeepAlive | PollDecision::Wait => {
                assert!(steps <= 10 * POLL_BUDGET, "the poll loop must stay bounded");
            }
        }
    }
}

#[test]
fn poll_finishes_when_stub_completes_in_budget() {
    let (d, steps) = drive(Some(5));
    match d {
        PollDecision::Finish(j) => assert_eq!(j.state, JobState::Completed),
        _ => panic!("a job terminal within the budget must be answered with its result"),
    }
    assert_eq!(steps, 6);
}

#[test]
fn poll_finishes_at_once_when_already_terminal() {
    let (d, steps) = drive(Some(0));
    assert!(matches!(d, PollDecision::Finish(_)));
    assert_eq!(steps, 1);
}

#[test]
fn poll_times_out_when_stub_never_completes() {
    let (d, steps) = drive(None);
    assert!(matches!(d, PollDecision::Timeout));
    // The whole budget is spent, then the very next step gives up.
    assert_eq!(steps, POLL_BUDGET + 1);
}

#[test]
fn keep_alives_are_emitted_on_schedule() {
    let pending = JobStatus::pending();
    let mut st = PollState::start();
    let mut decisions: Vec<&'static str> = Vec::new();
    for _ in 0..POLL_BUDGET {
        match st.step(Some(&pending)) {
            PollDecision::KeepAlive => decisions.push("keep-alive"),
            PollDecision::Wait => decisions.push("wait"),
            _ => panic!("the budget is not spent yet"),
        }
    }
    // The keep-alive clock starts at zero, so the first keep-alive falls
    // after KEEP_ALIVE_INTERVAL waits, and the cadence then repeats.
    for (i, d) in decisions.iter().enumerate() {
        let due = (i as u64 + 1) % (KEEP_ALIVE_INTERVAL + 1) == 0;
        assert_eq!(*d == "keep-alive", due, "step {}", i);
    }
    assert!(decisions.iter().any(|d| *d == "keep-alive"));
}

#[test]
fn timed_out_poll_left_job_pending() {
    // The long-poll gives up on the request, not on the job: the record is
    // still pending in the store for later status polling.
    let mut store = proof_jobs::store::JobStore::new();
    let id = proof_jobs::lifecycle::submit(&mut store);
    let mut st = PollState::start();
    loop {
        let job = store.lookup(&id);
        match st.step(job.as_ref()) {
            PollDecision::Timeout => break,
            PollDecision::Finish(_) => panic!("nothing completed this job"),
            _ => {}
        }
    }
    assert_eq!(store.lookup(&id).unwrap().state, JobState::Pending);
}
