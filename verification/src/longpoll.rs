//! The long-poll retrieval discipline: a bounded, suspending wait for a
//! job's terminal state, with periodic keep-alives.
//!
//! The request path repeats a step: observe the job's record, and either
//! answer with its terminal state, give up with a timeout once the attempt
//! budget is spent, or spend one attempt and suspend until the next poll —
//! emitting a keep-alive signal on the open connection whenever too long has
//! passed since the last one, without abandoning the wait. The suspension
//! itself (a timer sleep between attempts) is the surrounding process's
//! business; every decision is made here.

use vstd::prelude::*;

use crate::job::{JobState, JobStatus};

verus! {

/// How many poll attempts one long-poll request may spend.
pub const POLL_BUDGET: u64 = 60;

/// How many time-units may pass since the last keep-alive before the next
/// one is due.
pub const KEEP_ALIVE_INTERVAL: u64 = 20;

/// The progress of one long-poll request.
#[derive(Clone, Copy, PartialEq, Eq, Structural, Debug)]
pub struct PollState {
    pub attempts_left: u64,
    pub since_keep_alive: u64,
}

/// What one poll step tells the request path to do next.
#[derive(Debug)]
pub enum PollDecision {
    /// The job is terminal: answer with this record.
    Finish(JobStatus),
    /// Emit a keep-alive signal on the connection, suspend, poll again.
    KeepAlive,
    /// The attempt budget is spent: answer with a timeout error.
    Timeout,
    /// Suspend, poll again.
    Wait,
}

/// A terminal record was observed.
pub open spec fn terminal_seen(current: Option<&JobStatus>) -> bool {
    match current {
        Some(j) => j.state != JobState::Pending,
        None => false,
    }
}

/// The state after one attempt is spent: one fewer attempt, and the
/// keep-alive clock either advanced or reset.
pub open spec fn spent_attempt(s: PollState) -> PollState
    recommends
        s.attempts_left > 0,
{
    PollState {
        attempts_left: (s.attempts_left - 1) as u64,
        since_keep_alive: if s.since_keep_alive >= KEEP_ALIVE_INTERVAL {
            0
        } else {
            (s.since_keep_alive + 1) as u64
        },
    }
}

impl PollState {
    /// A fresh request: the full budget, keep-alive clock at zero.
    pub fn start() -> (s: PollState)
        ensures
            s == (PollState { attempts_left: POLL_BUDGET, since_keep_alive: 0 }),
    {
        PollState { attempts_left: POLL_BUDGET, since_keep_alive: 0 }
    }

    /// One poll step, deciding from the observed record: finish on a
    /// terminal record, time out once the budget is spent, otherwise spend
    /// one attempt — with a keep-alive when one is due.
    pub fn step(&mut self, current: Option<&JobStatus>) -> (d: PollDecision)
        ensures
            terminal_seen(current) ==> (match current {
                Some(j) => d matches PollDecision::Finish(f) && f == *j,
                None => false,
            }) && *final(self) == *old(self),
            !terminal_seen(current) && old(self).attempts_left == 0 ==> (d matches
                PollDecision::Timeout) && *final(self) == *old(self),
            !terminal_seen(current) && old(self).attempts_left > 0 ==> *final(self) == spent_attempt(
                *old(self),
            ) && (if old(self).since_keep_alive >= KEEP_ALIVE_INTERVAL {
                d matches PollDecision::KeepAlive
            } else {
                d matches PollDecision::Wait
            }),
    {
        match current {
            Some(j) => {
                if j.state.is_terminal() {
                    return PollDecision::Finish(j.duplicate());
                }
            },
            None => {},
        }
        if self.attempts_left == 0 {
            return PollDecision::Timeout;
        }
        self.attempts_left = self.attempts_left - 1;
        if self.since_keep_alive >= KEEP_ALIVE_INTERVAL {
            self.since_keep_alive = 0;
            PollDecision::KeepAlive
        } else {
            self.since_keep_alive = self.since_keep_alive + 1;
            PollDecision::Wait
        }
    }
}

/// Whether the record a run observes at poll step `t` is terminal, for a
/// computation that turns terminal at step `completes_at` — or never, when
/// `completes_at` is `None`.
pub open spec fn stub_terminal(completes_at: Option<int>, t: int) -> bool {
    match completes_at {
        Some(n) => t >= n,
        None => false,
    }
}

/// How a long-poll run ends.
pub enum PollFinal {
    Finished,
    TimedOut,
}

/// The end of a long-poll run that starts at step `t` in state `s`, against
/// a computation that turns terminal at `completes_at`: the run of `step`
/// decisions, with every `Wait`/`KeepAlive` followed by the next step.
pub open spec fn poll_outcome(s: PollState, completes_at: Option<int>, t: int) -> PollFinal
    decreases s.attempts_left,
{
    if stub_terminal(completes_at, t) {
        PollFinal::Finished
    } else if s.attempts_left == 0 {
        PollFinal::TimedOut
    } else {
        poll_outcome(spent_attempt(s), completes_at, t + 1)
    }
}

/// A computation that turns terminal within the attempt budget is always
/// answered with its terminal result.
pub proof fn lemma_poll_finishes(s: PollState, n: int, t: int)
    requires
        t <= n <= t + s.attempts_left,
    ensures
        poll_outcome(s, Some(n), t) == PollFinal::Finished,
    decreases s.attempts_left,
{
    if !stub_terminal(Some(n), t) {
        lemma_poll_finishes(spent_attempt(s), n, t + 1);
    }
}

/// A computation that never turns terminal is always answered with a
/// timeout: the run ends, it cannot hang.
pub proof fn lemma_poll_times_out(s: PollState, t: int)
    ensures
        poll_outcome(s, None, t) == PollFinal::TimedOut,
    decreases s.attempts_left,
{
    if s.attempts_left > 0 {
        lemma_poll_times_out(spent_attempt(s), t + 1);
    }
}

} // verus!
