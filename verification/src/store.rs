//! The shared job store: a mutation-safe mapping from job identity to job
//! record.
//!
//! The store is the one shared mutable resource of the orchestration layer.
//! Callers take whole-store exclusive access for the duration of each
//! operation (the surrounding process wraps one store in a lock); each
//! operation's contract is stated over the store's view, a map from identity
//! to job record.
//!
//! The terminal writes (`complete`, `fail`) are guarded: they touch an entry
//! only while it is still `Pending`, so a late or duplicated completion
//! report cannot alter a terminal record, and a report against an entry the
//! janitor already removed is a no-op — the accepted lost-update tradeoff.

use vstd::prelude::*;

use crate::job::{
    completed_view, failed_view, pending_view, JobState, JobStatus, JobStatusView, ProofResponse,
    ProofResponseView,
};

verus! {

/// One stored record together with the identity it is filed under.
pub struct JobEntry {
    pub id: String,
    pub job: JobStatus,
}

/// No two entries are filed under the same identity.
pub open spec fn ids_unique(s: Seq<JobEntry>) -> bool {
    forall|i: int, j: int| 0 <= i < j < s.len() ==> s[i].id@ != s[j].id@
}

/// Some entry is filed under identity `k`.
pub open spec fn has_id(s: Seq<JobEntry>, k: Seq<char>) -> bool {
    exists|i: int| 0 <= i < s.len() && s[i].id@ == k
}

/// The position of the entry filed under `k` (meaningful when `has_id`).
pub open spec fn idx_of(s: Seq<JobEntry>, k: Seq<char>) -> int {
    choose|i: int| 0 <= i < s.len() && s[i].id@ == k
}

/// The mapping the entries represent.
pub open spec fn entries_view(s: Seq<JobEntry>) -> Map<Seq<char>, JobStatusView> {
    Map::new(|k: Seq<char>| has_id(s, k), |k: Seq<char>| s[idx_of(s, k)].job@)
}

proof fn lemma_idx_of(s: Seq<JobEntry>, k: Seq<char>)
    requires
        has_id(s, k),
    ensures
        0 <= idx_of(s, k) < s.len(),
        s[idx_of(s, k)].id@ == k,
{
}

proof fn lemma_idx_unique(s: Seq<JobEntry>, k: Seq<char>, i: int)
    requires
        ids_unique(s),
        0 <= i < s.len(),
        s[i].id@ == k,
    ensures
        idx_of(s, k) == i,
{
    lemma_idx_of(s, k);
}

proof fn lemma_view_push(s: Seq<JobEntry>, e: JobEntry)
    requires
        ids_unique(s),
        !has_id(s, e.id@),
    ensures
        ids_unique(s.push(e)),
        entries_view(s.push(e)) == entries_view(s).insert(e.id@, e.job@),
{
    let t = s.push(e);
    assert forall|i: int, j: int| 0 <= i < j < t.len() implies t[i].id@ != t[j].id@ by {
        if j < s.len() {
        } else {
            assert(t[i] == s[i]);
        }
    }
    assert forall|k: Seq<char>|
        entries_view(t).dom().contains(k) == entries_view(s).insert(
            e.id@,
            e.job@,
        ).dom().contains(k) by {
        if k == e.id@ {
            assert(t[s.len() as int].id@ == k);
        } else {
            if has_id(s, k) {
                let i = idx_of(s, k);
                lemma_idx_of(s, k);
                assert(t[i].id@ == k);
            }
            if has_id(t, k) {
                let i = idx_of(t, k);
                lemma_idx_of(t, k);
                assert(i < s.len());
                assert(s[i].id@ == k);
            }
        }
    }
    assert forall|k: Seq<char>| #[trigger] entries_view(t).dom().contains(k) implies entries_view(
        t,
    )[k] == entries_view(s).insert(e.id@, e.job@)[k] by {
        if k == e.id@ {
            lemma_idx_unique(t, k, s.len() as int);
        } else {
            let i = idx_of(s, k);
            lemma_idx_of(s, k);
            assert(t[i].id@ == k);
            lemma_idx_unique(t, k, i);
        }
    }
    assert(entries_view(t) =~= entries_view(s).insert(e.id@, e.job@));
}

proof fn lemma_view_update(s: Seq<JobEntry>, i: int, e: JobEntry)
    requires
        ids_unique(s),
        0 <= i < s.len(),
        s[i].id@ == e.id@,
    ensures
        ids_unique(s.update(i, e)),
        entries_view(s.update(i, e)) == entries_view(s).insert(e.id@, e.job@),
{
    let t = s.update(i, e);
    assert forall|p: int, q: int| 0 <= p < q < t.len() implies t[p].id@ != t[q].id@ by {
        assert(s[p].id@ != s[q].id@);
    }
    assert forall|k: Seq<char>|
        entries_view(t).dom().contains(k) == entries_view(s).insert(
            e.id@,
            e.job@,
        ).dom().contains(k) by {
        if k == e.id@ {
            assert(t[i].id@ == k);
        } else {
            if has_id(s, k) {
                let p = idx_of(s, k);
                lemma_idx_of(s, k);
                assert(p != i);
                assert(t[p].id@ == k);
            }
            if has_id(t, k) {
                let p = idx_of(t, k);
                lemma_idx_of(t, k);
                assert(p != i);
                assert(s[p].id@ == k);
            }
        }
    }
    assert forall|k: Seq<char>| #[trigger] entries_view(t).dom().contains(k) implies entries_view(
        t,
    )[k] == entries_view(s).insert(e.id@, e.job@)[k] by {
        if k == e.id@ {
            lemma_idx_unique(t, k, i);
        } else {
            let p = idx_of(s, k);
            lemma_idx_of(s, k);
            assert(p != i);
            assert(t[p].id@ == k);
            lemma_idx_unique(t, k, p);
        }
    }
    assert(entries_view(t) =~= entries_view(s).insert(e.id@, e.job@));
}

/// What a successful completion report does to the mapping: the entry moves
/// to `Completed` with payload `p` if it is present and still `Pending`;
/// otherwise nothing changes.
pub open spec fn complete_effect(
    m: Map<Seq<char>, JobStatusView>,
    k: Seq<char>,
    p: ProofResponseView,
) -> Map<Seq<char>, JobStatusView> {
    if m.dom().contains(k) && m[k].state == JobState::Pending {
        m.insert(k, completed_view(p))
    } else {
        m
    }
}

/// What a failure report does to the mapping: the entry moves to `Failed`
/// with diagnostic `e` if it is present and still `Pending`; otherwise
/// nothing changes.
pub open spec fn fail_effect(
    m: Map<Seq<char>, JobStatusView>,
    k: Seq<char>,
    e: Seq<char>,
) -> Map<Seq<char>, JobStatusView> {
    if m.dom().contains(k) && m[k].state == JobState::Pending {
        m.insert(k, failed_view(e))
    } else {
        m
    }
}

/// What a janitor sweep does to the mapping: every `Pending` entry stays,
/// every terminal entry is removed.
pub open spec fn sweep_effect(m: Map<Seq<char>, JobStatusView>) -> Map<
    Seq<char>,
    JobStatusView,
> {
    Map::new(
        |k: Seq<char>| m.dom().contains(k) && m[k].state == JobState::Pending,
        |k: Seq<char>| m[k],
    )
}

/// The shared mapping from job identity to job record.
pub struct JobStore {
    entries: Vec<JobEntry>,
}

impl View for JobStore {
    type V = Map<Seq<char>, JobStatusView>;

    closed spec fn view(&self) -> Map<Seq<char>, JobStatusView> {
        entries_view(self.entries@)
    }
}

impl JobStore {
    /// Identities are filed at most once and every record is well-formed.
    pub closed spec fn wf(&self) -> bool {
        &&& ids_unique(self.entries@)
        &&& forall|i: int|
            0 <= i < self.entries@.len() ==> (#[trigger] self.entries@[i].job@).wf()
    }

    /// The empty store, created once at process start.
    pub fn new() -> (s: JobStore)
        ensures
            s.wf(),
            s@ == Map::<Seq<char>, JobStatusView>::empty(),
    {
        let s = JobStore { entries: Vec::new() };
        proof {
            assert(s@ =~= Map::<Seq<char>, JobStatusView>::empty());
        }
        s
    }

    /// Files a fresh `Pending` record under `id`. An existing record under
    /// the same identity would be replaced, as a plain map insert; the
    /// lifecycle layer never reuses an identity.
    pub fn insert_pending(&mut self, id: &String)
        requires
            old(self).wf(),
        ensures
            final(self).wf(),
            final(self)@ == old(self)@.insert(id@, pending_view()),
    {
        let ghost s0 = self.entries@;
        let n = self.entries.len();
        let mut i: usize = 0;
        while i < n
            invariant
                n == self.entries.len(),
                self.entries@ == s0,
                old(self).wf(),
                s0 == old(self).entries@,
                i <= n,
                forall|j: int| 0 <= j < i ==> s0[j].id@ != id@,
            decreases n - i,
        {
            if self.entries[i].id == *id {
                let e = JobEntry { id: id.clone(), job: JobStatus::pending() };
                proof {
                    lemma_view_update(s0, i as int, e);
                }
                self.entries.set(i, e);
                return ;
            }
            i += 1;
        }
        let e = JobEntry { id: id.clone(), job: JobStatus::pending() };
        proof {
            lemma_view_push(s0, e);
        }
        self.entries.push(e);
    }

    /// Records a successful outcome for `id`: exactly the `complete_effect`
    /// on the mapping.
    pub fn complete(&mut self, id: &String, payload: ProofResponse)
        requires
            old(self).wf(),
        ensures
            final(self).wf(),
            final(self)@ == complete_effect(old(self)@, id@, payload@),
    {
        let ghost s0 = self.entries@;
        let n = self.entries.len();
        let mut i: usize = 0;
        while i < n
            invariant
                n == self.entries.len(),
                self.entries@ == s0,
                old(self).wf(),
                s0 == old(self).entries@,
                i <= n,
                forall|j: int| 0 <= j < i ==> s0[j].id@ != id@,
            decreases n - i,
        {
            if self.entries[i].id == *id {
                proof {
                    lemma_idx_unique(s0, id@, i as int);
                }
                if self.entries[i].job.state.is_terminal() {
                    return ;
                }
                let e = JobEntry { id: id.clone(), job: JobStatus::completed(payload) };
                proof {
                    lemma_view_update(s0, i as int, e);
                }
                self.entries.set(i, e);
                return ;
            }
            i += 1;
        }
        proof {
            assert(!has_id(s0, id@));
        }
    }

    /// Records a failed outcome for `id`: exactly the `fail_effect` on the
    /// mapping.
    pub fn fail(&mut self, id: &String, diagnostic: String)
        requires
            old(self).wf(),
        ensures
            final(self).wf(),
            final(self)@ == fail_effect(old(self)@, id@, diagnostic@),
    {
        let ghost s0 = self.entries@;
        let n = self.entries.len();
        let mut i: usize = 0;
        while i < n
            invariant
                n == self.entries.len(),
                self.entries@ == s0,
                old(self).wf(),
                s0 == old(self).entries@,
                i <= n,
                forall|j: int| 0 <= j < i ==> s0[j].id@ != id@,
            decreases n - i,
        {
            if self.entries[i].id == *id {
                proof {
                    lemma_idx_unique(s0, id@, i as int);
                }
                if self.entries[i].job.state.is_terminal() {
                    return ;
                }
                let e = JobEntry { id: id.clone(), job: JobStatus::failed(diagnostic) };
                proof {
                    lemma_view_update(s0, i as int, e);
                }
                self.entries.set(i, e);
                return ;
            }
            i += 1;
        }
        proof {
            assert(!has_id(s0, id@));
        }
    }

    /// Looks a job up by identity: a copy of its record, or `None` for an
    /// identity the store does not hold (never filed, or already swept).
    pub fn lookup(&self, id: &String) -> (r: Option<JobStatus>)
        requires
            self.wf(),
        ensures
            match r {
                Some(j) => self@.dom().contains(id@) && j@ == self@[id@],
                None => !self@.dom().contains(id@),
            },
    {
        let n = self.entries.len();
        let mut i: usize = 0;
        while i < n
            invariant
                n == self.entries.len(),
                self.wf(),
                i <= n,
                forall|j: int| 0 <= j < i ==> self.entries@[j].id@ != id@,
            decreases n - i,
        {
            if self.entries[i].id == *id {
                proof {
                    lemma_idx_unique(self.entries@, id@, i as int);
                }
                return Some(self.entries[i].job.duplicate());
            }
            i += 1;
        }
        proof {
            assert(!has_id(self.entries@, id@));
        }
        None
    }

    /// The janitor's sweep: purges every terminal record and keeps every
    /// `Pending` one — exactly the `sweep_effect` on the mapping.
    pub fn sweep(&mut self)
        requires
            old(self).wf(),
        ensures
            final(self).wf(),
            final(self)@ == sweep_effect(old(self)@),
    {
        let ghost s0 = self.entries@;
        let n = self.entries.len();
        let mut kept: Vec<JobEntry> = Vec::new();
        let mut i: usize = 0;
        proof {
            assert(s0.take(0) =~= Seq::<JobEntry>::empty());
            assert(entries_view(kept@) =~= sweep_effect(entries_view(s0.take(0))));
        }
        while i < n
            invariant
                n == self.entries.len(),
                self.entries@ == s0,
                old(self).wf(),
                s0 == old(self).entries@,
                i <= n,
                ids_unique(kept@),
                forall|j: int| 0 <= j < kept@.len() ==> (#[trigger] kept@[j].job@).wf(),
                entries_view(kept@) == sweep_effect(entries_view(s0.take(i as int))),
            decreases n - i,
        {
            let ghost tk = s0.take(i as int);
            proof {
                assert(s0.take(i + 1) =~= tk.push(s0[i as int]));
                lemma_take_unique(s0, i as int);
                lemma_take_unique(s0, i + 1);
                assert(!has_id(tk, s0[i as int].id@)) by {
                    if has_id(tk, s0[i as int].id@) {
                        let p = idx_of(tk, s0[i as int].id@);
                        lemma_idx_of(tk, s0[i as int].id@);
                        assert(s0[p].id@ == s0[i as int].id@);
                    }
                }
                lemma_view_push(tk, s0[i as int]);
                lemma_sweep_effect_insert(
                    entries_view(tk),
                    s0[i as int].id@,
                    s0[i as int].job@,
                );
                assert(!has_id(kept@, s0[i as int].id@)) by {
                    if has_id(kept@, s0[i as int].id@) {
                        assert(entries_view(kept@).dom().contains(s0[i as int].id@));
                        assert(entries_view(tk).dom().contains(s0[i as int].id@));
                        assert(has_id(tk, s0[i as int].id@));
                    }
                }
            }
            if self.entries[i].job.state.is_terminal() {
                proof {
                    assert(!entries_view(kept@).dom().contains(s0[i as int].id@));
                    assert(entries_view(kept@).remove(s0[i as int].id@) =~= entries_view(kept@));
                    assert(entries_view(kept@) =~= sweep_effect(
                        entries_view(s0.take(i + 1)),
                    ));
                }
            } else {
                let e = JobEntry {
                    id: self.entries[i].id.clone(),
                    job: self.entries[i].job.duplicate(),
                };
                proof {
                    assert(!has_id(kept@, e.id@));
                    lemma_view_push(kept@, e);
                }
                kept.push(e);
            }
            i += 1;
        }
        proof {
            assert(s0.take(n as int) =~= s0);
        }
        self.entries = kept;
    }
}

proof fn lemma_take_unique(s: Seq<JobEntry>, i: int)
    requires
        ids_unique(s),
        0 <= i <= s.len(),
    ensures
        ids_unique(s.take(i)),
{
}

proof fn lemma_sweep_effect_insert(
    m: Map<Seq<char>, JobStatusView>,
    k: Seq<char>,
    v: JobStatusView,
)
    ensures
        v.state == JobState::Pending ==> sweep_effect(m.insert(k, v)) == sweep_effect(m).insert(
            k,
            v,
        ),
        v.state != JobState::Pending ==> sweep_effect(m.insert(k, v)) == sweep_effect(m).remove(k),
{
    if v.state == JobState::Pending {
        assert(sweep_effect(m.insert(k, v)) =~= sweep_effect(m).insert(k, v));
    } else {
        assert(sweep_effect(m.insert(k, v)) =~= sweep_effect(m).remove(k));
    }
}

/// Every record a well-formed store holds obeys the payload invariant:
/// exactly one of result/error populated, and only in a terminal state.
pub proof fn lemma_store_records_well_formed(s: &JobStore)
    requires
        s.wf(),
    ensures
        forall|k: Seq<char>| s@.dom().contains(k) ==> (#[trigger] s@[k]).wf(),
{
    assert forall|k: Seq<char>| s@.dom().contains(k) implies (#[trigger] s@[k]).wf() by {
        lemma_idx_of(s.entries@, k);
    }
}

/// A terminal record is never changed by a later completion or failure
/// report, whether aimed at the same job or at any other.
pub proof fn lemma_terminal_state_stable(
    m: Map<Seq<char>, JobStatusView>,
    k: Seq<char>,
    k2: Seq<char>,
    p: ProofResponseView,
    e: Seq<char>,
)
    requires
        m.dom().contains(k),
        m[k].state != JobState::Pending,
    ensures
        complete_effect(m, k2, p).dom().contains(k),
        complete_effect(m, k2, p)[k] == m[k],
        fail_effect(m, k2, e).dom().contains(k),
        fail_effect(m, k2, e)[k] == m[k],
{
}

/// Reports against one job never touch another: the record under any other
/// identity is exactly what it was.
pub proof fn lemma_jobs_independent(
    m: Map<Seq<char>, JobStatusView>,
    k: Seq<char>,
    k2: Seq<char>,
    p: ProofResponseView,
    e: Seq<char>,
)
    requires
        k != k2,
    ensures
        complete_effect(m, k, p).dom().contains(k2) == m.dom().contains(k2),
        m.dom().contains(k2) ==> complete_effect(m, k, p)[k2] == m[k2],
        fail_effect(m, k, e).dom().contains(k2) == m.dom().contains(k2),
        m.dom().contains(k2) ==> fail_effect(m, k, e)[k2] == m[k2],
        m.insert(k, pending_view()).dom().contains(k2) == m.dom().contains(k2),
        m.dom().contains(k2) ==> m.insert(k, pending_view())[k2] == m[k2],
{
}

/// The store always holds finitely many jobs.
pub proof fn lemma_store_dom_finite(s: &JobStore)
    ensures
        s@.dom().finite(),
{
    broadcast use vstd::seq_lib::seq_to_set_is_finite;

    let ids = s.entries@.map_values(|e: JobEntry| e.id@);
    assert forall|k: Seq<char>| s@.dom().contains(k) implies ids.to_set().contains(k) by {
        lemma_idx_of(s.entries@, k);
        assert(ids[idx_of(s.entries@, k)] == k);
        assert(ids.contains(k));
    }
    assert(s@.dom().subset_of(ids.to_set()));
    vstd::set_lib::lemma_len_subset(s@.dom(), ids.to_set());
}

/// After a sweep, every record that was terminal at sweep-start is absent
/// and every record that was `Pending` at sweep-start is present, unchanged.
pub proof fn lemma_sweep_policy(m: Map<Seq<char>, JobStatusView>, k: Seq<char>)
    requires
        m.dom().contains(k),
    ensures
        m[k].state != JobState::Pending ==> !sweep_effect(m).dom().contains(k),
        m[k].state == JobState::Pending ==> sweep_effect(m).dom().contains(k) && sweep_effect(m)[k]
            == m[k],
{
}

} // verus!
