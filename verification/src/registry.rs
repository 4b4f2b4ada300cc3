//! The job registry: the one piece of shared mutable state.
//!
//! It maps each job identifier to its status record. Entries are created by
//! the process handler (always `pending`) and move to `complete` exactly once,
//! when the completion callback arrives. The surrounding application shares
//! one registry among all request workers behind a mutex; every operation
//! here is a short critical section on plain data, so the contracts below
//! describe one atomic step of that shared map.

use vstd::prelude::*;

use crate::status::JobStatus;
use crate::status::JobStatusView;

verus! {

/// Registry of all tracked jobs, modelled as a map from job identifier to
/// status record. Keys are unique; no ordering is promised.
pub struct JobRegistry {
    entries: Vec<(String, JobStatus)>,
}

/// The keys of `s` are pairwise distinct.
spec fn unique_keys(s: Seq<(String, JobStatus)>) -> bool {
    forall|i: int, j: int|
        0 <= i < j < s.len() ==> #[trigger] s[i].0@ != #[trigger] s[j].0@
}

/// The map described by an association list, later bindings winning.
spec fn map_of(s: Seq<(String, JobStatus)>) -> Map<Seq<char>, JobStatusView>
    decreases s.len(),
{
    if s.len() == 0 {
        Map::empty()
    } else {
        map_of(s.drop_last()).insert(s.last().0@, s.last().1@)
    }
}

proof fn lemma_unique_keys_drop_last(s: Seq<(String, JobStatus)>)
    requires
        unique_keys(s),
        s.len() > 0,
    ensures
        unique_keys(s.drop_last()),
{
    assert forall|i: int, j: int|
        0 <= i < j < s.drop_last().len() implies #[trigger] s.drop_last()[i].0@
        != #[trigger] s.drop_last()[j].0@ by {
        assert(s.drop_last()[i] == s[i]);
        assert(s.drop_last()[j] == s[j]);
    }
}

proof fn lemma_map_of_contains(s: Seq<(String, JobStatus)>, k: Seq<char>)
    ensures
        map_of(s).contains_key(k) <==> exists|i: int| 0 <= i < s.len() && #[trigger] s[i].0@ == k,
    decreases s.len(),
{
    if s.len() > 0 {
        lemma_map_of_contains(s.drop_last(), k);
        if s.last().0@ == k {
            assert(s[s.len() - 1].0@ == k);
        } else {
            if map_of(s).contains_key(k) {
                let i = choose|i: int|
                    0 <= i < s.drop_last().len() && #[trigger] s.drop_last()[i].0@ == k;
                assert(s[i].0@ == k);
            }
            if exists|i: int| 0 <= i < s.len() && #[trigger] s[i].0@ == k {
                let i = choose|i: int| 0 <= i < s.len() && #[trigger] s[i].0@ == k;
                assert(i < s.len() - 1);
                assert(s.drop_last()[i].0@ == k);
            }
        }
    }
}

proof fn lemma_map_of_get(s: Seq<(String, JobStatus)>, i: int)
    requires
        unique_keys(s),
        0 <= i < s.len(),
    ensures
        map_of(s).contains_key(s[i].0@),
        map_of(s)[s[i].0@] == s[i].1@,
    decreases s.len(),
{
    if i < s.len() - 1 {
        lemma_unique_keys_drop_last(s);
        lemma_map_of_get(s.drop_last(), i);
        assert(s.drop_last()[i] == s[i]);
        assert(s[i].0@ != s.last().0@);
    }
}

proof fn lemma_map_of_len(s: Seq<(String, JobStatus)>)
    requires
        unique_keys(s),
    ensures
        map_of(s).dom().finite(),
        map_of(s).dom().len() == s.len(),
    decreases s.len(),
{
    if s.len() > 0 {
        lemma_unique_keys_drop_last(s);
        lemma_map_of_len(s.drop_last());
        lemma_map_of_contains(s.drop_last(), s.last().0@);
        assert forall|i: int| 0 <= i < s.drop_last().len() implies #[trigger] s.drop_last()[i].0@
            != s.last().0@ by {
            assert(s.drop_last()[i] == s[i]);
        }
        assert(!map_of(s.drop_last()).contains_key(s.last().0@));
    }
}

proof fn lemma_map_of_update(s: Seq<(String, JobStatus)>, i: int, e: (String, JobStatus))
    requires
        unique_keys(s),
        0 <= i < s.len(),
        e.0@ == s[i].0@,
    ensures
        map_of(s.update(i, e)) == map_of(s).insert(e.0@, e.1@),
    decreases s.len(),
{
    let t = s.update(i, e);
    if i == s.len() - 1 {
        assert(t.drop_last() =~= s.drop_last());
        assert(t.last() == e);
        assert(map_of(s).insert(e.0@, e.1@) =~~= map_of(s.drop_last()).insert(e.0@, e.1@));
    } else {
        lemma_unique_keys_drop_last(s);
        assert(t.drop_last() =~= s.drop_last().update(i, e));
        assert(s.drop_last()[i] == s[i]);
        lemma_map_of_update(s.drop_last(), i, e);
        assert(t.last() == s.last());
        assert(s[i].0@ != s.last().0@);
        assert(map_of(s.drop_last()).insert(e.0@, e.1@).insert(s.last().0@, s.last().1@)
            =~~= map_of(s.drop_last()).insert(s.last().0@, s.last().1@).insert(e.0@, e.1@));
    }
}

impl View for JobRegistry {
    type V = Map<Seq<char>, JobStatusView>;

    closed spec fn view(&self) -> Map<Seq<char>, JobStatusView> {
        map_of(self.entries@)
    }
}

impl JobRegistry {
    /// The registry's keys are pairwise distinct and every record is well
    /// formed: a result is stored exactly on the complete ones.
    pub closed spec fn wf(self) -> bool {
        &&& unique_keys(self.entries@)
        &&& forall|i: int|
            0 <= i < self.entries@.len() ==> (#[trigger] self.entries@[i].1@).well_formed()
    }

    /// An empty registry.
    pub fn new() -> (r: JobRegistry)
        ensures
            r.wf(),
            r@ == Map::<Seq<char>, JobStatusView>::empty(),
    {
        JobRegistry { entries: Vec::new() }
    }

    /// The index of the entry holding `job_id`, if one does.
    fn find_index(&self, job_id: &String) -> (r: Option<usize>)
        ensures
            match r {
                Some(i) => i < self.entries@.len() && self.entries@[i as int].0@ == job_id@,
                None => forall|i: int|
                    0 <= i < self.entries@.len() ==> #[trigger] self.entries@[i].0@ != job_id@,
            },
    {
        let n = self.entries.len();
        let mut i: usize = 0;
        while i < n
            invariant
                i <= n,
                n == self.entries@.len(),
                forall|j: int| 0 <= j < i ==> #[trigger] self.entries@[j].0@ != job_id@,
            decreases n - i,
        {
            if self.entries[i].0 == *job_id {
                return Some(i);
            }
            i = i + 1;
        }
        None
    }

    /// Whether `job_id` is tracked.
    pub fn contains(&self, job_id: &String) -> (r: bool)
        requires
            self.wf(),
        ensures
            r == self@.contains_key(job_id@),
    {
        proof {
            lemma_map_of_contains(self.entries@, job_id@);
        }
        self.find_index(job_id).is_some()
    }

    /// How many jobs are tracked.
    pub fn len(&self) -> (n: usize)
        requires
            self.wf(),
        ensures
            n == self@.dom().len(),
    {
        proof {
            lemma_map_of_len(self.entries@);
        }
        self.entries.len()
    }

    /// Insert a fresh job as `pending` with no result. Every other entry is
    /// untouched. Job identifiers are derived from globally unique execution
    /// handles, so a collision is a logic error and is excluded here.
    pub fn register(&mut self, job_id: String)
        requires
            old(self).wf(),
            !old(self)@.contains_key(job_id@),
        ensures
            final(self).wf(),
            final(self)@ == old(self)@.insert(job_id@, JobStatusView::pending()),
    {
        proof {
            lemma_map_of_contains(self.entries@, job_id@);
        }
        let ghost s = self.entries@;
        self.entries.push((job_id, JobStatus::pending()));
        proof {
            assert(self.entries@.drop_last() =~= s);
            assert forall|i: int, j: int|
                0 <= i < j < self.entries@.len() implies #[trigger] self.entries@[i].0@
                != #[trigger] self.entries@[j].0@ by {
                if j < self.entries@.len() - 1 {
                    assert(s[i].0@ != s[j].0@);
                } else {
                    assert(self.entries@[i] == s[i]);
                }
            }
        }
    }

    /// Record a completion callback carrying `result_text`. Returns whether
    /// the job was found; an unknown identifier leaves the registry exactly
    /// as it was. A job found `pending` becomes `complete` with this result;
    /// one already `complete` keeps its first result.
    pub fn complete(&mut self, job_id: &String, result_text: String) -> (found: bool)
        requires
            old(self).wf(),
        ensures
            final(self).wf(),
            found == old(self)@.contains_key(job_id@),
            found ==> final(self)@ == old(self)@.insert(
                job_id@,
                old(self)@[job_id@].after_callback(result_text@),
            ),
            !found ==> final(self)@ == old(self)@,
    {
        proof {
            lemma_map_of_contains(self.entries@, job_id@);
        }
        match self.find_index(job_id) {
            None => false,
            Some(i) => {
                proof {
                    lemma_map_of_get(self.entries@, i as int);
                }
                if self.entries[i].1.complete {
                    proof {
                        assert(self@.insert(job_id@, self@[job_id@].after_callback(result_text@))
                            =~~= self@);
                    }
                } else {
                    let ghost s = self.entries@;
                    let key = self.entries[i].0.clone();
                    self.entries[i] = (key, JobStatus { complete: true, result: Some(result_text) });
                    proof {
                        assert(self.entries@ =~= s.update(i as int, self.entries@[i as int]));
                        lemma_map_of_update(s, i as int, self.entries@[i as int]);
                        assert forall|a: int, b: int|
                            0 <= a < b < self.entries@.len() implies #[trigger] self.entries@[a].0@
                            != #[trigger] self.entries@[b].0@ by {
                            assert(s[a].0@ != s[b].0@);
                        }
                    }
                }
                true
            },
        }
    }

    /// A consistent snapshot of the record for `job_id`, if it is tracked.
    pub fn read(&self, job_id: &String) -> (r: Option<JobStatus>)
        requires
            self.wf(),
        ensures
            match r {
                Some(st) => self@.contains_key(job_id@) && st@ == self@[job_id@]
                    && st@.well_formed(),
                None => !self@.contains_key(job_id@),
            },
    {
        proof {
            lemma_map_of_contains(self.entries@, job_id@);
        }
        match self.find_index(job_id) {
            None => None,
            Some(i) => {
                proof {
                    lemma_map_of_get(self.entries@, i as int);
                }
                Some(self.entries[i].1.snapshot())
            },
        }
    }
}

/// The registry contents after registering every identifier in `ids`, in
/// order: one `insert` of a `pending` record per identifier, exactly what a
/// sequence of `register` calls leaves behind.
pub open spec fn register_all(
    m: Map<Seq<char>, JobStatusView>,
    ids: Seq<Seq<char>>,
) -> Map<Seq<char>, JobStatusView>
    decreases ids.len(),
{
    if ids.len() == 0 {
        m
    } else {
        register_all(m, ids.drop_last()).insert(ids.last(), JobStatusView::pending())
    }
}

/// No registration is lost: after registering any number of distinct, fresh
/// identifiers, each one is tracked with its own intact `pending` record,
/// every other key is exactly as before, and the registry has grown by one
/// entry per identifier. The registry serializes concurrent callers under
/// mutual exclusion, so any interleaving of `register` calls is some such
/// order.
pub proof fn lemma_distinct_registers_all_pending(
    m: Map<Seq<char>, JobStatusView>,
    ids: Seq<Seq<char>>,
)
    requires
        forall|i: int, j: int| 0 <= i < j < ids.len() ==> #[trigger] ids[i] != #[trigger] ids[j],
        forall|i: int| 0 <= i < ids.len() ==> !m.contains_key(#[trigger] ids[i]),
        m.dom().finite(),
    ensures
        forall|i: int|
            0 <= i < ids.len() ==> register_all(m, ids).contains_key(#[trigger] ids[i])
                && register_all(m, ids)[ids[i]] == JobStatusView::pending(),
        forall|k: Seq<char>|
            !ids.contains(k) ==> (#[trigger] register_all(m, ids).contains_key(k)
                <==> m.contains_key(k)),
        forall|k: Seq<char>|
            !ids.contains(k) && m.contains_key(k) ==> #[trigger] register_all(m, ids)[k] == m[k],
        register_all(m, ids).dom().finite(),
        register_all(m, ids).dom().len() == m.dom().len() + ids.len(),
    decreases ids.len(),
{
    if ids.len() > 0 {
        let front = ids.drop_last();
        assert forall|i: int| 0 <= i < front.len() implies !m.contains_key(
            #[trigger] front[i],
        ) by {
            assert(front[i] == ids[i]);
        }
        assert forall|i: int, j: int| 0 <= i < j < front.len() implies #[trigger] front[i]
            != #[trigger] front[j] by {
            assert(front[i] == ids[i]);
            assert(front[j] == ids[j]);
        }
        lemma_distinct_registers_all_pending(m, front);
        assert(!front.contains(ids.last()));
        assert forall|i: int|
            0 <= i < ids.len() implies register_all(m, ids).contains_key(#[trigger] ids[i])
            && register_all(m, ids)[ids[i]] == JobStatusView::pending() by {
            if i < ids.len() - 1 {
                assert(front[i] == ids[i]);
                assert(front.contains(ids[i]));
            }
        }
        assert forall|k: Seq<char>| !ids.contains(k) implies (
        #[trigger] register_all(m, ids).contains_key(k) <==> m.contains_key(k)) && (m.contains_key(
            k,
        ) ==> register_all(m, ids)[k] == m[k]) by {
            assert(!front.contains(k));
            assert(k != ids.last());
        }
    }
}

/// Registering a job and immediately reading it yields a `pending` record
/// with no result: `register` makes the registry `m.insert(id, pending)`,
/// and `read` on that registry returns exactly the record stored under `id`.
pub proof fn lemma_register_then_read(m: Map<Seq<char>, JobStatusView>, id: Seq<char>)
    ensures
        m.insert(id, JobStatusView::pending()).contains_key(id),
        m.insert(id, JobStatusView::pending())[id] == JobStatusView::pending(),
        m.insert(id, JobStatusView::pending())[id].complete == false,
        m.insert(id, JobStatusView::pending())[id].result is None,
{
}

} // verus!
