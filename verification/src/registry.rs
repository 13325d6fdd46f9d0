//! The in-memory job registry: stable external ids over an internal store,
//! with insert, update, delete, list, per-job file access and wait.
//!
//! External ids are 1-based integers, issued monotonically per registry
//! instance; an id retired by deletion is never issued again.

use vstd::prelude::*;

use crate::error::Error;
use crate::fsio;
use crate::job::{is_terminal, spec_status_of_exit, Job, JobStatus, Session, SessionView};
use crate::text::join_path;

verus! {

/// The external job id handed to clients: a 1-based integer, stable for the
/// lifetime of the job and never reused within a registry instance.
pub type JobId = usize;

/// The live jobs, keyed by external id, with the next id to issue.
pub struct Jobs {
    entries: Vec<(JobId, Session)>,
    next_id: JobId,
}

/// The mathematical shape of the registry: the live entries in iteration
/// order, and the next id to issue.
#[verifier::ext_equal]
pub struct JobsView {
    pub entries: Seq<(JobId, SessionView)>,
    pub next_id: int,
}

impl JobsView {
    /// The live ids, in iteration order.
    pub open spec fn ids(self) -> Seq<JobId> {
        self.entries.map_values(|p: (JobId, SessionView)| p.0)
    }

    /// Whether `id` names a live job.
    pub open spec fn has(self, id: JobId) -> bool {
        exists|i: int| 0 <= i < self.entries.len() && (#[trigger] self.entries[i]).0 == id
    }

    /// The position of the live job named `id`.
    pub open spec fn index_of(self, id: JobId) -> int {
        choose|i: int| 0 <= i < self.entries.len() && (#[trigger] self.entries[i]).0 == id
    }

    /// The live job named `id`.
    pub open spec fn get(self, id: JobId) -> SessionView {
        self.entries[self.index_of(id)].1
    }

    /// Well-formedness: ids are 1-based, below the next id to issue, and
    /// pairwise distinct.
    pub open spec fn wf(self) -> bool {
        &&& 1 <= self.next_id
        &&& forall|i: int|
            0 <= i < self.entries.len() ==> 1 <= (#[trigger] self.entries[i]).0 < self.next_id
        &&& forall|i: int, j: int|
            0 <= i < j < self.entries.len() ==> (#[trigger] self.entries[i]).0 != (
            #[trigger] self.entries[j]).0
    }
}

impl View for Jobs {
    type V = JobsView;

    closed spec fn view(&self) -> JobsView {
        JobsView {
            entries: self.entries@.map_values(|p: (JobId, Session)| (p.0, p.1@)),
            next_id: self.next_id as int,
        }
    }
}

/// In a well-formed registry an id names at most one position.
pub proof fn lemma_index_unique(v: JobsView, id: JobId, k: int)
    requires
        v.wf(),
        0 <= k < v.entries.len(),
        v.entries[k].0 == id,
    ensures
        v.has(id),
        v.index_of(id) == k,
{
    assert(v.has(id));
    let i = v.index_of(id);
    if i != k {
        if i < k {
            assert(v.entries[i].0 != v.entries[k].0);
        } else {
            assert(v.entries[k].0 != v.entries[i].0);
        }
    }
}


/// Every live id lies below the next id to issue: what `insert` will hand
/// out next cannot collide with any job now in the registry.
pub proof fn lemma_live_ids_below_next(v: JobsView, id: JobId)
    requires
        v.wf(),
        v.has(id),
    ensures
        (id as int) < v.next_id,
{
    let i = v.index_of(id);
    assert(0 <= i < v.entries.len() && v.entries[i].0 == id);
}

/// Ids are never reused within a registry instance: every id ever issued
/// was `next_id` at its insert and `next_id` never decreases (each
/// operation's contract keeps or raises it), so each id ever issued lies
/// below the current `next_id` and differs from the id issued next.
pub proof fn lemma_issued_id_never_reissued(v: JobsView, issued: JobId)
    requires
        v.wf(),
        (issued as int) < v.next_id,
    ensures
        v.next_id != issued as int,
{
}

/// Removing a live id retires it: the registry that `delete_job` leaves
/// behind no longer knows the id, so by `delete_job`'s contract a repeated
/// delete of the same id returns `NotFound`.
pub proof fn lemma_remove_retires_id(v: JobsView, id: JobId)
    ensures
        v.wf() && v.has(id) ==> !(JobsView {
            entries: v.entries.remove(v.index_of(id)),
            next_id: v.next_id,
        }).has(id) && (JobsView {
            entries: v.entries.remove(v.index_of(id)),
            next_id: v.next_id,
        }).wf(),
{
    if v.wf() && v.has(id) {
        let k = v.index_of(id);
        let w = JobsView { entries: v.entries.remove(k), next_id: v.next_id };
        assert forall|i: int| 0 <= i < w.entries.len() implies (#[trigger] w.entries[i]).0
            != id by {
            if i < k {
                assert(w.entries[i] == v.entries[i]);
            } else {
                assert(w.entries[i] == v.entries[i + 1]);
            }
        }
    }
}

/// Clearing an already cleared registry is a no-op: the state after a
/// second `clear_jobs` is exactly the state after the first.
pub proof fn lemma_clear_idempotent(v: JobsView)
    requires
        v.entries.len() == 0,
    ensures
        (JobsView { entries: Seq::<(JobId, SessionView)>::empty(), next_id: v.next_id }) == v,
{
    assert(v.entries =~= Seq::<(JobId, SessionView)>::empty());
    assert((JobsView { entries: Seq::<(JobId, SessionView)>::empty(), next_id: v.next_id })
        =~= v);
}

/// One mutation step of the registry, as every operation's contract
/// guarantees it: the next id never falls, and an id can only be live
/// afterwards if it was live before or is at least the next id of the state
/// before. `insert` adds exactly `next_id` and raises it
/// (`lemma_insert_is_step`); update, delete, wait and the file operations
/// keep or shrink the id set with `next_id` unchanged, so they are steps
/// directly by their contracts.
pub open spec fn registry_step(pre: JobsView, post: JobsView) -> bool {
    &&& post.next_id >= pre.next_id
    &&& forall|x: JobId| #[trigger] post.has(x) ==> pre.has(x) || (x as int) >= pre.next_id
}

/// The contract of `insert` establishes a registry step.
pub proof fn lemma_insert_is_step(pre: JobsView, post: JobsView, id: JobId, s: SessionView)
    requires
        id as int == pre.next_id,
        post.entries == pre.entries.push((id, s)),
        post.next_id == pre.next_id + 1,
    ensures
        registry_step(pre, post),
{
    assert forall|x: JobId| #[trigger] post.has(x) implies pre.has(x) || (x as int)
        >= pre.next_id by {
        let k = choose|k: int|
            0 <= k < post.entries.len() && (#[trigger] post.entries[k]).0 == x;
        if k < pre.entries.len() {
            assert(post.entries[k] == pre.entries[k]);
            assert(pre.has(x));
        } else {
            assert(post.entries[k] == (id, s));
        }
    }
}

/// Ids are never reused over a whole history: in any chain of registry
/// states linked by mutation steps, an id once retired — below the next id
/// to issue and absent — is absent in every later state, and every later
/// fresh id lies above it. Together with `insert`'s contract (the id it
/// issues equals `next_id` at that moment) this is the never-reuse
/// discipline over arbitrarily many operations.
pub proof fn lemma_retired_id_stays_out(tr: Seq<JobsView>, i: int, j: int, id: JobId)
    requires
        0 <= i <= j < tr.len(),
        forall|k: int| i <= k < j ==> #[trigger] registry_step(tr[k], tr[k + 1]),
        (id as int) < tr[i].next_id,
        !tr[i].has(id),
    ensures
        !tr[j].has(id),
        (id as int) < tr[j].next_id,
    decreases j - i,
{
    if i < j {
        assert(registry_step(tr[i], tr[i + 1]));
        assert(!tr[i + 1].has(id));
        lemma_retired_id_stays_out(tr, i + 1, j, id);
    }
}

/// Listing, then submitting, then listing again: one insert extends the id
/// list by exactly the freshly issued id, which collides with no listed id;
/// N inserts in a row therefore add exactly N new, pairwise distinct ids.
pub proof fn lemma_insert_extends_listing(
    before: JobsView,
    after: JobsView,
    id: JobId,
    s: SessionView,
)
    requires
        before.wf(),
        id as int == before.next_id,
        after.entries == before.entries.push((id, s)),
        after.next_id == before.next_id + 1,
    ensures
        after.ids() == before.ids().push(id),
        !before.ids().contains(id),
        after.wf(),
{
    assert(after.ids() =~= before.ids().push(id));
    assert forall|i: int| 0 <= i < before.ids().len() implies before.ids()[i] != id by {
        assert(before.ids()[i] == before.entries[i].0);
    }
    assert(!before.ids().contains(id));
}

impl Jobs {
    /// An empty registry; the first id issued will be 1.
    pub fn new() -> (r: Jobs)
        ensures
            r@.entries == Seq::<(JobId, SessionView)>::empty(),
            r@.next_id == 1,
    {
        let r = Jobs { entries: Vec::new(), next_id: 1 };
        proof {
            assert(r@.entries =~= Seq::<(JobId, SessionView)>::empty());
        }
        r
    }

    /// Look for the job with `id`, returning its position, or `NotFound` if
    /// no live job carries that id.
    pub fn check_job(&self, id: JobId) -> (r: Result<usize, Error>)
        ensures
            r matches Ok(k) ==> self@.has(id) && 0 <= k < self@.entries.len()
                && self@.entries[k as int].0 == id,
            r matches Err(e) ==> e == Error::NotFound && !self@.has(id),
    {
        let n = self.entries.len();
        let mut i: usize = 0;
        while i < n
            invariant
                n == self.entries@.len(),
                i <= n,
                forall|j: int| 0 <= j < i ==> (#[trigger] self@.entries[j]).0 != id,
            decreases n - i,
        {
            if self.entries[i].0 == id {
                proof {
                    assert(self@.entries[i as int].0 == self.entries@[i as int].0);
                }
                return Ok(i);
            }
            i += 1;
        }
        Err(Error::NotFound)
    }

    /// Insert an active job, issuing the next external id.
    pub fn insert(&mut self, s: Session) -> (r: JobId)
        requires
            old(self)@.wf(),
            old(self)@.next_id < usize::MAX as int,
        ensures
            final(self)@.wf(),
            r as int == old(self)@.next_id,
            !old(self)@.has(r),
            final(self)@.entries == old(self)@.entries.push((r, s@)),
            final(self)@.next_id == old(self)@.next_id + 1,
    {
        let id = self.next_id;
        self.next_id = self.next_id + 1;
        self.entries.push((id, s));
        proof {
            assert(final(self)@.entries =~= old(self)@.entries.push((id, s@)));
        }
        id
    }

    /// Remove the job with `id`, signalling SIGTERM and then SIGKILL over
    /// its session first; the scratch directory is released with the entry.
    pub fn remove(&mut self, id: JobId) -> (r: Result<(), Error>)
        requires
            old(self)@.wf(),
        ensures
            final(self)@.wf(),
            final(self)@.next_id == old(self)@.next_id,
            r matches Ok(_) ==> old(self)@.has(id) && final(self)@.entries == old(
                self,
            )@.entries.remove(old(self)@.index_of(id)),
            r matches Err(e) ==> e == Error::NotFound && !old(self)@.has(id) && final(self)@ == old(
                self,
            )@,
    {
        let k = match self.check_job(id) {
            Ok(k) => k,
            Err(e) => return Err(e),
        };
        self.entries[k].1.terminate();
        self.entries[k].1.kill();
        let _ = self.entries.remove(k);
        proof {
            lemma_index_unique(old(self)@, id, k as int);
            assert(final(self)@.entries =~= old(self)@.entries.remove(k as int));
        }
        Ok(())
    }

    /// Remove every job, signalling each started session first.
    pub fn clear(&mut self)
        ensures
            final(self)@.entries == Seq::<(JobId, SessionView)>::empty(),
            final(self)@.next_id == old(self)@.next_id,
    {
        let n = self.entries.len();
        let mut i: usize = 0;
        while i < n
            invariant
                n == self.entries@.len(),
                i <= n,
                *self == *old(self),
            decreases n - i,
        {
            self.entries[i].1.terminate();
            self.entries[i].1.kill();
            i += 1;
        }
        self.entries = Vec::new();
        proof {
            assert(final(self)@.entries =~= Seq::<(JobId, SessionView)>::empty());
        }
    }

    /// The live ids, in iteration order.
    pub fn iter(&self) -> (r: Vec<JobId>)
        ensures
            r@ == self@.ids(),
    {
        let n = self.entries.len();
        let mut out: Vec<JobId> = Vec::new();
        let mut i: usize = 0;
        while i < n
            invariant
                n == self.entries@.len(),
                i <= n,
                out@.len() == i,
                forall|j: int| 0 <= j < i ==> out@[j] == (#[trigger] self@.entries[j]).0,
            decreases n - i,
        {
            out.push(self.entries[i].0);
            i += 1;
        }
        proof {
            assert(out@ =~= self@.ids());
        }
        out
    }

    /// The job at position `k`.
    pub fn get(&self, k: usize) -> (r: &Session)
        requires
            k < self@.entries.len(),
        ensures
            r@ == self@.entries[k as int].1,
    {
        &self.entries[k].1
    }

    /// A mutable borrow of the job at position `k`; the id stays put.
    pub fn entry_mut(&mut self, k: usize) -> (r: &mut Session)
        requires
            k < old(self)@.entries.len(),
        ensures
            (*r)@ == old(self)@.entries[k as int].1,
            final(self)@.entries == old(self)@.entries.update(
                k as int,
                (old(self)@.entries[k as int].0, final(r)@),
            ),
            final(self)@.next_id == old(self)@.next_id,
    {
        &mut self.entries[k].1
    }

    /// Replace the job at position `k`; the id stays put, the replaced
    /// entry's scratch directory is released with it.
    pub fn replace_at(&mut self, k: usize, s: Session)
        requires
            k < old(self)@.entries.len(),
        ensures
            final(self)@.entries == old(self)@.entries.update(
                k as int,
                (old(self)@.entries[k as int].0, s@),
            ),
            final(self)@.next_id == old(self)@.next_id,
    {
        let id = self.entries[k].0;
        self.entries[k] = (id, s);
        proof {
            assert(final(self)@.entries =~= old(self)@.entries.update(
                k as int,
                (old(self)@.entries[k as int].0, s@),
            ));
        }
    }
}

/// The directory-listing rule: keep exactly the entries flagged as regular
/// files, in listing order.
pub open spec fn spec_regular_files(entries: Seq<(Seq<char>, bool)>) -> Seq<Seq<char>>
    decreases entries.len(),
{
    if entries.len() == 0 {
        Seq::empty()
    } else {
        let rest = spec_regular_files(entries.drop_last());
        if entries.last().1 {
            rest.push(entries.last().0)
        } else {
            rest
        }
    }
}

proof fn lemma_regular_files_step(entries: Seq<(Seq<char>, bool)>, i: int)
    requires
        0 <= i < entries.len(),
    ensures
        spec_regular_files(entries.subrange(0, i + 1)) == (if entries[i].1 {
            spec_regular_files(entries.subrange(0, i)).push(entries[i].0)
        } else {
            spec_regular_files(entries.subrange(0, i))
        }),
{
    let s = entries.subrange(0, i + 1);
    assert(s.drop_last() =~= entries.subrange(0, i));
    assert(s.last() == entries[i]);
}

/// Keep exactly the paths of the regular files in a directory listing.
pub fn regular_files(entries: &Vec<(String, bool)>) -> (r: Vec<String>)
    ensures
        r.deep_view() == spec_regular_files(entries.deep_view()),
{
    let n = entries.len();
    let mut out: Vec<String> = Vec::new();
    let mut i: usize = 0;
    while i < n
        invariant
            n == entries@.len(),
            i <= n,
            out.deep_view() == spec_regular_files(entries.deep_view().subrange(0, i as int)),
        decreases n - i,
    {
        proof {
            lemma_regular_files_step(entries.deep_view(), i as int);
            assert(entries.deep_view()[i as int] == (entries@[i as int].0@, entries@[i as int].1));
        }
        let e = &entries[i];
        if e.1 {
            out.push(e.0.clone());
            proof {
                assert(out.deep_view() =~= spec_regular_files(
                    entries.deep_view().subrange(0, i + 1 as int),
                ));
            }
        } else {
            proof {
                assert(out.deep_view() =~= spec_regular_files(
                    entries.deep_view().subrange(0, i + 1 as int),
                ));
            }
        }
        i += 1;
    }
    proof {
        assert(entries.deep_view().subrange(0, n as int) =~= entries.deep_view());
    }
    out
}

/// Witness that the registry was cleared before the server is told to shut
/// down: the `DELETE /jobs` path obtains it from [`Db::shutdown`] and only
/// then signals the shutdown channel.
pub struct ShutdownReady {
    pub cleared: bool,
}

/// A simple in-memory store for computational jobs: the single mutation
/// point for jobs, owning each job's scratch directory and child session.
/// The caller serializes access (one exclusive lock around the whole store).
pub struct Db {
    jobs: Jobs,
}

impl View for Db {
    type V = JobsView;

    closed spec fn view(&self) -> JobsView {
        self.jobs@
    }
}

impl Db {
    /// Create an empty registry; the first id issued will be 1.
    pub fn new() -> (r: Db)
        ensures
            r@.entries == Seq::<(JobId, SessionView)>::empty(),
            r@.next_id == 1,
            r@.wf(),
    {
        Db { jobs: Jobs::new() }
    }

    /// Materialize `job` (scratch directory, executable run file, stdin
    /// file) and insert it, issuing a fresh external id; an I/O failure
    /// during the build is fatal to the insert and leaves the registry
    /// unchanged.
    pub fn insert_job(&mut self, job: Job) -> (r: Result<JobId, Error>)
        requires
            old(self)@.wf(),
            old(self)@.next_id < usize::MAX as int,
        ensures
            final(self)@.wf(),
            r matches Ok(id) ==> {
                &&& id as int == old(self)@.next_id
                &&& !old(self)@.has(id)
                &&& final(self)@.has(id)
                &&& final(self)@.next_id == old(self)@.next_id + 1
                &&& final(self)@.entries == old(self)@.entries.push(
                    (id, final(self)@.entries.last().1),
                )
                &&& final(self)@.entries.last().1.job == job@
                &&& final(self)@.entries.last().1.status == JobStatus::NotStarted
            },
            r matches Err(e) ==> e == Error::Io && final(self)@ == old(self)@,
    {
        let s = match Session::new(job) {
            Ok(s) => s,
            Err(e) => {
                return Err(e);
            },
        };
        let id = self.jobs.insert(s);
        proof {
            assert(final(self)@.entries.last() == (id, s@));
            lemma_index_unique(final(self)@, id, final(self)@.entries.len() - 1);
        }
        Ok(id)
    }

    /// Replace the job under `id` with a freshly built `new_job`. Fails with
    /// `NotFound` for an unknown id, with `AlreadyStarted` once the job has
    /// been started, and with `Io` when the new build fails; in every
    /// failure the registry is unchanged.
    pub fn update_job(&mut self, id: JobId, new_job: Job) -> (r: Result<(), Error>)
        requires
            old(self)@.wf(),
        ensures
            final(self)@.wf(),
            final(self)@.next_id == old(self)@.next_id,
            (r == Err::<(), Error>(Error::NotFound)) <==> !old(self)@.has(id),
            r is Err ==> final(self)@ == old(self)@,
            old(self)@.has(id) && old(self)@.get(id).status != JobStatus::NotStarted ==> r == Err::<
                (),
                Error,
            >(Error::AlreadyStarted),
            old(self)@.has(id) && old(self)@.get(id).status == JobStatus::NotStarted && r is Err
                ==> r == Err::<(), Error>(Error::Io),
            r is Ok ==> ({
                let k = old(self)@.index_of(id);
                &&& old(self)@.has(id)
                &&& old(self)@.get(id).status == JobStatus::NotStarted
                &&& final(self)@.entries == old(self)@.entries.update(
                    k,
                    (id, final(self)@.entries[k].1),
                )
                &&& final(self)@.entries[k].1.job == new_job@
                &&& final(self)@.entries[k].1.status == JobStatus::NotStarted
            }),
    {
        let k = match self.jobs.check_job(id) {
            Ok(k) => k,
            Err(e) => {
                return Err(e);
            },
        };
        proof {
            lemma_index_unique(old(self)@, id, k as int);
        }
        if self.jobs.get(k).is_started() {
            return Err(Error::AlreadyStarted);
        }
        let s = match Session::new(new_job) {
            Ok(s) => s,
            Err(e) => {
                return Err(e);
            },
        };
        self.jobs.replace_at(k, s);
        proof {
            assert(forall|i: int|
                0 <= i < final(self)@.entries.len() ==> (#[trigger] final(self)@.entries[i]).0
                    == old(self)@.entries[i].0);
        }
        Ok(())
    }

    /// Remove the job under `id`, signalling SIGTERM and then SIGKILL over
    /// its session before the scratch directory is released. Fails with
    /// `NotFound`, exactly when the id is unknown.
    pub fn delete_job(&mut self, id: JobId) -> (r: Result<(), Error>)
        requires
            old(self)@.wf(),
        ensures
            final(self)@.wf(),
            final(self)@.next_id == old(self)@.next_id,
            (r == Err::<(), Error>(Error::NotFound)) <==> !old(self)@.has(id),
            r matches Err(e) ==> e == Error::NotFound,
            r is Err ==> final(self)@ == old(self)@,
            r is Ok ==> final(self)@.entries == old(self)@.entries.remove(old(self)@.index_of(id))
                && !final(self)@.has(id),
    {
        let r = self.jobs.remove(id);
        proof {
            if r is Ok {
                let k = old(self)@.index_of(id);
                assert forall|i: int|
                    0 <= i < final(self)@.entries.len() implies (#[trigger] final(self)@.entries[i]).0
                    != id by {
                    if i < k {
                        assert(final(self)@.entries[i] == old(self)@.entries[i]);
                    } else {
                        assert(final(self)@.entries[i] == old(self)@.entries[i + 1]);
                    }
                }
            }
        }
        r
    }

    /// Remove every job, terminating each started session; the ids already
    /// issued stay retired. Never fails; clearing an empty registry is a
    /// no-op.
    pub fn clear_jobs(&mut self)
        ensures
            final(self)@.entries == Seq::<(JobId, SessionView)>::empty(),
            final(self)@.next_id == old(self)@.next_id,
            old(self)@.wf() ==> final(self)@.wf(),
    {
        self.jobs.clear();
    }

    /// Clear the registry in preparation for server shutdown; the returned
    /// witness is what the shutdown path hands to the signalling channel,
    /// so the clear is ordered before the shutdown signal.
    pub fn shutdown(&mut self) -> (r: ShutdownReady)
        ensures
            final(self)@.entries == Seq::<(JobId, SessionView)>::empty(),
            final(self)@.next_id == old(self)@.next_id,
            old(self)@.wf() ==> final(self)@.wf(),
            r.cleared,
    {
        self.jobs.clear();
        ShutdownReady { cleared: true }
    }

    /// The full list of live job ids, in iteration order.
    pub fn get_job_list(&self) -> (r: Vec<JobId>)
        ensures
            r@ == self@.ids(),
    {
        self.jobs.iter()
    }

    /// Start the job under `id` (which must not have been started yet) and
    /// block until its child exits; a nonzero exit is a normal completion.
    pub fn wait_job(&mut self, id: JobId) -> (r: Result<(), Error>)
        requires
            old(self)@.wf(),
        ensures
            final(self)@.wf(),
            final(self)@.next_id == old(self)@.next_id,
            (r == Err::<(), Error>(Error::NotFound)) <==> !old(self)@.has(id),
            !old(self)@.has(id) ==> final(self)@ == old(self)@,
            old(self)@.has(id) && old(self)@.get(id).status != JobStatus::NotStarted ==> r == Err::<
                (),
                Error,
            >(Error::AlreadyStarted) && final(self)@ == old(self)@,
            old(self)@.has(id) && old(self)@.get(id).status == JobStatus::NotStarted ==> ({
                let k = old(self)@.index_of(id);
                &&& final(self)@.entries == old(self)@.entries.update(
                    k,
                    (id, final(self)@.entries[k].1),
                )
                &&& final(self)@.entries[k].1.job == old(self)@.get(id).job
                &&& final(self)@.entries[k].1.wrk_dir == old(self)@.get(id).wrk_dir
                &&& (r is Ok ==> is_terminal(final(self)@.entries[k].1.status)
                    && final(self)@.entries[k].1.sid is Some && (exists|c: Option<i32>|
                    final(self)@.entries[k].1.status == #[trigger] spec_status_of_exit(c)))
                &&& (r matches Err(e) ==> (e == Error::Spawn || e == Error::Io))
            }),
    {
        let k = match self.jobs.check_job(id) {
            Ok(k) => k,
            Err(e) => {
                return Err(e);
            },
        };
        proof {
            lemma_index_unique(old(self)@, id, k as int);
        }
        let s = self.jobs.entry_mut(k);
        if s.is_started() {
            proof {
                assert(final(self)@.entries =~= old(self)@.entries);
                assert(final(self)@ =~= old(self)@);
            }
            return Err(Error::AlreadyStarted);
        }
        match s.start() {
            Ok(()) => {},
            Err(e) => {
                proof {
                    assert(final(self)@.entries =~= old(self)@.entries);
                    assert(final(self)@ =~= old(self)@);
                }
                return Err(e);
            },
        }
        let r = s.wait();
        proof {
            assert(final(self)@.entries =~= old(self)@.entries.update(
                k as int,
                (id, final(self)@.entries[k as int].1),
            ));
            assert(forall|i: int|
                0 <= i < final(self)@.entries.len() ==> (#[trigger] final(self)@.entries[i]).0
                    == old(self)@.entries[i].0);
        }
        r
    }

    /// The files currently in the working directory of the job under `id`,
    /// as absolute paths, non-recursively. Fails with `NotFound` for an
    /// unknown id and with `Io` when the directory cannot be listed.
    pub fn list_job_files(&self, id: JobId) -> (r: Result<Vec<String>, Error>)
        ensures
            !self@.has(id) ==> r == Err::<Vec<String>, Error>(Error::NotFound),
            r == Err::<Vec<String>, Error>(Error::NotFound) ==> !self@.has(id),
            r is Ok || r == Err::<Vec<String>, Error>(Error::NotFound) || r == Err::<
                Vec<String>,
                Error,
            >(Error::Io),
    {
        let k = match self.jobs.check_job(id) {
            Ok(k) => k,
            Err(e) => {
                return Err(e);
            },
        };
        let listing = match fsio::list_dir(self.jobs.get(k).wrk_dir()) {
            Ok(v) => v,
            Err(_) => {
                return Err(Error::Io);
            },
        };
        Ok(regular_files(&listing))
    }

    /// The contents of `file` inside the working directory of the job under
    /// `id`. An unknown id or file name fails with `NotFound`.
    pub fn get_job_file(&self, id: JobId, file: &str) -> (r: Result<Vec<u8>, Error>)
        ensures
            !self@.has(id) ==> r == Err::<Vec<u8>, Error>(Error::NotFound),
            r is Ok || r == Err::<Vec<u8>, Error>(Error::NotFound) || r == Err::<Vec<u8>, Error>(
                Error::Io,
            ),
    {
        let k = match self.jobs.check_job(id) {
            Ok(k) => k,
            Err(e) => {
                return Err(e);
            },
        };
        let path = join_path(self.jobs.get(k).wrk_dir(), file);
        fsio::read_file(path.as_str())
    }

    /// Create or overwrite `file` inside the working directory of the job
    /// under `id` with `body`. Fails with `NotFound` exactly for an unknown
    /// id, and with `Io` when the write fails; the registry itself is
    /// unchanged either way.
    pub fn put_job_file(&mut self, id: JobId, file: &str, body: &[u8]) -> (r: Result<(), Error>)
        ensures
            final(self)@ == old(self)@,
            (r == Err::<(), Error>(Error::NotFound)) <==> !old(self)@.has(id),
            r is Ok || r == Err::<(), Error>(Error::NotFound) || r == Err::<(), Error>(Error::Io),
    {
        let k = match self.jobs.check_job(id) {
            Ok(k) => k,
            Err(e) => {
                return Err(e);
            },
        };
        let path = join_path(self.jobs.get(k).wrk_dir(), file);
        match fsio::write_file(path.as_str(), body) {
            Ok(()) => Ok(()),
            Err(_) => Err(Error::Io),
        }
    }
}

} // verus!
