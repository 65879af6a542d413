//! In-memory job registry.
//!
//! Jobs are ephemeral: on restart the registry is empty.  The registry is a
//! map from job id to job; it is kept as a list whose ids are pairwise
//! distinct.

use vstd::prelude::*;

use crate::error::{AppError, AppResult};
use crate::job::{
    is_timestamp, job_type_label, now_timestamp, status_active, status_terminal, Job, JobStatus,
    JobView, ParsedProgress, ProgressView,
};
use crate::registry::{
    jobs_view, lemma_jobs_view_push, lemma_registry_absent, lemma_registry_at,
    lemma_registry_facts, lemma_registry_len, lemma_registry_push, lemma_registry_remove,
    lemma_registry_select_start, lemma_registry_select_step, lemma_registry_update, registry,
    restrict_by, unique_ids,
};
use crate::text::{
    ascii_lower, chars_of, contains, contains_chars, decimal, is_ascii_text, push_decimal,
    str_lowercase, to_lowercase,
};

verus! {

/// The registry of download jobs.
pub struct JobManager {
    jobs: Vec<Job>,
}

impl View for JobManager {
    type V = Map<Seq<char>, JobView>;

    closed spec fn view(&self) -> Map<Seq<char>, JobView> {
        registry(jobs_view(self.jobs@))
    }
}

// ---------------------------------------------------------------------
// What each update does to a job
// ---------------------------------------------------------------------

/// A job after its status was set at time `t`: a terminal status also
/// records `t` as the completion time.
pub open spec fn job_with_status(j: JobView, status: JobStatus, t: Seq<char>) -> JobView {
    JobView {
        status: status,
        updated_at: t,
        completed_at: if status_terminal(status) {
            Some(t)
        } else {
            j.completed_at
        },
        ..j
    }
}

/// A job after its progress text was set at time `t`.
pub open spec fn job_with_progress_text(j: JobView, progress: Seq<char>, t: Seq<char>) -> JobView {
    JobView { progress: progress, updated_at: t, ..j }
}

/// `"{action}: {downloaded}/{total} ({failed} failed)"`.
pub open spec fn progress_text(action: Seq<char>, downloaded: usize, total: usize, failed: usize) -> Seq<
    char,
> {
    action + ": "@ + decimal(downloaded as nat) + "/"@ + decimal(total as nat) + " ("@ + decimal(
        failed as nat,
    ) + " failed)"@
}

/// All tracks of the job are accounted for.
pub open spec fn progress_done(p: ProgressView) -> bool {
    p.total > 0 && p.downloaded + p.failed + p.not_found >= p.total
}

/// A job after parsed progress was applied at time `t`: counters and
/// percentage are taken over, a known total is recorded, the current action
/// (if any) becomes the progress text, and a job whose tracks are all
/// accounted for is completed.
pub open spec fn job_with_parsed(j: JobView, p: ProgressView, t: Seq<char>) -> JobView {
    JobView {
        downloaded_count: p.downloaded,
        failed_count: p.failed,
        not_found_count: p.not_found,
        percent_complete: p.percent,
        total_tracks: if p.total > 0 {
            Some(p.total)
        } else {
            j.total_tracks
        },
        progress: match p.current_action {
            Some(a) => progress_text(a, p.downloaded, p.total, p.failed),
            None => j.progress,
        },
        updated_at: t,
        status: if progress_done(p) {
            JobStatus::Completed
        } else {
            j.status
        },
        completed_at: if progress_done(p) {
            Some(t)
        } else {
            j.completed_at
        },
        ..j
    }
}

/// A job that failed with `error` at time `t`.
pub open spec fn job_with_error(j: JobView, error: Seq<char>, t: Seq<char>) -> JobView {
    JobView {
        status: JobStatus::Failed,
        error_message: Some(error),
        updated_at: t,
        completed_at: Some(t),
        ..j
    }
}

/// `"Soulseek ban — retry after {retry}s"`.
pub open spec fn ban_text(retry_after_sec: u64) -> Seq<char> {
    "Soulseek ban — retry after "@ + decimal(retry_after_sec as nat) + "s"@
}

/// A job stopped by a Soulseek ban at time `t`.
pub open spec fn job_with_ban(j: JobView, retry_after_sec: u64, t: Seq<char>) -> JobView {
    JobView {
        status: JobStatus::Banned,
        error_message: Some(ban_text(retry_after_sec)),
        updated_at: t,
        ..j
    }
}

/// A parent job with one more child.
pub open spec fn job_with_child(j: JobView, child: Seq<char>) -> JobView {
    JobView { child_job_ids: j.child_job_ids.push(child), ..j }
}

/// How `s` reads in lowercase is known for ASCII text.
pub open spec fn lowercase_known(s: Seq<char>) -> bool {
    is_ascii_text(s) ==> str_lowercase(s) == ascii_lower(s)
}

/// How a job's URL, id and type name read in lowercase is known for
/// ASCII text.
pub open spec fn job_lowercase_known(j: JobView) -> bool {
    &&& lowercase_known(j.url)
    &&& lowercase_known(j.id)
    &&& lowercase_known(job_type_label(j.job_type))
}

/// The job matches a free-text query (case-insensitively, on URL, id or
/// type name).
pub open spec fn matches_search(j: JobView, q: Seq<char>) -> bool {
    let ql = str_lowercase(q);
    ||| contains(str_lowercase(j.url), ql)
    ||| contains(str_lowercase(j.id), ql)
    ||| contains(str_lowercase(job_type_label(j.job_type)), ql)
}

/// The job passes a status filter and a search filter (absent filters pass).
pub open spec fn job_matches(j: JobView, status: Option<JobStatus>, search: Option<Seq<char>>) -> bool {
    &&& match status {
        Some(s) => j.status == s,
        None => true,
    }
    &&& match search {
        Some(q) => matches_search(j, q),
        None => true,
    }
}

/// The children of a parent that are in the registry, in the order of
/// `child_ids`.
pub open spec fn children_in(m: Map<Seq<char>, JobView>, child_ids: Seq<Seq<char>>) -> Seq<JobView>
    decreases child_ids.len(),
{
    if child_ids.len() == 0 {
        Seq::empty()
    } else {
        let rest = children_in(m, child_ids.drop_last());
        if m.dom().contains(child_ids.last()) {
            rest.push(m[child_ids.last()])
        } else {
            rest
        }
    }
}

/// Sum of a counter over a list of jobs.
pub open spec fn sum_downloaded(s: Seq<JobView>) -> int
    decreases s.len(),
{
    if s.len() == 0 {
        0
    } else {
        sum_downloaded(s.drop_last()) + s.last().downloaded_count
    }
}

/// Sum of the failure counter over a list of jobs.
pub open spec fn sum_failed(s: Seq<JobView>) -> int
    decreases s.len(),
{
    if s.len() == 0 {
        0
    } else {
        sum_failed(s.drop_last()) + s.last().failed_count
    }
}

/// Number of tracks of a job, 0 when unknown.
pub open spec fn known_total(j: JobView) -> int {
    match j.total_tracks {
        Some(t) => t as int,
        None => 0,
    }
}

/// Sum of the known track totals over a list of jobs.
pub open spec fn sum_total(s: Seq<JobView>) -> int
    decreases s.len(),
{
    if s.len() == 0 {
        0
    } else {
        sum_total(s.drop_last()) + known_total(s.last())
    }
}

/// Tracks downloaded by a parent and its registered children.
pub open spec fn family_downloaded(m: Map<Seq<char>, JobView>, parent_id: Seq<char>) -> int {
    m[parent_id].downloaded_count + sum_downloaded(children_in(m, m[parent_id].child_job_ids))
}

/// Tracks failed by a parent and its registered children.
pub open spec fn family_failed(m: Map<Seq<char>, JobView>, parent_id: Seq<char>) -> int {
    m[parent_id].failed_count + sum_failed(children_in(m, m[parent_id].child_job_ids))
}

/// Known track totals of a parent and its registered children.
pub open spec fn family_total(m: Map<Seq<char>, JobView>, parent_id: Seq<char>) -> int {
    known_total(m[parent_id]) + sum_total(children_in(m, m[parent_id].child_job_ids))
}

/// The aggregate counters of a parent and its children fit in `usize`.
pub open spec fn aggregate_fits(m: Map<Seq<char>, JobView>, parent_id: Seq<char>) -> bool {
    &&& family_downloaded(m, parent_id) <= usize::MAX
    &&& family_failed(m, parent_id) <= usize::MAX
    &&& family_total(m, parent_id) <= usize::MAX
}

/// Sums over the children named by a prefix of the id list are at most the
/// sums over all of them.
pub proof fn lemma_children_sums_prefix(m: Map<Seq<char>, JobView>, c: Seq<Seq<char>>, k: int)
    requires
        0 <= k <= c.len(),
    ensures
        sum_downloaded(children_in(m, c.take(k))) <= sum_downloaded(children_in(m, c)),
        sum_failed(children_in(m, c.take(k))) <= sum_failed(children_in(m, c)),
        sum_total(children_in(m, c.take(k))) <= sum_total(children_in(m, c)),
    decreases c.len(),
{
    if k == c.len() {
        assert(c.take(k) == c);
    } else {
        assert(c.drop_last().take(k) == c.take(k));
        lemma_children_sums_prefix(m, c.drop_last(), k);
        let rest = children_in(m, c.drop_last());
        if m.dom().contains(c.last()) {
            assert(rest.push(m[c.last()]).drop_last() == rest);
        }
    }
}

/// Every sum over a prefix is at most the sum over the whole list.
pub proof fn lemma_sums_prefix(s: Seq<JobView>, n: int)
    requires
        0 <= n <= s.len(),
    ensures
        0 <= sum_downloaded(s.take(n)) <= sum_downloaded(s),
        0 <= sum_failed(s.take(n)) <= sum_failed(s),
        0 <= sum_total(s.take(n)) <= sum_total(s),
    decreases s.len(),
{
    if n < s.len() {
        assert(s.drop_last().take(n) == s.take(n));
        lemma_sums_prefix(s.drop_last(), n);
    } else {
        assert(s.take(n) == s);
        lemma_sums_nonneg(s);
    }
}

/// Track sums are never negative.
pub proof fn lemma_sums_nonneg(s: Seq<JobView>)
    ensures
        0 <= sum_downloaded(s),
        0 <= sum_failed(s),
        0 <= sum_total(s),
    decreases s.len(),
{
    if s.len() > 0 {
        lemma_sums_nonneg(s.drop_last());
    }
}

impl JobManager {
    /// The list holds each id at most once.
    #[verifier::type_invariant]
    spec fn wf(&self) -> bool {
        unique_ids(jobs_view(self.jobs@))
    }

    /// An empty registry.
    pub fn new() -> (m: JobManager)
        ensures
            m@ == Map::<Seq<char>, JobView>::empty(),
    {
        let m = JobManager { jobs: Vec::new() };
        assert(jobs_view(m.jobs@) =~= Seq::<JobView>::empty());
        m
    }

    /// Index of the job with id `id`.
    fn position(&self, id: &str) -> (r: Option<usize>)
        ensures
            match r {
                Some(i) => i < self.jobs.len() && self.jobs@[i as int].id@ == id@,
                None => forall|i: int| 0 <= i < self.jobs.len() ==> self.jobs@[i].id@ != id@,
            },
            r is Some <==> self@.dom().contains(id@),
            r matches Some(i) ==> self@[id@] == self.jobs@[i as int]@,
    {
        proof {
            use_type_invariant(self);
        }
        let key = String::from_str(id);
        let mut i: usize = 0;
        while i < self.jobs.len()
            invariant
                self.wf(),
                i <= self.jobs.len(),
                key@ == id@,
                forall|j: int| 0 <= j < i ==> self.jobs@[j].id@ != id@,
            decreases self.jobs.len() - i,
        {
            if self.jobs[i].id == key {
                proof {
                    assert(jobs_view(self.jobs@)[i as int] == self.jobs@[i as int]@);
                    lemma_registry_at(jobs_view(self.jobs@), i as int);
                }
                return Some(i);
            }
            i = i + 1;
        }
        proof {
            assert forall|j: int| 0 <= j < jobs_view(self.jobs@).len() implies jobs_view(
                self.jobs@,
            )[j].id != id@ by {
                assert(jobs_view(self.jobs@)[j] == self.jobs@[j]@);
            }
            lemma_registry_absent(jobs_view(self.jobs@), id@);
        }
        None
    }

    /// Puts `job` in place of the job at position `i`, which has the same id.
    fn replace_at(&mut self, i: usize, job: Job)
        requires
            i < old(self).jobs.len(),
            job.id@ == old(self).jobs@[i as int].id@,
        ensures
            final(self)@ == old(self)@.insert(job.id@, job@),
            final(self)@.dom() == old(self)@.dom(),
    {
        proof {
            use_type_invariant(&*self);
        }
        let ghost s = jobs_view(self.jobs@);
        let ghost x = job@;
        proof {
            lemma_registry_update(s, i as int, x);
            lemma_registry_at(s, i as int);
        }
        let mut jobs: Vec<Job> = Vec::new();
        std::mem::swap(&mut jobs, &mut self.jobs);
        jobs.set(i, job);
        proof {
            assert(jobs_view(jobs@) =~= s.update(i as int, x));
            assert(registry(s).insert(x.id, x).dom() =~= registry(s).dom());
        }
        self.jobs = jobs;
    }

    // --- CRUD ---

    /// Adds a job, replacing any job with the same id.
    pub fn insert(&mut self, job: Job)
        ensures
            final(self)@ == old(self)@.insert(job.id@, job@),
    {
        proof {
            use_type_invariant(&*self);
        }
        match self.position(job.id.as_str()) {
            Some(i) => {
                self.replace_at(i, job);
            },
            None => {
                let ghost s = jobs_view(self.jobs@);
                let ghost x = job@;
                proof {
                    lemma_registry_push(s, x);
                    lemma_jobs_view_push(self.jobs@, job);
                }
                let mut jobs: Vec<Job> = Vec::new();
                std::mem::swap(&mut jobs, &mut self.jobs);
                jobs.push(job);
                self.jobs = jobs;
            },
        }
    }

    /// A copy of the job with id `id`.
    pub fn get(&self, id: &str) -> (r: Option<Job>)
        ensures
            r is Some <==> self@.dom().contains(id@),
            r matches Some(j) ==> j@ == self@[id@],
    {
        proof {
            use_type_invariant(self);
        }
        match self.position(id) {
            Some(i) => Some(self.jobs[i].clone()),
            None => None,
        }
    }

    /// Removes and returns the job with id `id`.
    pub fn remove(&mut self, id: &str) -> (r: Option<Job>)
        ensures
            r is Some <==> old(self)@.dom().contains(id@),
            r matches Some(j) ==> j@ == old(self)@[id@],
            final(self)@ == old(self)@.remove(id@),
    {
        proof {
            use_type_invariant(&*self);
        }
        match self.position(id) {
            Some(i) => {
                let ghost s = jobs_view(self.jobs@);
                proof {
                    lemma_registry_remove(s, i as int);
                }
                let mut jobs: Vec<Job> = Vec::new();
                std::mem::swap(&mut jobs, &mut self.jobs);
                let j = jobs.remove(i);
                proof {
                    assert(jobs_view(jobs@) =~= s.remove(i as int));
                }
                self.jobs = jobs;
                Some(j)
            },
            None => {
                proof {
                    assert(self@.remove(id@) =~= self@);
                }
                None
            },
        }
    }

    /// Copies of all jobs, each once, in no particular order.
    pub fn list(&self) -> (r: Vec<Job>)
        ensures
            unique_ids(jobs_view(r@)),
            registry(jobs_view(r@)) == self@,
    {
        proof {
            use_type_invariant(self);
        }
        let mut r: Vec<Job> = Vec::new();
        let mut i: usize = 0;
        while i < self.jobs.len()
            invariant
                i <= self.jobs.len(),
                jobs_view(r@) == jobs_view(self.jobs@).take(i as int),
            decreases self.jobs.len() - i,
        {
            let c = self.jobs[i].clone();
            proof {
                lemma_jobs_view_push(r@, c);
                assert(jobs_view(self.jobs@).take(i + 1) == jobs_view(self.jobs@).take(
                    i as int,
                ).push(self.jobs@[i as int]@));
            }
            r.push(c);
            i = i + 1;
        }
        assert(jobs_view(self.jobs@).take(self.jobs.len() as int) == jobs_view(self.jobs@));
        r
    }

    /// Whether a job passes a status filter and a lowercase search query.
    /// With a query, the job's URL, id and type name are lowercased, which
    /// tells how their ASCII ones read in lowercase.
    fn passes(job: &Job, status: Option<JobStatus>, query_lower: &Option<Vec<char>>) -> (b: bool)
        ensures
            b == (match status {
                Some(s) => job.status == s,
                None => true,
            } && match query_lower {
                Some(ql) => contains(str_lowercase(job.url@), ql@) || contains(
                    str_lowercase(job.id@),
                    ql@,
                ) || contains(str_lowercase(job_type_label(job.job_type)), ql@),
                None => true,
            }),
            query_lower is Some ==> job_lowercase_known(job@),
    {
        match query_lower {
            None => match status {
                Some(s) => job.status == s,
                None => true,
            },
            Some(ql) => {
                let url = chars_of(to_lowercase(job.url.as_str()).as_str());
                let id = chars_of(to_lowercase(job.id.as_str()).as_str());
                let label = chars_of(to_lowercase(job.job_type.label()).as_str());
                let status_ok = match status {
                    Some(s) => job.status == s,
                    None => true,
                };
                status_ok && (contains_chars(&url, ql) || contains_chars(&id, ql) || contains_chars(
                    &label,
                    ql,
                ))
            },
        }
    }

    /// Copies of the jobs with the given status (if any) whose URL, id or
    /// type name contains `search` (if any), compared case-insensitively.
    pub fn list_filtered(&self, status: Option<JobStatus>, search: Option<&str>) -> (r: Vec<Job>)
        ensures
            unique_ids(jobs_view(r@)),
            registry(jobs_view(r@)) == restrict_by(
                self@,
                |j: JobView|
                    job_matches(
                        j,
                        status,
                        match search {
                            Some(q) => Some(q@),
                            None => None,
                        },
                    ),
            ),
            search matches Some(q) ==> lowercase_known(q@),
            search is Some ==> forall|k: Seq<char>|
                self@.dom().contains(k) ==> job_lowercase_known(#[trigger] self@[k]),
    {
        proof {
            use_type_invariant(self);
        }
        let ghost sv = match search {
            Some(q) => Some(q@),
            None => None::<Seq<char>>,
        };
        let ghost p = |j: JobView| job_matches(j, status, sv);
        let query_lower: Option<Vec<char>> = match search {
            Some(q) => Some(chars_of(to_lowercase(q).as_str())),
            None => None,
        };
        let ghost s = jobs_view(self.jobs@);
        let mut r: Vec<Job> = Vec::new();
        proof {
            lemma_registry_select_start(s, p);
            assert(jobs_view(r@) =~= Seq::<JobView>::empty());
        }
        let mut i: usize = 0;
        while i < self.jobs.len()
            invariant
                i <= self.jobs.len(),
                s == jobs_view(self.jobs@),
                unique_ids(s),
                p == (|j: JobView| job_matches(j, status, sv)),
                sv == (match search {
                    Some(q) => Some(q@),
                    None => None::<Seq<char>>,
                }),
                query_lower matches Some(ql) ==> sv matches Some(q) && ql@ == str_lowercase(q),
                query_lower is None ==> sv is None,
                search matches Some(q) ==> lowercase_known(q@),
                query_lower is Some ==> forall|m: int|
                    0 <= m < i ==> job_lowercase_known(#[trigger] s[m]),
                unique_ids(jobs_view(r@)),
                registry(jobs_view(r@)) == restrict_by(registry(s.take(i as int)), p),
            decreases self.jobs.len() - i,
        {
            let keep = Self::passes(&self.jobs[i], status, &query_lower);
            proof {
                assert(s[i as int] == self.jobs@[i as int]@);
                assert(keep == p(s[i as int]));
                lemma_registry_select_step(s, jobs_view(r@), i as int, p);
                if query_lower is Some {
                    assert forall|m: int| 0 <= m < i + 1 implies job_lowercase_known(
                        #[trigger] s[m],
                    ) by {
                        if m == i {
                            assert(s[m] == self.jobs@[i as int]@);
                        }
                    }
                }
            }
            if keep {
                let c = self.jobs[i].clone();
                proof {
                    lemma_jobs_view_push(r@, c);
                }
                r.push(c);
            }
            i = i + 1;
        }
        assert(s.take(s.len() as int) == s);
        proof {
            if search is Some {
                assert forall|k: Seq<char>| self@.dom().contains(k) implies job_lowercase_known(
                    #[trigger] self@[k],
                ) by {
                    lemma_registry_facts(s, k);
                }
            }
        }
        r
    }

    /// Copies of the pending, running or queued jobs, each once.
    pub fn active_jobs(&self) -> (r: Vec<Job>)
        ensures
            unique_ids(jobs_view(r@)),
            registry(jobs_view(r@)) == restrict_by(self@, |j: JobView| status_active(j.status)),
    {
        proof {
            use_type_invariant(self);
        }
        let ghost p = |j: JobView| status_active(j.status);
        let ghost s = jobs_view(self.jobs@);
        let mut r: Vec<Job> = Vec::new();
        proof {
            lemma_registry_select_start(s, p);
            assert(jobs_view(r@) =~= Seq::<JobView>::empty());
        }
        let mut i: usize = 0;
        while i < self.jobs.len()
            invariant
                i <= self.jobs.len(),
                s == jobs_view(self.jobs@),
                unique_ids(s),
                p == (|j: JobView| status_active(j.status)),
                unique_ids(jobs_view(r@)),
                registry(jobs_view(r@)) == restrict_by(registry(s.take(i as int)), p),
            decreases self.jobs.len() - i,
        {
            let keep = self.jobs[i].status.is_active();
            proof {
                assert(s[i as int] == self.jobs@[i as int]@);
                assert(keep == p(s[i as int]));
                lemma_registry_select_step(s, jobs_view(r@), i as int, p);
            }
            if keep {
                let c = self.jobs[i].clone();
                proof {
                    lemma_jobs_view_push(r@, c);
                }
                r.push(c);
            }
            i = i + 1;
        }
        assert(s.take(s.len() as int) == s);
        r
    }

    /// Number of pending, running or queued jobs.
    pub fn active_count(&self) -> (n: usize)
        ensures
            n == restrict_by(self@, |j: JobView| status_active(j.status)).dom().len(),
    {
        proof {
            use_type_invariant(self);
        }
        let ghost p = |j: JobView| status_active(j.status);
        let ghost s = jobs_view(self.jobs@);
        let ghost mut sel = Seq::<JobView>::empty();
        proof {
            lemma_registry_select_start(s, p);
        }
        let mut n: usize = 0;
        let mut i: usize = 0;
        while i < self.jobs.len()
            invariant
                i <= self.jobs.len(),
                s == jobs_view(self.jobs@),
                unique_ids(s),
                p == (|j: JobView| status_active(j.status)),
                n == sel.len(),
                sel.len() <= i,
                unique_ids(sel),
                registry(sel) == restrict_by(registry(s.take(i as int)), p),
            decreases self.jobs.len() - i,
        {
            proof {
                assert(s[i as int] == self.jobs@[i as int]@);
                lemma_registry_select_step(s, sel, i as int, p);
            }
            if self.jobs[i].status.is_active() {
                n = n + 1;
                proof {
                    sel = sel.push(s[i as int]);
                }
            }
            i = i + 1;
        }
        proof {
            assert(s.take(s.len() as int) == s);
            lemma_registry_len(sel);
        }
        n
    }

    /// Drops every completed, failed or stopped job.
    pub fn clear_completed(&mut self)
        ensures
            final(self)@ == restrict_by(old(self)@, |j: JobView| !status_terminal(j.status)),
    {
        proof {
            use_type_invariant(&*self);
        }
        let ghost p = |j: JobView| !status_terminal(j.status);
        let ghost s = jobs_view(self.jobs@);
        let mut kept: Vec<Job> = Vec::new();
        proof {
            lemma_registry_select_start(s, p);
            assert(jobs_view(kept@) =~= Seq::<JobView>::empty());
        }
        let mut i: usize = 0;
        while i < self.jobs.len()
            invariant
                i <= self.jobs.len(),
                s == jobs_view(self.jobs@),
                unique_ids(s),
                p == (|j: JobView| !status_terminal(j.status)),
                unique_ids(jobs_view(kept@)),
                registry(jobs_view(kept@)) == restrict_by(registry(s.take(i as int)), p),
            decreases self.jobs.len() - i,
        {
            proof {
                assert(s[i as int] == self.jobs@[i as int]@);
                lemma_registry_select_step(s, jobs_view(kept@), i as int, p);
            }
            if !self.jobs[i].status.is_terminal() {
                let c = self.jobs[i].clone();
                proof {
                    lemma_jobs_view_push(kept@, c);
                }
                kept.push(c);
            }
            i = i + 1;
        }
        assert(s.take(s.len() as int) == s);
        self.jobs = kept;
    }

    // --- Status updates ---

    /// Sets the status of a job and stamps the update time; a terminal
    /// status also records the completion time.
    pub fn update_status(&mut self, id: &str, status: JobStatus) -> (r: AppResult<()>)
        ensures
            old(self)@.dom().contains(id@) ==> r is Ok && final(self)@ == old(self)@.insert(
                id@,
                job_with_status(old(self)@[id@], status, final(self)@[id@].updated_at),
            ),
            old(self)@.dom().contains(id@) ==> is_timestamp(final(self)@[id@].updated_at),
            !old(self)@.dom().contains(id@) ==> (r matches Err(AppError::JobNotFound(m)) && m@
                == id@) && final(self)@ == old(self)@,
    {
        proof {
            use_type_invariant(&*self);
        }
        match self.position(id) {
            None => Err(AppError::JobNotFound(String::from_str(id))),
            Some(i) => {
                let mut job = self.jobs[i].clone();
                job.status = status;
                job.updated_at = now_timestamp();
                if status.is_terminal() {
                    job.completed_at = Some(job.updated_at.clone());
                }
                self.replace_at(i, job);
                Ok(())
            },
        }
    }

    /// Sets the progress text of a job and stamps the update time.
    pub fn update_progress(&mut self, id: &str, progress: &str) -> (r: AppResult<()>)
        ensures
            old(self)@.dom().contains(id@) ==> r is Ok && final(self)@ == old(self)@.insert(
                id@,
                job_with_progress_text(old(self)@[id@], progress@, final(self)@[id@].updated_at),
            ),
            old(self)@.dom().contains(id@) ==> is_timestamp(final(self)@[id@].updated_at),
            !old(self)@.dom().contains(id@) ==> (r matches Err(AppError::JobNotFound(m)) && m@
                == id@) && final(self)@ == old(self)@,
    {
        proof {
            use_type_invariant(&*self);
        }
        match self.position(id) {
            None => Err(AppError::JobNotFound(String::from_str(id))),
            Some(i) => {
                let mut job = self.jobs[i].clone();
                job.progress = String::from_str(progress);
                job.updated_at = now_timestamp();
                self.replace_at(i, job);
                Ok(())
            },
        }
    }

    /// Takes over parsed log progress into a job; a job whose tracks are all
    /// accounted for becomes completed (with or without failures).
    pub fn apply_parsed_progress(&mut self, id: &str, parsed: &ParsedProgress) -> (r: AppResult<()>)
        requires
            parsed.total > 0 ==> parsed.downloaded + parsed.failed + parsed.not_found <= usize::MAX,
        ensures
            old(self)@.dom().contains(id@) ==> r is Ok && final(self)@ == old(self)@.insert(
                id@,
                job_with_parsed(old(self)@[id@], parsed@, final(self)@[id@].updated_at),
            ),
            old(self)@.dom().contains(id@) ==> is_timestamp(final(self)@[id@].updated_at),
            !old(self)@.dom().contains(id@) ==> (r matches Err(AppError::JobNotFound(m)) && m@
                == id@) && final(self)@ == old(self)@,
    {
        proof {
            use_type_invariant(&*self);
        }
        match self.position(id) {
            None => Err(AppError::JobNotFound(String::from_str(id))),
            Some(i) => {
                let mut job = self.jobs[i].clone();
                job.downloaded_count = parsed.downloaded;
                job.failed_count = parsed.failed;
                job.not_found_count = parsed.not_found;
                job.percent_complete = parsed.percent;
                if parsed.total > 0 {
                    job.total_tracks = Some(parsed.total);
                }
                match &parsed.current_action {
                    Some(action) => {
                        let mut text = action.clone();
                        text.append(": ");
                        push_decimal(&mut text, parsed.downloaded as u64);
                        text.append("/");
                        push_decimal(&mut text, parsed.total as u64);
                        text.append(" (");
                        push_decimal(&mut text, parsed.failed as u64);
                        text.append(" failed)");
                        job.progress = text;
                    },
                    None => {},
                }
                job.updated_at = now_timestamp();
                if parsed.total > 0 && parsed.downloaded + parsed.failed + parsed.not_found
                    >= parsed.total {
                    job.status = JobStatus::Completed;
                    job.completed_at = Some(job.updated_at.clone());
                }
                self.replace_at(i, job);
                Ok(())
            },
        }
    }

    /// Marks a job as failed with an error message.
    pub fn set_error(&mut self, id: &str, error: &str) -> (r: AppResult<()>)
        ensures
            old(self)@.dom().contains(id@) ==> r is Ok && final(self)@ == old(self)@.insert(
                id@,
                job_with_error(old(self)@[id@], error@, final(self)@[id@].updated_at),
            ),
            old(self)@.dom().contains(id@) ==> is_timestamp(final(self)@[id@].updated_at),
            !old(self)@.dom().contains(id@) ==> (r matches Err(AppError::JobNotFound(m)) && m@
                == id@) && final(self)@ == old(self)@,
    {
        proof {
            use_type_invariant(&*self);
        }
        match self.position(id) {
            None => Err(AppError::JobNotFound(String::from_str(id))),
            Some(i) => {
                let mut job = self.jobs[i].clone();
                job.status = JobStatus::Failed;
                job.error_message = Some(String::from_str(error));
                job.updated_at = now_timestamp();
                job.completed_at = Some(job.updated_at.clone());
                self.replace_at(i, job);
                Ok(())
            },
        }
    }

    /// Records whether the user has acknowledged a job's completion or
    /// failure.
    pub fn set_acknowledged(&mut self, id: &str, acknowledged: bool) -> (r: AppResult<()>)
        ensures
            old(self)@.dom().contains(id@) ==> r is Ok && final(self)@ == old(self)@.insert(
                id@,
                JobView { acknowledged, ..old(self)@[id@] },
            ),
            !old(self)@.dom().contains(id@) ==> (r matches Err(AppError::JobNotFound(m)) && m@
                == id@) && final(self)@ == old(self)@,
    {
        proof {
            use_type_invariant(&*self);
        }
        match self.position(id) {
            None => Err(AppError::JobNotFound(String::from_str(id))),
            Some(i) => {
                let mut job = self.jobs[i].clone();
                job.acknowledged = acknowledged;
                self.replace_at(i, job);
                Ok(())
            },
        }
    }

    /// Marks a job as stopped by a Soulseek ban.
    pub fn set_banned(&mut self, id: &str, retry_after_sec: u64) -> (r: AppResult<()>)
        ensures
            old(self)@.dom().contains(id@) ==> r is Ok && final(self)@ == old(self)@.insert(
                id@,
                job_with_ban(old(self)@[id@], retry_after_sec, final(self)@[id@].updated_at),
            ),
            old(self)@.dom().contains(id@) ==> is_timestamp(final(self)@[id@].updated_at),
            !old(self)@.dom().contains(id@) ==> (r matches Err(AppError::JobNotFound(m)) && m@
                == id@) && final(self)@ == old(self)@,
    {
        proof {
            use_type_invariant(&*self);
        }
        match self.position(id) {
            None => Err(AppError::JobNotFound(String::from_str(id))),
            Some(i) => {
                let mut job = self.jobs[i].clone();
                job.status = JobStatus::Banned;
                let mut msg = String::from_str("Soulseek ban — retry after ");
                push_decimal(&mut msg, retry_after_sec);
                msg.append("s");
                job.error_message = Some(msg);
                job.updated_at = now_timestamp();
                self.replace_at(i, job);
                Ok(())
            },
        }
    }

    // --- Child jobs (Associated Album Mode) ---

    /// Records `child_id` as the newest child of a parent job.
    pub fn add_child(&mut self, parent_id: &str, child_id: String) -> (r: AppResult<()>)
        ensures
            old(self)@.dom().contains(parent_id@) ==> r is Ok && final(self)@ == old(self)@.insert(
                parent_id@,
                job_with_child(old(self)@[parent_id@], child_id@),
            ),
            !old(self)@.dom().contains(parent_id@) ==> (r matches Err(AppError::JobNotFound(m))
                && m@ == parent_id@) && final(self)@ == old(self)@,
    {
        proof {
            use_type_invariant(&*self);
        }
        match self.position(parent_id) {
            None => Err(AppError::JobNotFound(String::from_str(parent_id))),
            Some(i) => {
                let mut job = self.jobs[i].clone();
                let ghost before = job.child_job_ids@;
                job.child_job_ids.push(child_id);
                proof {
                    assert(crate::job::string_views(job.child_job_ids@) =~= crate::job::string_views(
                        before,
                    ).push(child_id@));
                }
                self.replace_at(i, job);
                Ok(())
            },
        }
    }

    /// Copies of the registered children of a parent, in the order they
    /// were added; empty when the parent is unknown.
    pub fn get_children(&self, parent_id: &str) -> (r: Vec<Job>)
        ensures
            self@.dom().contains(parent_id@) ==> jobs_view(r@) == children_in(
                self@,
                self@[parent_id@].child_job_ids,
            ),
            !self@.dom().contains(parent_id@) ==> r@.len() == 0,
    {
        proof {
            use_type_invariant(self);
        }
        let mut r: Vec<Job> = Vec::new();
        let pi = match self.position(parent_id) {
            Some(pi) => pi,
            None => {
                return r;
            },
        };
        let cids = &self.jobs[pi].child_job_ids;
        let ghost c = crate::job::string_views(cids@);
        assert(c == self@[parent_id@].child_job_ids);
        assert(c.take(0) == Seq::<Seq<char>>::empty());
        assert(jobs_view(r@) =~= Seq::<JobView>::empty());
        let mut k: usize = 0;
        while k < cids.len()
            invariant
                self.wf(),
                k <= cids.len(),
                c == crate::job::string_views(cids@),
                jobs_view(r@) == children_in(self@, c.take(k as int)),
            decreases cids.len() - k,
        {
            let ghost prev = r@;
            assert(c.take(k + 1).drop_last() == c.take(k as int));
            assert(c.take(k + 1).last() == cids@[k as int]@);
            match self.position(cids[k].as_str()) {
                Some(j) => {
                    let child = self.jobs[j].clone();
                    proof {
                        lemma_jobs_view_push(r@, child);
                    }
                    r.push(child);
                },
                None => {},
            }
            k = k + 1;
        }
        assert(c.take(cids.len() as int) == c);
        r
    }

    /// Whether the aggregate counters of a parent and its children fit in
    /// `usize` (true for an unknown parent).
    pub fn aggregate_in_range(&self, parent_id: &str) -> (b: bool)
        ensures
            b == (self@.dom().contains(parent_id@) ==> aggregate_fits(self@, parent_id@)),
    {
        proof {
            use_type_invariant(self);
        }
        match self.aggregate_checked(parent_id) {
            Ok(_) => true,
            Err(_) => false,
        }
    }

    /// The aggregate (downloaded, failed, total) of a parent and its
    /// children, or `Err` when a sum leaves `usize`.
    fn aggregate_checked(&self, parent_id: &str) -> (r: Result<Option<(usize, usize, usize)>, ()>)
        ensures
            r is Err <==> (self@.dom().contains(parent_id@) && !aggregate_fits(self@, parent_id@)),
            r matches Ok(o) ==> (o is None <==> !self@.dom().contains(parent_id@)),
            r matches Ok(Some(t)) ==> t.0 == family_downloaded(self@, parent_id@) && t.1
                == family_failed(self@, parent_id@) && t.2 == family_total(self@, parent_id@),
    {
        proof {
            use_type_invariant(self);
        }
        let pi = match self.position(parent_id) {
            Some(pi) => pi,
            None => {
                return Ok(None);
            },
        };
        let parent = &self.jobs[pi];
        let ghost m = self@;
        let ghost c = crate::job::string_views(parent.child_job_ids@);
        assert(c == m[parent_id@].child_job_ids);
        let mut total: usize = match parent.total_tracks {
            Some(t) => t,
            None => 0,
        };
        let mut downloaded: usize = parent.downloaded_count;
        let mut failed: usize = parent.failed_count;
        assert(c.take(0) == Seq::<Seq<char>>::empty());
        let mut k: usize = 0;
        while k < parent.child_job_ids.len()
            invariant
                self.wf(),
                m == self@,
                k <= parent.child_job_ids.len(),
                c == crate::job::string_views(parent.child_job_ids@),
                c == m[parent_id@].child_job_ids,
                m.dom().contains(parent_id@),
                downloaded == m[parent_id@].downloaded_count + sum_downloaded(
                    children_in(m, c.take(k as int)),
                ),
                failed == m[parent_id@].failed_count + sum_failed(children_in(m, c.take(k as int))),
                total == known_total(m[parent_id@]) + sum_total(children_in(m, c.take(k as int))),
            decreases parent.child_job_ids.len() - k,
        {
            assert(c.take(k + 1).drop_last() == c.take(k as int));
            assert(c.take(k + 1).last() == parent.child_job_ids@[k as int]@);
            let ghost rest = children_in(m, c.take(k as int));
            proof {
                lemma_children_sums_prefix(m, c, k + 1);
                lemma_sums_nonneg(children_in(m, c.take(k + 1)));
            }
            match self.position(parent.child_job_ids[k].as_str()) {
                Some(j) => {
                    let child = &self.jobs[j];
                    let ct: usize = match child.total_tracks {
                        Some(t) => t,
                        None => 0,
                    };
                    assert(rest.push(child@).drop_last() == rest);
                    match (
                        downloaded.checked_add(child.downloaded_count),
                        failed.checked_add(child.failed_count),
                        total.checked_add(ct),
                    ) {
                        (Some(d), Some(f), Some(t)) => {
                            downloaded = d;
                            failed = f;
                            total = t;
                        },
                        _ => {
                            return Err(());
                        },
                    }
                },
                None => {},
            }
            k = k + 1;
        }
        assert(c.take(parent.child_job_ids.len() as int) == c);
        Ok(Some((downloaded, failed, total)))
    }

    /// Aggregate progress across a parent and all its registered children:
    /// (downloaded, failed, total), or `None` for an unknown parent.
    pub fn aggregate_progress(&self, parent_id: &str) -> (r: Option<(usize, usize, usize)>)
        requires
            self@.dom().contains(parent_id@) ==> aggregate_fits(self@, parent_id@),
        ensures
            r is None <==> !self@.dom().contains(parent_id@),
            r matches Some(t) ==> t.0 == family_downloaded(self@, parent_id@) && t.1
                == family_failed(self@, parent_id@) && t.2 == family_total(self@, parent_id@),
    {
        proof {
            use_type_invariant(self);
        }
        match self.aggregate_checked(parent_id) {
            Ok(o) => o,
            Err(_) => None,
        }
    }
}

impl Default for JobManager {
    fn default() -> (m: JobManager)
        ensures
            m@ == Map::<Seq<char>, JobView>::empty(),
    {
        JobManager::new()
    }
}

} // verus!
