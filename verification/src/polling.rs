//! The decisions of the job polling commands: which jobs to poll, what a
//! fetched log does to a job, how logs are fetched and how a job restarts.
//! The remote calls themselves are made by the caller.

use vstd::prelude::*;

use crate::job::{job_type_label, Job, JobSort, JobView, ParsedProgress, StartJobRequest};
use crate::job_manager::{job_with_ban, job_with_parsed, JobManager};
use crate::library::{relative_path, relative_to};
use crate::ordering::{sort_jobs, sorted_by};
use crate::registry::{jobs_view, lemma_registry_permutation, registry, unique_ids};
use crate::services::{ban_of, detect_ban};
use crate::error::AppResult;
use crate::remote::process_running;
use crate::text::{decimal, push_decimal, str_lowercase, trim};

verus! {

/// Applies a freshly fetched log tail to a job: its parsed progress, then a
/// Soulseek ban when the log reports one.  An unknown job is left alone.
pub fn absorb_log(mgr: &mut JobManager, job_id: &str, parsed: &ParsedProgress, log: &str)
    requires
        parsed.total > 0 ==> parsed.downloaded + parsed.failed + parsed.not_found <= usize::MAX,
    ensures
        !old(mgr)@.dom().contains(job_id@) ==> final(mgr)@ == old(mgr)@,
        old(mgr)@.dom().contains(job_id@) ==> final(mgr)@.dom() == old(mgr)@.dom(),
        forall|k: Seq<char>| k != job_id@ ==> #[trigger] final(mgr)@.dom().contains(k) == old(mgr)@.dom().contains(k),
        forall|k: Seq<char>|
            k != job_id@ && old(mgr)@.dom().contains(k) ==> #[trigger] final(mgr)@[k] == old(mgr)@[k],
        old(mgr)@.dom().contains(job_id@) && ban_of(str_lowercase(log@)) is None ==> final(mgr)@[job_id@]
            == job_with_parsed(old(mgr)@[job_id@], parsed@, final(mgr)@[job_id@].updated_at),
        old(mgr)@.dom().contains(job_id@) ==> (ban_of(str_lowercase(log@)) matches Some((_, retry))
            ==> exists|t: Seq<char>|
            final(mgr)@[job_id@] == job_with_ban(
                #[trigger] job_with_parsed(old(mgr)@[job_id@], parsed@, t),
                retry,
                final(mgr)@[job_id@].updated_at,
            )),
{
    let ghost m0 = mgr@;
    let _ = mgr.apply_parsed_progress(job_id, parsed);
    let ghost m1 = mgr@;
    match detect_ban(log) {
        Some((_, retry)) => {
            let _ = mgr.set_banned(job_id, retry);
            proof {
                if m0.dom().contains(job_id@) {
                    let t = m1[job_id@].updated_at;
                    assert(mgr@[job_id@] == job_with_ban(
                        job_with_parsed(m0[job_id@], parsed@, t),
                        retry,
                        mgr@[job_id@].updated_at,
                    ));
                }
            }
        },
        None => {},
    }
}

/// Every job, newest update first.
pub fn jobs_by_update(mgr: &JobManager) -> (r: Vec<Job>)
    ensures
        unique_ids(jobs_view(r@)),
        registry(jobs_view(r@)) == mgr@,
        sorted_by(jobs_view(r@), JobSort::UpdatedAt),
{
    let all = mgr.list();
    let ghost before = jobs_view(all@);
    let sorted = sort_jobs(all, JobSort::UpdatedAt);
    proof {
        lemma_registry_permutation(before, jobs_view(sorted@));
    }
    sorted
}

/// The log path of a job, empty when the job is unknown.
pub open spec fn log_path_in(m: Map<Seq<char>, JobView>, id: Seq<char>) -> Seq<char> {
    if m.dom().contains(id) {
        m[id].log_path
    } else {
        Seq::empty()
    }
}

/// The log path of a job (empty when the job is unknown).
pub fn job_log_path(mgr: &JobManager, job_id: &str) -> (r: String)
    ensures
        r@ == log_path_in(mgr@, job_id@),
{
    match mgr.get(job_id) {
        Some(j) => j.log_path,
        None => String::new(),
    }
}

/// The command that prints the last lines of a job's log (60 unless
/// `lines` says otherwise); `None` when the job has no log path.
pub fn job_log_command(mgr: &JobManager, job_id: &str, lines: Option<usize>) -> (r: Option<String>)
    ensures
        log_path_in(mgr@, job_id@).len() == 0 ==> r is None,
        log_path_in(mgr@, job_id@).len() > 0 ==> (r matches Some(c) && c@ == "tail -"@ + decimal(
            (match lines {
                Some(n) => n,
                None => 60,
            }) as nat,
        ) + " '"@ + log_path_in(mgr@, job_id@) + "'"@),
{
    let path = job_log_path(mgr, job_id);
    if path.as_str().is_empty() {
        return None;
    }
    let n: usize = match lines {
        Some(n) => n,
        None => 60,
    };
    let mut c = String::from_str("tail -");
    push_decimal(&mut c, n as u64);
    c.append(" '");
    c.append(path.as_str());
    c.append("'");
    Some(c)
}

/// The remote PID of a job, when the job is known and has one.
pub fn job_pid(mgr: &JobManager, job_id: &str) -> (r: Option<u32>)
    ensures
        r == (if mgr@.dom().contains(job_id@) {
            mgr@[job_id@].pid
        } else {
            None
        }),
{
    match mgr.get(job_id) {
        Some(j) => j.pid,
        None => None,
    }
}

/// The request that starts a job again: same URL, type name and album
/// mode, the same output directory (relative to `output_path` when it lies
/// below it), and a fresh listen port.
pub open spec fn is_restart_request(r: StartJobRequest, old_job: JobView, output_path: Seq<char>) -> bool {
    &&& r.url@ == old_job.url
    &&& r.job_type@ == job_type_label(old_job.job_type)
    &&& r.associated_album_mode == old_job.associated_album_mode
    &&& r.output_subdir matches Some(d) && d@ == relative_to(old_job.output_dir, output_path)
    &&& r.listen_port is None
    &&& !r.enqueue_only
}

/// The request that restarts `old_job` under the output root `output_path`.
pub fn restart_request(old_job: &Job, output_path: &str) -> (r: StartJobRequest)
    ensures
        is_restart_request(r, old_job@, output_path@),
{
    StartJobRequest {
        url: old_job.url.clone(),
        job_type: String::from_str(old_job.job_type.label()),
        associated_album_mode: old_job.associated_album_mode,
        output_subdir: Some(relative_path(old_job.output_dir.as_str(), output_path)),
        listen_port: None,
        enqueue_only: false,
    }
}

/// Whether a job's process still runs, from the answer of the process
/// check; a failed check counts as not running.
pub fn still_running(check: &AppResult<String>) -> (b: bool)
    ensures
        b == (match check {
            Ok(out) => trim(out@) == "yes"@,
            Err(_) => false,
        }),
{
    match check {
        Ok(out) => process_running(out.as_str()),
        Err(_) => false,
    }
}

} // verus!
