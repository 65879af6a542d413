use sldl_remote::job::{Job, JobStatus, JobType, ParsedProgress, Ratio};
use sldl_remote::job_manager::JobManager;

fn job(id: &str, url: &str) -> Job {
    let mut j = Job::default();
    j.id = id.to_string();
    j.url = url.to_string();
    j
}

#[test]
fn insert_and_get() {
    let mut mgr = JobManager::default();
    let job = Job {
        id: "test-1".into(),
        ..Default::default()
    };
    mgr.insert(job.clone());
    assert_eq!(mgr.get("test-1").unwrap().id, "test-1");
}

#[test]
fn list_filtered() {
    let mut mgr = JobManager::default();
    mgr.insert(Job {
        id: "a".into(),
        url: "https://spotify.com/playlist/abc".into(),
        ..Default::default()
    });
    mgr.insert(Job {
        id: "b".into(),
        url: "https://spotify.com/album/def".into(),
        ..Default::default()
    });
    let results = mgr.list_filtered(None, Some("album"));
    assert_eq!(results.len(), 1);
    assert_eq!(results[0].id, "b");
}

#[test]
fn fresh_job_is_pending() {
    let j = Job::default();
    assert_eq!(j.status, JobStatus::Pending);
    assert_eq!(j.progress, "Pending");
    assert_eq!(j.job_type, JobType::Auto);
    assert!(j.id.is_empty());
    assert!(j.child_job_ids.is_empty());
    assert_eq!(j.created_at, j.updated_at);
    assert_eq!(j.created_at.len(), 19);
}

#[test]
fn insert_replaces_same_id() {
    let mut mgr = JobManager::new();
    mgr.insert(job("x", "first"));
    mgr.insert(job("x", "second"));
    assert_eq!(mgr.list().len(), 1);
    assert_eq!(mgr.get("x").unwrap().url, "second");
}

#[test]
fn remove_then_get_is_none() {
    let mut mgr = JobManager::new();
    mgr.insert(job("x", "u"));
    mgr.insert(job("y", "v"));
    let removed = mgr.remove("x").unwrap();
    assert_eq!(removed.id, "x");
    assert!(mgr.get("x").is_none());
    assert!(mgr.remove("x").is_none());
    assert_eq!(mgr.get("y").unwrap().url, "v");
}

#[test]
fn list_filtered_by_status_and_case_insensitive_search() {
    let mut mgr = JobManager::new();
    mgr.insert(job("a", "https://open.spotify.com/ALBUM/one"));
    mgr.insert(job("b", "https://open.spotify.com/track/two"));
    mgr.update_status("b", JobStatus::Running).unwrap();
    let running = mgr.list_filtered(Some(JobStatus::Running), None);
    assert_eq!(running.len(), 1);
    assert_eq!(running[0].id, "b");
    let found = mgr.list_filtered(None, Some("album"));
    assert_eq!(found.len(), 1);
    assert_eq!(found[0].id, "a");
    // the job type's label is searched too
    let autos = mgr.list_filtered(None, Some("AUTO"));
    assert_eq!(autos.len(), 2);
    assert_eq!(mgr.list_filtered(Some(JobStatus::Failed), None).len(), 0);
}

#[test]
fn active_count_and_clear_completed() {
    let mut mgr = JobManager::new();
    mgr.insert(job("p", "u"));
    mgr.insert(job("r", "u"));
    mgr.insert(job("c", "u"));
    mgr.insert(job("f", "u"));
    mgr.update_status("r", JobStatus::Running).unwrap();
    mgr.update_status("c", JobStatus::Completed).unwrap();
    mgr.update_status("f", JobStatus::Failed).unwrap();
    assert_eq!(mgr.active_count(), 2);
    mgr.clear_completed();
    assert_eq!(mgr.list().len(), 2);
    assert!(mgr.get("c").is_none());
    assert!(mgr.get("f").is_none());
    assert_eq!(mgr.active_count(), 2);
    mgr.clear_completed();
    assert_eq!(mgr.list().len(), 2);
}

#[test]
fn terminal_status_records_completion_time() {
    let mut mgr = JobManager::new();
    mgr.insert(job("a", "u"));
    mgr.update_status("a", JobStatus::Running).unwrap();
    assert!(mgr.get("a").unwrap().completed_at.is_none());
    mgr.update_status("a", JobStatus::Stopped).unwrap();
    let j = mgr.get("a").unwrap();
    assert_eq!(j.status, JobStatus::Stopped);
    assert_eq!(j.completed_at, Some(j.updated_at.clone()));
}

#[test]
fn updates_of_unknown_job_fail() {
    let mut mgr = JobManager::new();
    let e = mgr.update_status("nope", JobStatus::Running).unwrap_err();
    assert_eq!(e.to_string(), "Job nope not found");
    assert!(mgr.update_progress("nope", "x").is_err());
    assert!(mgr.set_error("nope", "x").is_err());
    assert!(mgr.set_banned("nope", 5).is_err());
    assert!(mgr.add_child("nope", "c".into()).is_err());
    assert!(mgr.apply_parsed_progress("nope", &ParsedProgress::new()).is_err());
}

#[test]
fn update_progress_sets_text() {
    let mut mgr = JobManager::new();
    mgr.insert(job("a", "u"));
    mgr.update_progress("a", "halfway").unwrap();
    assert_eq!(mgr.get("a").unwrap().progress, "halfway");
}

#[test]
fn set_error_fails_job() {
    let mut mgr = JobManager::new();
    mgr.insert(job("a", "u"));
    mgr.set_error("a", "boom").unwrap();
    let j = mgr.get("a").unwrap();
    assert_eq!(j.status, JobStatus::Failed);
    assert_eq!(j.error_message.as_deref(), Some("boom"));
    assert_eq!(j.completed_at, Some(j.updated_at.clone()));
}

#[test]
fn set_banned_message() {
    let mut mgr = JobManager::new();
    mgr.insert(job("a", "u"));
    mgr.set_banned("a", 1800).unwrap();
    let j = mgr.get("a").unwrap();
    assert_eq!(j.status, JobStatus::Banned);
    assert_eq!(j.error_message.as_deref(), Some("Soulseek ban — retry after 1800s"));
    assert!(j.completed_at.is_none());
}

#[test]
fn parsed_progress_completes_when_all_tracks_accounted() {
    let mut mgr = JobManager::new();
    mgr.insert(job("a", "u"));
    let p = ParsedProgress {
        downloaded: 8,
        failed: 1,
        not_found: 1,
        total: 10,
        percent: Some(Ratio { part: 8, whole: 10 }),
        current_track: None,
        current_action: Some("downloading".to_string()),
    };
    mgr.apply_parsed_progress("a", &p).unwrap();
    let j = mgr.get("a").unwrap();
    assert_eq!(j.status, JobStatus::Completed);
    assert_eq!(j.total_tracks, Some(10));
    assert_eq!(j.downloaded_count, 8);
    assert_eq!(j.failed_count, 1);
    assert_eq!(j.not_found_count, 1);
    assert_eq!(j.percent_complete, Some(Ratio { part: 8, whole: 10 }));
    assert_eq!(j.progress, "downloading: 8/10 (1 failed)");
    assert_eq!(j.completed_at, Some(j.updated_at.clone()));
}

#[test]
fn parsed_progress_in_flight_keeps_status() {
    let mut mgr = JobManager::new();
    mgr.insert(job("a", "u"));
    mgr.update_status("a", JobStatus::Running).unwrap();
    let mut p = ParsedProgress::new();
    p.downloaded = 3;
    p.total = 10;
    mgr.apply_parsed_progress("a", &p).unwrap();
    let j = mgr.get("a").unwrap();
    assert_eq!(j.status, JobStatus::Running);
    assert_eq!(j.progress, "Pending");
    assert_eq!(j.total_tracks, Some(10));
    // a zero total leaves the known total alone
    mgr.apply_parsed_progress("a", &ParsedProgress::new()).unwrap();
    assert_eq!(mgr.get("a").unwrap().total_tracks, Some(10));
}

#[test]
fn children_and_aggregate_progress() {
    let mut mgr = JobManager::new();
    let mut parent = job("p", "playlist");
    parent.total_tracks = Some(10);
    parent.downloaded_count = 2;
    parent.failed_count = 1;
    mgr.insert(parent);
    let mut c1 = job("c1", "album one");
    c1.total_tracks = Some(5);
    c1.downloaded_count = 5;
    mgr.insert(c1);
    let mut c2 = job("c2", "album two");
    c2.downloaded_count = 1;
    c2.failed_count = 2;
    mgr.insert(c2);
    mgr.add_child("p", "c1".into()).unwrap();
    mgr.add_child("p", "c2".into()).unwrap();
    mgr.add_child("p", "missing".into()).unwrap();
    let kids = mgr.get_children("p");
    assert_eq!(kids.len(), 2);
    assert_eq!(kids[0].id, "c1");
    assert_eq!(kids[1].id, "c2");
    assert!(mgr.get_children("zzz").is_empty());
    assert_eq!(mgr.aggregate_progress("p"), Some((8, 3, 15)));
    assert_eq!(mgr.aggregate_progress("zzz"), None);
    assert!(mgr.aggregate_in_range("p"));
}
