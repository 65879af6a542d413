use sldl_remote::commands::{
    ack_job,
    apply_profile, batch_jobs, build_job_validation, completion_estimate, delete_job,
    estimate_family_completion, get_job, get_job_family, job_stats, list_jobs, parse_pid,
    parse_spotify_url, parse_status_name, prepare_album_job, prepare_album_job_with, prepare_job,
    prepare_job_with, record_album_job, record_started_job, resolve_job_type, sanitize_dir,
    error_notif, info_notif, success_notif, warn_notif, CommandResponse,
};
use sldl_remote::config::AppConfig;
use sldl_remote::job::{
    AckJobRequest, AlbumSelection, BatchJobRequest, BatchOperation, Job, JobFilter, JobSort, JobStatus, JobType,
    Ratio, StartJobRequest,
};
use sldl_remote::job_manager::JobManager;
use sldl_remote::models::{ConfigProfile, Paginated};

fn job(id: &str) -> Job {
    let mut j = Job::default();
    j.id = id.to_string();
    j
}

fn request(url: &str, kind: &str) -> StartJobRequest {
    StartJobRequest {
        url: url.to_string(),
        job_type: kind.to_string(),
        associated_album_mode: false,
        output_subdir: None,
        listen_port: None,
        enqueue_only: false,
    }
}

#[test]
fn notifications_and_responses() {
    let n = success_notif("Done", "All good");
    assert_eq!(n.level, "success");
    assert_eq!(n.title, "Done");
    assert_eq!(n.message, "All good");
    assert!(n.job_id.is_none());
    let w = warn_notif("Ban", "slow down");
    assert_eq!(w.level, "warning");
    assert_eq!(error_notif("E", "m").level, "error");
    assert_eq!(info_notif("I", "m").level, "info");
    assert_eq!(info_notif("I", "m").message, "m");
    let r = CommandResponse::new(5u8).with_notification(n).with_notification(w);
    assert_eq!(r.data, 5);
    assert_eq!(r.notifications.len(), 2);
    assert_eq!(r.notifications[1].title, "Ban");
}

#[test]
fn spotify_url_info() {
    let i = parse_spotify_url("https://open.spotify.com/album/XYZ?si=1");
    assert_eq!(i.kind, "album");
    assert_eq!(i.id.as_deref(), Some("XYZ"));
    assert_eq!(i.url, "https://open.spotify.com/album/XYZ?si=1");
}

#[test]
fn job_validation_warnings() {
    let v = build_job_validation("https://open.spotify.com/playlist/P", None);
    assert_eq!(v.url_type, "playlist");
    assert_eq!(v.spotify_id.as_deref(), Some("P"));
    assert_eq!(v.estimated_tracks, None);
    assert_eq!(v.warnings, vec!["Playlist size unknown until fetched"]);
    let a = build_job_validation("https://example.com/album/A", Some("low disk".into()));
    assert_eq!(a.estimated_tracks, Some(10));
    assert_eq!(a.warnings, vec!["URL does not look like a Spotify link", "low disk"]);
    let r = build_job_validation("spotify:artist:x/artist/y", None);
    assert_eq!(r.warnings, vec!["Artist discographies can be very large"]);
}

#[test]
fn profiles_apply() {
    let profiles = ConfigProfile::builtin_profiles();
    assert_eq!(profiles.len(), 4);
    assert_eq!(profiles[0].name, "Conservative");
    assert_eq!(profiles[3].name, "Lossless Only");
    assert_eq!(profiles[1].description, "Default. Good for most use cases.");
    assert_eq!(profiles[3].description, "Only accept FLAC/WAV. Very strict.");
    let mut base = AppConfig::default();
    base.pref_max_bitrate = 999;
    let c = apply_profile(base, &profiles[2]);
    assert_eq!(c.searches_per_time, 34);
    assert_eq!(c.searches_renew_time, 220);
    assert!(c.fast_search);
    assert_eq!(c.pref_format, "flac,mp3");
    assert_eq!(c.pref_min_bitrate, 0);
    assert_eq!(c.pref_max_bitrate, 999);
    assert_eq!(c.remote_host, "192.168.70.12");
    let mut p = profiles[1].clone();
    p.config_patch.pref_max_bitrate = Some((1u64 << 32) + 7);
    let d = apply_profile(AppConfig::default(), &p);
    assert_eq!(d.pref_max_bitrate, 7);
    assert_eq!(d.pref_format, "mp3,flac");
}

#[test]
fn directory_names_are_sanitized() {
    assert_eq!(sanitize_dir("  AC/DC: Back?  "), "AC_DC_ Back_");
    assert_eq!(sanitize_dir("a\\b*c\"d<e>f|g"), "a_b_c_d_e_f_g");
    assert_eq!(sanitize_dir("   "), "");
}

#[test]
fn requested_job_types() {
    assert_eq!(resolve_job_type("auto", "https://x/track/1"), JobType::Track);
    assert_eq!(resolve_job_type("playlist", "https://x/track/1"), JobType::Playlist);
    assert_eq!(resolve_job_type("album", ""), JobType::Album);
    assert_eq!(resolve_job_type("artist", ""), JobType::Artist);
    assert_eq!(resolve_job_type("track", ""), JobType::Track);
    assert_eq!(resolve_job_type("whatever", "https://x/album/1"), JobType::Auto);
}

#[test]
fn prepared_start() {
    let cfg = AppConfig::default();
    let req = request("https://open.spotify.com/playlist/PL1", "auto");
    let p = prepare_job_with(&cfg, &req, "id1", 49950, "ESC");
    assert_eq!(p.id, "id1");
    assert_eq!(p.job_type, JobType::Playlist);
    assert_eq!(p.output_dir, "/media/music/playlists/PL1");
    assert_eq!(p.log_path, "/tmp/sldl-remote-id1.log");
    assert_eq!(p.remote_conf_path, "/tmp/sldl-remote-id1.conf");
    assert_eq!(p.listen_port, 49950);
    assert_eq!(p.ini, cfg.to_sldl_ini("/media/music/playlists/PL1"));
    assert_eq!(
        p.command,
        "nohup '/usr/local/bin/sldl' 'ESC' --config '/tmp/sldl-remote-id1.conf' --listen-port 49950 \
         > '/tmp/sldl-remote-id1.log' 2>&1 &\necho $!"
    );
    let mut req2 = request("https://open.spotify.com/album/A", "auto");
    req2.output_subdir = Some("custom/dir".into());
    let q = prepare_job_with(&cfg, &req2, "id2", 1, "E");
    assert_eq!(q.output_dir, "/media/music/custom/dir");
    assert!(q.command.starts_with("nohup '/usr/local/bin/sldl' -a 'E' --config"));
}

#[test]
fn prepared_start_with_random_parts() {
    let cfg = AppConfig::default();
    let mut req = request("https://open.spotify.com/track/T", "auto");
    req.listen_port = Some(50001);
    let p = prepare_job(&cfg, &req);
    assert_eq!(p.id.len(), 36);
    for (i, c) in p.id.chars().enumerate() {
        if [8, 13, 18, 23].contains(&i) {
            assert_eq!(c, '-');
        } else {
            assert!(c.is_ascii_digit() || ('a'..='f').contains(&c));
        }
    }
    assert_eq!(p.id.chars().nth(14), Some('4'));
    assert!("89ab".contains(p.id.chars().nth(19).unwrap()));
    assert_eq!(p.listen_port, 50001);
    assert_eq!(p.output_dir, "/media/music/tracks");
    assert!(p.command.contains("''https://open.spotify.com/track/T''"));
    req.listen_port = None;
    let q = prepare_job(&cfg, &req);
    assert!((49900..50000).contains(&q.listen_port));
    assert_ne!(p.id, q.id);
}

#[test]
fn pids() {
    assert_eq!(parse_pid(" 1234\n"), Some(1234));
    assert_eq!(parse_pid("abc"), None);
    assert_eq!(parse_pid(""), None);
    assert_eq!(parse_pid("4294967296"), None);
}

#[test]
fn recording_a_started_job() {
    let cfg = AppConfig::default();
    let mut req = request("https://open.spotify.com/album/A", "auto");
    req.associated_album_mode = true;
    let p = prepare_job_with(&cfg, &req, "job-1", 49901, "E");
    let mut mgr = JobManager::new();
    let resp = record_started_job(&mut mgr, p, "777\n");
    assert_eq!(resp.job_id, "job-1");
    assert_eq!(resp.log_path, "/tmp/sldl-remote-job-1.log");
    assert_eq!(resp.listen_port, 49901);
    assert_eq!(resp.warnings, vec!["Associated Album Mode only works with playlists"]);
    let j = mgr.get("job-1").unwrap();
    assert_eq!(j.status, JobStatus::Running);
    assert_eq!(j.progress, "Starting...");
    assert_eq!(j.pid, Some(777));
    assert_eq!(j.job_type, JobType::Album);
    assert!(j.associated_album_mode);
}

#[test]
fn album_jobs_link_to_parent() {
    let cfg = AppConfig::default();
    let album = AlbumSelection { artist: "AC/DC".into(), album: " Back in Black ".into(), priority: 1 };
    let p = prepare_album_job_with(&cfg, &album, "c1", 49902, "Q");
    assert_eq!(p.url, "AC/DC -  Back in Black ");
    assert_eq!(p.output_dir, "/media/music/albums/AC_DC/Back in Black");
    assert_eq!(p.job_type, JobType::Album);
    assert!(p.command.contains("-a 'Q' --config '/tmp/sldl-remote-c1.conf'"));
    let mut mgr = JobManager::new();
    mgr.insert(job("parent"));
    let id = record_album_job(&mut mgr, p, "parent", "x");
    assert_eq!(id, "c1");
    let c = mgr.get("c1").unwrap();
    assert_eq!(c.parent_job_id.as_deref(), Some("parent"));
    assert_eq!(c.pid, None);
    assert_eq!(c.progress, "Starting album download...");
    assert_eq!(mgr.get("parent").unwrap().child_job_ids, vec!["c1"]);
    let fam = get_job_family(&mgr, "parent").unwrap();
    assert_eq!(fam.len(), 2);
    assert_eq!(fam[1].id, "c1");
    assert_eq!(get_job_family(&mgr, "none").unwrap_err(), "Job none not found");
    let r = prepare_album_job(&cfg, &album);
    assert_eq!(r.id.len(), 36);
    assert!(r.command.contains("''AC/DC -  Back in Black '"));
}

#[test]
fn status_names() {
    assert_eq!(parse_status_name("running"), Some(JobStatus::Running));
    assert_eq!(parse_status_name("queued"), Some(JobStatus::Queued));
    assert_eq!(parse_status_name("Running"), None);
}

#[test]
fn listing_sorted_and_paged() {
    let mut mgr = JobManager::new();
    for (id, created, st) in [
        ("a", "2024-01-01 00:00:01", JobStatus::Running),
        ("b", "2024-01-01 00:00:03", JobStatus::Completed),
        ("c", "2024-01-01 00:00:02", JobStatus::Running),
    ] {
        let mut j = job(id);
        j.created_at = created.to_string();
        j.status = st;
        mgr.insert(j);
    }
    let all: Paginated<Job> = list_jobs(&mgr, None, None, None, None);
    assert_eq!(all.total, 3);
    assert_eq!(all.page, 0);
    assert_eq!(all.per_page, 50);
    let ids: Vec<&str> = all.items.iter().map(|j| j.id.as_str()).collect();
    assert_eq!(ids, vec!["b", "c", "a"]);
    let f = JobFilter { status: Some("running".into()), job_type: None, search: None };
    let running = list_jobs(&mgr, Some(f), None, Some(1), Some(1));
    assert_eq!(running.total, 2);
    assert_eq!(running.items.len(), 1);
    assert_eq!(running.items[0].id, "a");
    let past = list_jobs(&mgr, None, None, Some(5), Some(2));
    assert_eq!(past.total, 3);
    assert!(past.items.is_empty());
    let by_status = list_jobs(&mgr, None, Some(JobSort::Status), None, None);
    assert_eq!(by_status.items[0].id, "b");
}

#[test]
fn listing_by_progress() {
    let mut mgr = JobManager::new();
    let mut a = job("a");
    a.percent_complete = Some(Ratio { part: 1, whole: 4 });
    let mut b = job("b");
    b.percent_complete = Some(Ratio { part: 3, whole: 4 });
    let c = job("c");
    mgr.insert(a);
    mgr.insert(b);
    mgr.insert(c);
    let l = list_jobs(&mgr, None, Some(JobSort::Progress), None, None);
    let ids: Vec<&str> = l.items.iter().map(|j| j.id.as_str()).collect();
    assert_eq!(ids, vec!["b", "a", "c"]);
}

#[test]
fn get_and_delete() {
    let mut mgr = JobManager::new();
    mgr.insert(job("a"));
    assert_eq!(get_job(&mgr, "a").unwrap().id, "a");
    assert_eq!(get_job(&mgr, "z").unwrap_err(), "Job z not found");
    assert_eq!(delete_job(&mut mgr, "a"), Ok(()));
    assert_eq!(delete_job(&mut mgr, "a"), Err("Job a not found".to_string()));
}

#[test]
fn batch_delete_reports_each_id() {
    let mut mgr = JobManager::new();
    mgr.insert(job("a"));
    mgr.insert(job("b"));
    let req = BatchJobRequest {
        job_ids: vec!["a".into(), "x".into(), "a".into()],
        operation: BatchOperation::Delete,
    };
    assert_eq!(batch_jobs(&mut mgr, &req), vec!["Deleted a", "Not found: x", "Not found: a"]);
    assert!(mgr.get("a").is_none());
    assert!(mgr.get("b").is_some());
    let stop = BatchJobRequest { job_ids: vec!["b".into()], operation: BatchOperation::Stop };
    assert_eq!(batch_jobs(&mut mgr, &stop), vec!["Only delete supported in batch for now"]);
    assert!(mgr.get("b").is_some());
}

#[test]
fn stats_count_and_sum() {
    let mut a = job("a");
    a.status = JobStatus::Running;
    a.downloaded_count = 3;
    a.total_mb = 10;
    let mut b = job("b");
    b.status = JobStatus::Failed;
    b.failed_count = 2;
    b.total_mb = 5;
    let c = job("c");
    let s = job_stats(&vec![a, b, c]).unwrap();
    assert_eq!(s.total_jobs, 3);
    assert_eq!(s.running, 1);
    assert_eq!(s.failed, 1);
    assert_eq!(s.completed, 0);
    assert_eq!(s.total_downloaded, 3);
    assert_eq!(s.total_failed, 2);
    assert_eq!(s.total_mb, 15);
    let mut big = job("big");
    big.total_mb = u64::MAX;
    let mut one = job("one");
    one.total_mb = 1;
    assert!(job_stats(&vec![big, one]).is_none());
}

#[test]
fn estimates() {
    assert_eq!(completion_estimate(0, 10).as_deref(), Some("Estimating..."));
    assert_eq!(completion_estimate(5, 0).as_deref(), Some("Estimating..."));
    assert_eq!(completion_estimate(5, 10).as_deref(), Some("~15 min remaining"));
    assert_eq!(completion_estimate(1, 100).as_deref(), Some("~4h 57m remaining"));
    assert_eq!(completion_estimate(10, 5).as_deref(), Some("~0 min remaining"));
    let mut mgr = JobManager::new();
    assert_eq!(estimate_family_completion(&mgr, "p").as_deref(), Some("Estimating..."));
    let mut p = job("p");
    p.total_tracks = Some(30);
    p.downloaded_count = 10;
    mgr.insert(p);
    assert_eq!(estimate_family_completion(&mgr, "p").as_deref(), Some("~1h 0m remaining"));
}

#[test]
fn acknowledging_a_job() {
    let mut mgr = JobManager::new();
    mgr.insert(job("a"));
    let req = AckJobRequest { job_id: "a".into(), acknowledged: true };
    assert_eq!(ack_job(&mut mgr, &req), Ok(()));
    assert!(mgr.get("a").unwrap().acknowledged);
    let undo = AckJobRequest { job_id: "a".into(), acknowledged: false };
    assert_eq!(ack_job(&mut mgr, &undo), Ok(()));
    assert!(!mgr.get("a").unwrap().acknowledged);
    let missing = AckJobRequest { job_id: "z".into(), acknowledged: true };
    assert_eq!(ack_job(&mut mgr, &missing), Ok(()));
    assert_eq!(mgr.list().len(), 1);
    assert!(mgr.set_acknowledged("z", true).is_err());
}
