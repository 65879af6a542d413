use sldl_remote::commands::{prepare_job_with, resolve_job_type};
use sldl_remote::config::AppConfig;
use sldl_remote::discovery::{discovery_command, discovery_conf_path, discovery_result};
use sldl_remote::error::AppError;
use sldl_remote::job::{Job, JobStatus, JobType, StartJobRequest};
use sldl_remote::job_manager::JobManager;
use sldl_remote::library::{
    album_count_command, artist_count_command, category_names, category_stats_command,
    file_info_command, library_base, list_categories_command, list_subdirs_command,
    recent_files_command,
};
use sldl_remote::polling::{
    absorb_log, job_log_command, job_log_path, job_pid, jobs_by_update, restart_request,
    still_running,
};
use sldl_remote::progress::parse_progress;
use sldl_remote::setup::{
    binary_check_command, connection_failed_message, cpu_count_of, dir_check_command,
    health_report, help_command, memory_mb_of, output_dir_report, sldl_binary_report,
    soulseek_probe_command, spotify_probe_command, ssh_key_report, version_status, SetupAction,
    SetupStage, SldlSetup,
};

fn job(id: &str) -> Job {
    let mut j = Job::default();
    j.id = id.to_string();
    j
}

fn ssh_err() -> AppError {
    AppError::Ssh { host: "h".into(), cmd: "c".into(), cause: "down".into() }
}

#[test]
fn absorbing_a_log_updates_progress() {
    let mut mgr = JobManager::new();
    let mut j = job("a");
    j.status = JobStatus::Running;
    mgr.insert(j);
    let log = "Downloaded 2 of Total 4 (50%)\nInitialize: x";
    let parsed = parse_progress(log);
    absorb_log(&mut mgr, "a", &parsed, log);
    let a = mgr.get("a").unwrap();
    assert_eq!(a.status, JobStatus::Running);
    assert_eq!(a.downloaded_count, 2);
    assert_eq!(a.total_tracks, Some(4));
    assert_eq!(a.progress, "downloading: 2/4 (0 failed)");
}

#[test]
fn absorbing_a_ban_marks_the_job() {
    let mut mgr = JobManager::new();
    mgr.insert(job("a"));
    mgr.insert(job("b"));
    let log = "Login failed: you are BANNED for 30 minutes";
    let parsed = parse_progress(log);
    absorb_log(&mut mgr, "a", &parsed, log);
    let a = mgr.get("a").unwrap();
    assert_eq!(a.status, JobStatus::Banned);
    assert_eq!(a.error_message.as_deref(), Some("Soulseek ban — retry after 1800s"));
    assert_eq!(mgr.get("b").unwrap().status, JobStatus::Pending);
    absorb_log(&mut mgr, "zzz", &parsed, log);
    assert_eq!(mgr.list().len(), 2);
}

#[test]
fn polling_helpers() {
    let mut mgr = JobManager::new();
    let mut a = job("a");
    a.updated_at = "2024-01-01 00:00:01".into();
    a.log_path = "/tmp/a.log".into();
    a.pid = Some(99);
    a.status = JobStatus::Running;
    let mut b = job("b");
    b.updated_at = "2024-01-01 00:00:05".into();
    b.status = JobStatus::Completed;
    mgr.insert(a);
    mgr.insert(b);
    let ids: Vec<String> = jobs_by_update(&mgr).into_iter().map(|j| j.id).collect();
    assert_eq!(ids, vec!["b", "a"]);
    let active: Vec<String> = mgr.active_jobs().into_iter().map(|j| j.id).collect();
    assert_eq!(active, vec!["a"]);
    assert_eq!(job_log_path(&mgr, "a"), "/tmp/a.log");
    assert_eq!(job_log_path(&mgr, "z"), "");
    assert_eq!(job_log_command(&mgr, "a", None).as_deref(), Some("tail -60 '/tmp/a.log'"));
    assert_eq!(job_log_command(&mgr, "a", Some(5)).as_deref(), Some("tail -5 '/tmp/a.log'"));
    assert_eq!(job_log_command(&mgr, "b", None), None);
    assert_eq!(job_pid(&mgr, "a"), Some(99));
    assert_eq!(job_pid(&mgr, "b"), None);
    assert_eq!(job_pid(&mgr, "z"), None);
    assert!(still_running(&Ok("yes\n".to_string())));
    assert!(!still_running(&Ok("no".to_string())));
    assert!(!still_running(&Err(ssh_err())));
}

#[test]
fn restart_keeps_the_job_settings() {
    let cfg = AppConfig::default();
    let req = StartJobRequest {
        url: "https://open.spotify.com/playlist/P".into(),
        job_type: "playlist".into(),
        associated_album_mode: true,
        output_subdir: None,
        listen_port: None,
        enqueue_only: false,
    };
    let p = prepare_job_with(&cfg, &req, "id", 49900, "E");
    let mut old = job("id");
    old.url = p.url.clone();
    old.job_type = p.job_type;
    old.associated_album_mode = true;
    old.output_dir = p.output_dir.clone();
    let r = restart_request(&old, &cfg.output_path);
    assert_eq!(r.url, "https://open.spotify.com/playlist/P");
    assert_eq!(r.job_type, "playlist");
    assert!(r.associated_album_mode);
    assert_eq!(r.output_subdir.as_deref(), Some("playlists/P"));
    assert_eq!(r.listen_port, None);
    assert!(!r.enqueue_only);
    let again = prepare_job_with(&cfg, &r, "id2", 49901, "E");
    assert_eq!(again.output_dir, p.output_dir);
    assert_eq!(again.job_type, JobType::Playlist);
    // an aggregate job comes back as an automatic one
    assert_eq!(resolve_job_type(JobType::Aggregate.label(), "x"), JobType::Auto);
    old.output_dir = "/elsewhere/x".into();
    assert_eq!(restart_request(&old, "/media/music").output_subdir.as_deref(), Some("/elsewhere/x"));
}

#[test]
fn job_files_are_per_job() {
    let cfg = AppConfig::default();
    let req = StartJobRequest {
        url: "u".into(),
        job_type: "track".into(),
        associated_album_mode: false,
        output_subdir: None,
        listen_port: None,
        enqueue_only: false,
    };
    let a = prepare_job_with(&cfg, &req, "one", 1, "u");
    let b = prepare_job_with(&cfg, &req, "two", 1, "u");
    assert_ne!(a.log_path, b.log_path);
    assert_ne!(a.remote_conf_path, b.remote_conf_path);
    assert_ne!(a.log_path, a.remote_conf_path);
}

#[test]
fn maintenance_reports() {
    assert_eq!(connection_failed_message(&ssh_err()), "SSH failed: SSH failed on h: down (cmd: c)");
    assert_eq!(help_command("/s"), "/s --help");
    assert_eq!(binary_check_command("/s"), "test -x '/s' && echo ok || echo missing");
    assert_eq!(dir_check_command("/m"), "test -d '/m' && echo ok || echo missing");
    assert_eq!(sldl_binary_report("/s", &Ok(" ok\n".into())), "✓ sldl binary at /s");
    assert_eq!(sldl_binary_report("/s", &Ok("missing".into())), "✗ sldl binary NOT FOUND at /s");
    assert_eq!(
        sldl_binary_report("/s", &Err(ssh_err())),
        "✗ Cannot check sldl: SSH failed on h: down (cmd: c)"
    );
    assert_eq!(output_dir_report("/m", &Ok("ok".into())), "✓ Output dir at /m");
    assert_eq!(
        output_dir_report("/m", &Ok("missing".into())),
        "⚠ Output dir missing at /m (will be created)"
    );
    assert!(output_dir_report("/m", &Err(ssh_err())).starts_with("✗ Cannot check output dir: "));
    assert_eq!(ssh_key_report("", false), "ℹ Using default SSH key (agent or ~/.ssh)");
    assert_eq!(ssh_key_report("/k", true), "✓ SSH key at /k");
    assert_eq!(ssh_key_report("/k", false), "✗ SSH key NOT FOUND at /k");
}

#[test]
fn setup_when_already_installed() {
    let (mut s, a) = SldlSetup::start("/s");
    match a {
        SetupAction::Run(c) => assert_eq!(c, "/s --version 2>/dev/null || echo missing"),
        SetupAction::Done => panic!("expected a command"),
    }
    let next = s.step("/s", &Ok(" sldl 2.6.0 \n".into()));
    assert!(matches!(next, SetupAction::Done));
    assert_eq!(s.stage, SetupStage::Finished);
    assert_eq!(s.log, vec!["sldl already installed: sldl 2.6.0"]);
    assert!(matches!(s.step("/s", &Ok("x".into())), SetupAction::Done));
    assert_eq!(s.log.len(), 1);
}

#[test]
fn setup_installs_and_verifies() {
    let (mut s, _) = SldlSetup::start("/s");
    match s.step("/s", &Ok("missing\n".into())) {
        SetupAction::Run(c) => {
            assert!(c.starts_with("cd /tmp && curl -sL -o sldl.zip 'https://github.com/fiso64/sldl/"));
            assert!(c.ends_with("&& mv sldl '/s' && chmod +x '/s' && rm -f sldl.zip sldl.pdb LICENSE"));
        }
        SetupAction::Done => panic!("expected the download"),
    }
    assert_eq!(s.stage, SetupStage::Download);
    match s.step("/s", &Ok(String::new())) {
        SetupAction::Run(c) => assert_eq!(c, "/s --version"),
        SetupAction::Done => panic!("expected the verification"),
    }
    assert_eq!(s.stage, SetupStage::Verify);
    assert!(matches!(s.step("/s", &Ok("2.6.0\n".into())), SetupAction::Done));
    assert_eq!(s.log, vec!["sldl not found, attempting install...", "✓ Installed: 2.6.0"]);
}

#[test]
fn setup_reports_failures() {
    let (mut s, _) = SldlSetup::start("/s");
    s.step("/s", &Err(ssh_err()));
    assert_eq!(s.stage, SetupStage::Download);
    s.step("/s", &Err(ssh_err()));
    assert_eq!(s.stage, SetupStage::Finished);
    assert_eq!(s.log[1], "✗ Install failed: SSH failed on h: down (cmd: c)");
    let (mut t, _) = SldlSetup::start("/s");
    t.step("/s", &Ok("missing".into()));
    t.step("/s", &Ok(String::new()));
    t.step("/s", &Err(ssh_err()));
    assert_eq!(t.log[1], "✗ Install verification failed: SSH failed on h: down (cmd: c)");
}

#[test]
fn health_probe_commands() {
    assert_eq!(spotify_probe_command("/s"), "/s spotify-likes -n 1 --print tracks 2>&1 | head -3");
    assert_eq!(
        soulseek_probe_command("/s"),
        "/s 'The Beatles - Eleanor Rigby' -n 1 --listen-port 49996 2>&1 | head -5"
    );
    assert_eq!(cpu_count_of(" 8\n"), 8);
    assert_eq!(cpu_count_of(""), 1);
    assert_eq!(memory_mb_of("16000\n"), 16000);
    assert_eq!(memory_mb_of("x"), 0);
}

#[test]
fn discovery() {
    let cfg = AppConfig::default();
    assert_eq!(discovery_conf_path(), "/tmp/sldl-remote-discover.conf");
    assert_eq!(
        discovery_command(&cfg, "https://open.spotify.com/playlist/X"),
        "/usr/local/bin/sldl ''https://open.spotify.com/playlist/X'' --config \
         '/tmp/sldl-remote-discover.conf' --listen-port 49990 --print tracks-full 2>&1 | head -1000"
    );
    let r = discovery_result("A - B (3:00)\nC - D (2:00)\n\nE - F\n");
    assert_eq!(r.track_count, 4);
    assert!(r.unique_albums.is_empty());
    assert!(r.already_have.is_empty());
    assert_eq!(discovery_result("").track_count, 0);
}

#[test]
fn library_commands() {
    assert_eq!(library_base("/m", None), "/m");
    assert_eq!(library_base("/m", Some("albums")), "/m/albums");
    assert_eq!(category_names(), vec!["playlists", "albums", "artists", "tracks"]);
    assert_eq!(
        category_stats_command("/m/albums"),
        "find '/m/albums' -maxdepth 3 -type f 2>/dev/null | wc -l; du -sm '/m/albums' 2>/dev/null | awk '{print $1}'"
    );
    assert_eq!(
        artist_count_command("/m"),
        "find '/m/artists' -maxdepth 1 -mindepth 1 -type d 2>/dev/null | wc -l"
    );
    assert_eq!(album_count_command("/m"), "find '/m' -mindepth 2 -maxdepth 3 -type d 2>/dev/null | wc -l");
    assert_eq!(
        file_info_command("/m/a.mp3"),
        "ls -l --time-style=+'%Y-%m-%d %H:%M:%S' '/m/a.mp3' | awk '{print $5, $6}'"
    );
    assert_eq!(recent_files_command("/m", 24), "find '/m' -type f -mmin -1440 -print 2>/dev/null | sort");
    assert_eq!(list_categories_command("/m"), "ls -1 '/m' 2>/dev/null | sort");
    assert_eq!(
        list_subdirs_command("/m", "albums"),
        "find '/m/albums' -maxdepth 2 -mindepth 1 -type d 2>/dev/null | sort"
    );
}

#[test]
fn health_reports() {
    let down = health_report(false, None, None, None, None);
    assert!(!down.ssh_ok && !down.sldl_binary_ok && !down.disk_space_ok);
    assert_eq!(down.errors, vec!["SSH connection failed"]);

    assert_eq!(version_status("/s", Ok("2.6.0".into())), Ok("2.6.0".to_string()));
    assert_eq!(version_status("/s", Ok("unknown".into())), Err("sldl not found at /s".to_string()));
    assert_eq!(
        version_status("/s", Err(ssh_err())),
        Err("sldl check failed: SSH failed on h: down (cmd: c)".to_string())
    );

    let good = health_report(
        true,
        Some(Ok("2.6.0".into())),
        Some(Ok(None)),
        Some(Ok("Loading Spotify playlist".into())),
        Some(Ok("Searching...".into())),
    );
    assert!(good.ssh_ok && good.sldl_binary_ok && good.disk_space_ok);
    assert!(good.spotify_api_ok && good.soulseek_login_ok);
    assert_eq!(good.sldl_version.as_deref(), Some("2.6.0"));
    assert!(good.errors.is_empty());

    let bad = health_report(
        true,
        Some(Err("sldl not found at /s".into())),
        Some(Err(ssh_err())),
        Some(Ok("error".into())),
        Some(Ok("fine".into())),
    );
    assert!(!bad.sldl_binary_ok && !bad.disk_space_ok && !bad.spotify_api_ok);
    assert!(!bad.soulseek_login_ok);
    assert_eq!(
        bad.errors,
        vec!["sldl not found at /s", "Disk check failed: SSH failed on h: down (cmd: c)"]
    );
    let low = health_report(true, Some(Ok("v".into())), Some(Ok(Some("Only 0.5 GB free on /m".into()))), None, Some(Ok("you are banned".into())));
    assert!(!low.disk_space_ok && !low.soulseek_login_ok && !low.spotify_api_ok);
    assert_eq!(low.errors, vec!["Only 0.5 GB free on /m"]);
}

#[test]
fn reapplying_progress_changes_nothing_but_time() {
    let mut mgr = JobManager::new();
    mgr.insert(job("a"));
    let log = "Downloaded 3 of Total 3 (100%)\nSearching: X - Y";
    let parsed = parse_progress(log);
    absorb_log(&mut mgr, "a", &parsed, log);
    let once = mgr.get("a").unwrap();
    absorb_log(&mut mgr, "a", &parsed, log);
    let mut twice = mgr.get("a").unwrap();
    assert_eq!(once.status, JobStatus::Completed);
    twice.updated_at = once.updated_at.clone();
    twice.completed_at = once.completed_at.clone();
    assert_eq!(format!("{:?}", twice), format!("{:?}", once));
}

#[test]
fn banned_jobs_wait() {
    let mut mgr = JobManager::new();
    mgr.insert(job("a"));
    mgr.set_banned("a", 60).unwrap();
    assert_eq!(mgr.active_count(), 0);
    assert!(mgr.active_jobs().is_empty());
    mgr.clear_completed();
    assert_eq!(mgr.get("a").unwrap().status, JobStatus::Banned);
}
