use sldl_remote::error::AppError;
use sldl_remote::library::{
    category_stat, count_from_output, empty_category_stat, file_info, library_files, library_stats,
    nonempty_lines, play_file, relative_path, reveal_file,
};
use sldl_remote::models::{CategoryStat, JobStats, Paginated, UserPreferences};
use sldl_remote::remote::{
    check_sldl_version, delete_file_command, disk_space_command, ensure_dirs_command,
    escape_single_quotes, list_files_command, process_check_command, process_running,
    search_command, signal_command, soulseek_probe_ok, spotify_probe_ok, ssh_failure,
    ssh_spawn_failure, tail_command, version_command, write_file_command,
};

#[test]
fn pages() {
    let p = Paginated::new(vec![1, 2, 3, 4, 5], 1, 2);
    assert_eq!(p.items, vec![3, 4]);
    assert_eq!(p.total, 5);
    assert_eq!(p.page, 1);
    assert_eq!(p.per_page, 2);
    let last = Paginated::new(vec![1, 2, 3, 4, 5], 2, 2);
    assert_eq!(last.items, vec![5]);
    let beyond = Paginated::new(vec![1, 2, 3], 4, 2);
    assert!(beyond.items.is_empty());
    assert_eq!(beyond.total, 3);
    let zero = Paginated::new(vec![1, 2, 3], 3, 0);
    assert!(zero.items.is_empty());
}

#[test]
fn default_preferences_and_stats() {
    let p = UserPreferences::default();
    assert_eq!(p.auto_refresh_interval_ms, 3000);
    assert_eq!(p.log_tail_lines, 60);
    assert_eq!(p.default_output_subdir, "playlists");
    assert!(p.confirm_large_playlists && p.dark_mode && p.notifications_enabled);
    assert_eq!(p.playlist_threshold, 200);
    let s = JobStats::default();
    assert_eq!(s.tracks_total + s.tracks_downloaded + s.tracks_failed + s.tracks_not_found, 0);
}

#[test]
fn relative_paths() {
    assert_eq!(relative_path("/media/music/albums/x.mp3", "/media/music"), "albums/x.mp3");
    assert_eq!(relative_path("/other/x.mp3", "/media/music"), "/other/x.mp3");
    assert_eq!(relative_path("/media/musicx/y", "/media/music"), "/media/musicx/y");
}

#[test]
fn listing_lines() {
    assert_eq!(nonempty_lines("a\n\nb\n"), vec!["a", "b"]);
    let files = library_files("/m/a.mp3\n\n/m/b/c.flac\n", "/m");
    assert_eq!(files.len(), 2);
    assert_eq!(files[0].path, "/m/a.mp3");
    assert_eq!(files[0].relative_path, "a.mp3");
    assert_eq!(files[1].relative_path, "b/c.flac");
    assert_eq!(files[1].size_bytes, 0);
    assert!(files[1].modified.is_empty());
}

#[test]
fn category_counts() {
    let c = category_stat("albums", " 42 \n17\n");
    assert_eq!(c.name, "albums");
    assert_eq!(c.file_count, 42);
    assert_eq!(c.size_mb, 17);
    let bad = category_stat("tracks", "x\n");
    assert_eq!(bad.file_count, 0);
    assert_eq!(bad.size_mb, 0);
    let e = empty_category_stat("artists");
    assert_eq!((e.file_count, e.size_mb), (0, 0));
    assert_eq!(count_from_output(" 12\n"), 12);
    assert_eq!(count_from_output("n/a"), 0);
}

#[test]
fn library_totals() {
    let cats = vec![
        CategoryStat { name: "a".into(), file_count: 2, size_mb: 10 },
        CategoryStat { name: "b".into(), file_count: 3, size_mb: 5 },
    ];
    let s = library_stats(cats, 4, 7).unwrap();
    assert_eq!(s.total_files, 5);
    assert_eq!(s.total_size_mb, 15);
    assert_eq!(s.total_artists, 4);
    assert_eq!(s.total_albums, 7);
    assert_eq!(s.by_category.len(), 2);
    let huge = vec![
        CategoryStat { name: "a".into(), file_count: 0, size_mb: u64::MAX },
        CategoryStat { name: "b".into(), file_count: 0, size_mb: 1 },
    ];
    assert!(library_stats(huge, 0, 0).is_none());
}

#[test]
fn file_details() {
    let f = file_info("/m/a/b.mp3", " 1234 2024-01-02 10:11:12\n", "/m");
    assert_eq!(f.size_bytes, 1234);
    assert_eq!(f.modified, "2024-01-02 10:11:12");
    assert_eq!(f.relative_path, "a/b.mp3");
    let g = file_info("/x", "", "/m");
    assert_eq!(g.size_bytes, 0);
    assert!(g.modified.is_empty());
    assert_eq!(
        reveal_file("/m/a.mp3"),
        "On the remote host: xdg-open '/m/a.mp3' || open '/m/a.mp3'"
    );
    assert_eq!(
        play_file("/m/a.mp3"),
        "On the remote host: mpv '/m/a.mp3' || vlc '/m/a.mp3' || ffplay '/m/a.mp3'"
    );
}

#[test]
fn remote_commands() {
    assert_eq!(escape_single_quotes("it's"), "it'\"'\"'s");
    assert_eq!(
        write_file_command("/tmp/c.conf", "a'b"),
        "cat > '/tmp/c.conf' << 'HEREDOC_EOF'\na'\"'\"'b\nHEREDOC_EOF"
    );
    assert_eq!(delete_file_command("/tmp/x"), "rm -f '/tmp/x'");
    assert_eq!(process_check_command(42), "kill -0 42 2>/dev/null && echo yes || echo no");
    assert!(process_running(" yes\n"));
    assert!(!process_running("no"));
    assert_eq!(signal_command(42, "TERM"), "kill -TERM 42 2>/dev/null || true");
    assert_eq!(tail_command("/tmp/l.log", 60), "tail -60 '/tmp/l.log'");
    assert_eq!(version_command("/usr/bin/sldl"), "/usr/bin/sldl --version 2>&1");
    assert_eq!(disk_space_command("/m"), "df -BG '/m' | tail -1 | awk '{print $2,$4}'");
    assert_eq!(
        ensure_dirs_command("/m"),
        "mkdir -p /m/playlists /m/albums /m/artists /m/tracks"
    );
    assert_eq!(list_files_command("/m", None), "find '/m' -maxdepth 4 -type f  | sort");
    assert_eq!(
        list_files_command("/m", Some("abba")),
        "find '/m' -maxdepth 4 -type f  | grep -i 'abba' | sort"
    );
    assert_eq!(
        search_command("/m", "o'neil"),
        "find '/m' -type f -iname '*o'\"'\"'neil*' 2>/dev/null | sort | head -200"
    );
}

#[test]
fn ssh_errors() {
    match ssh_failure("h", "ls", "exit status: 1", "  permission denied \n") {
        AppError::Ssh { host, cmd, cause } => {
            assert_eq!(host, "h");
            assert_eq!(cmd, "ls");
            assert_eq!(cause, "Exit exit status: 1 — stderr: permission denied");
        }
        other => panic!("unexpected {:?}", other),
    }
    match ssh_failure("h", "ls", "exit status: 1", "You are BANNED") {
        AppError::SoulseekBanned { ip, message } => {
            assert!(ip.is_none());
            assert_eq!(message, "Soulseek rate limit / ban detected");
        }
        other => panic!("unexpected {:?}", other),
    }
    let e = ssh_spawn_failure("h", "ls", "not found");
    assert_eq!(e.to_string(), "SSH failed on h: Failed to spawn ssh: not found (cmd: ls)");
}

#[test]
fn health_probes() {
    assert_eq!(check_sldl_version("1.2.3".into(), "/s"), Ok("1.2.3".to_string()));
    assert_eq!(check_sldl_version("".into(), "/s"), Err("sldl not found at /s".to_string()));
    assert_eq!(check_sldl_version("unknown".into(), "/s"), Err("sldl not found at /s".to_string()));
    assert!(spotify_probe_ok("Loading Spotify tracks"));
    assert!(!spotify_probe_ok("error"));
    assert!(soulseek_probe_ok("Searching..."));
    assert!(!soulseek_probe_ok("Login failed"));
    assert!(!soulseek_probe_ok("you are banned"));
}
