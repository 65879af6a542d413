use sldl_remote::config::{AppConfig, QualityPreset};
use sldl_remote::config_manager::ConfigManager;
use sldl_remote::job::{Job, JobType};
use sldl_remote::remote::{plain_ssh_args, ssh_args_for_host, ssh_command_args};
use sldl_remote::services::{
    allocate_listen_port, build_output_subdir, build_sldl_command, detect_ban, extract_spotify_id,
    sldl_command_line,
};

#[test]
fn smoke_test() {
    let _ = AppConfig::default();
    let _ = Job::default();
}

#[test]
fn ssh_command_building() {
    let mut cfg = AppConfig::default();
    cfg.ssh_port = 2222;
    cfg.ssh_key_path = "/path/to/key".into();
    let args = ssh_command_args(&cfg, "echo hello");
    assert_eq!(
        args,
        vec![
            "-o",
            "ConnectTimeout=10",
            "-o",
            "StrictHostKeyChecking=accept-new",
            "-o",
            "BatchMode=yes",
            "-o",
            "ServerAliveInterval=60",
            "-o",
            "ServerAliveCountMax=3",
            "-p",
            "2222",
            "-i",
            "/path/to/key",
            "root@192.168.70.12:2222",
            "echo hello",
        ]
    );
}

#[test]
fn ssh_args_default_port_without_key() {
    let cfg = AppConfig::default();
    let args = ssh_command_args(&cfg, "ls");
    assert_eq!(args.len(), 12);
    assert_eq!(args[10], "root@192.168.70.12:22");
    assert_eq!(args[11], "ls");
    assert!(!args.contains(&"-p".to_string()));
    assert!(!args.contains(&"-i".to_string()));
}

#[test]
fn ssh_args_for_unknown_host_are_minimal() {
    let cfg = AppConfig::default();
    let known = ssh_args_for_host(&cfg, "192.168.70.12", "ls");
    assert_eq!(known, ssh_command_args(&cfg, "ls"));
    let other = ssh_args_for_host(&cfg, "me@elsewhere", "ls");
    assert_eq!(other, plain_ssh_args("me@elsewhere", "ls"));
    assert_eq!(
        other,
        vec![
            "-o",
            "ConnectTimeout=10",
            "-o",
            "StrictHostKeyChecking=accept-new",
            "-o",
            "BatchMode=yes",
            "me@elsewhere",
            "ls",
        ]
    );
}

#[test]
fn default_config_values() {
    let c = AppConfig::default();
    assert_eq!(c.remote_host, "192.168.70.12");
    assert_eq!(c.remote_user, "root");
    assert_eq!(c.ssh_port, 22);
    assert_eq!(c.sldl_path, "/usr/local/bin/sldl");
    assert_eq!(c.output_path, "/media/music");
    assert_eq!(c.pref_format, "mp3");
    assert_eq!(c.pref_min_bitrate, 320);
    assert_eq!(c.pref_max_bitrate, 2500);
    assert_eq!(c.pref_max_samplerate, 48000);
    assert_eq!(c.searches_per_time, 20);
    assert_eq!(c.searches_renew_time, 300);
    assert!(!c.fast_search);
    assert!(c.skip_not_found);
    assert_eq!(c.max_retries, 10);
    assert_eq!(c.concurrent_jobs, 20);
    assert_eq!(c.listen_port_base, 49900);
    assert_eq!(c.name_format, "{artist(/)album(/)track(. )title|filename}");
    assert!(c == c.clone());
}

#[test]
fn sldl_ini_of_default_config() {
    let c = AppConfig::default();
    let ini = c.to_sldl_ini("/media/music/albums");
    assert_eq!(
        ini,
        "username = \npassword = \nspotify-id = \nspotify-secret = \npath = /media/music/albums\n\
         pref-format = mp3\npref-min-bitrate = 320\npref-max-bitrate = 2500\n\
         pref-max-samplerate = 48000\nname-format = {artist(/)album(/)track(. )title|filename}\n\
         max-retries = 10\nskip-not-found = true\nsearches-per-time = 20\n\
         searches-renew-time = 300\nfast-search = false\nconcurrent-jobs = 20\n"
    );
}

#[test]
fn ssh_target_and_opts() {
    let mut c = AppConfig::default();
    assert_eq!(c.ssh_target(), "root@192.168.70.12:22");
    assert_eq!(
        c.ssh_opts(),
        vec!["-o", "ConnectTimeout=10", "-o", "StrictHostKeyChecking=accept-new", "-o", "BatchMode=yes"]
    );
    c.ssh_port = 2200;
    c.ssh_key_path = "/k".into();
    assert_eq!(c.ssh_target(), "root@192.168.70.12:2200");
    let o = c.ssh_opts();
    assert_eq!(o.len(), 10);
    assert_eq!(&o[6..], &["-p", "2200", "-i", "/k"]);
}

#[test]
fn presets_set_quality_only() {
    let mut c = AppConfig::default();
    c.remote_host = "h".into();
    QualityPreset::LosslessOnly.apply(&mut c);
    assert_eq!(c.pref_format, "flac,wav");
    assert_eq!(c.pref_min_bitrate, 0);
    assert_eq!(c.pref_max_bitrate, 0);
    assert_eq!(c.remote_host, "h");
    QualityPreset::LossyFlexible.apply(&mut c);
    assert_eq!(c.pref_format, "mp3,ogg,m4a,opus,aac");
    assert_eq!(c.pref_min_bitrate, 192);
    assert_eq!(c.pref_max_bitrate, 2500);
    QualityPreset::FlacPreferred.apply(&mut c);
    assert_eq!(c.pref_format, "flac,mp3");
    QualityPreset::Mp3_320.apply(&mut c);
    let once = c.clone();
    QualityPreset::Mp3_320.apply(&mut c);
    assert!(c == once);
    assert_eq!(QualityPreset::Mp3_320.label(), "MP3 320kbps");
    assert_eq!(QualityPreset::LosslessOnly.label(), "Lossless only");
}

#[test]
fn spotify_ids() {
    assert_eq!(
        extract_spotify_id("https://open.spotify.com/playlist/37i9dQZF1DX?si=abc").as_deref(),
        Some("37i9dQZF1DX")
    );
    assert_eq!(extract_spotify_id("plain").as_deref(), Some("plain"));
    assert_eq!(extract_spotify_id("https://x/").as_deref(), Some(""));
    assert_eq!(extract_spotify_id("").as_deref(), Some(""));
}

#[test]
fn job_type_detection() {
    assert_eq!(JobType::detect("https://open.spotify.com/PLAYLIST/x"), JobType::Playlist);
    assert_eq!(JobType::detect("https://open.spotify.com/album/x"), JobType::Album);
    assert_eq!(JobType::detect("https://open.spotify.com/artist/x"), JobType::Artist);
    assert_eq!(JobType::detect("https://open.spotify.com/track/x"), JobType::Track);
    assert_eq!(JobType::detect("https://example.com/x"), JobType::Auto);
    assert_eq!(JobType::detect("https://x/album/a/playlist/b"), JobType::Playlist);
    assert_eq!(JobType::Album.sldl_flag(), "-a");
    assert_eq!(JobType::Aggregate.sldl_flag(), "-g");
    assert_eq!(JobType::Playlist.sldl_flag(), "");
    assert_eq!(JobType::Track.label(), "track");
}

#[test]
fn output_subdirs() {
    let url = "https://open.spotify.com/playlist/ID1?si=z";
    assert_eq!(build_output_subdir("/m", &JobType::Playlist, url), "/m/playlists/ID1");
    assert_eq!(build_output_subdir("/m", &JobType::Album, url), "/m/albums");
    assert_eq!(build_output_subdir("/m", &JobType::Artist, url), "/m/artists");
    assert_eq!(build_output_subdir("/m", &JobType::Aggregate, url), "/m/artists");
    assert_eq!(build_output_subdir("/m", &JobType::Track, url), "/m/tracks");
    assert_eq!(build_output_subdir("/m", &JobType::Auto, url), "/m/downloads/ID1");
}

#[test]
fn sldl_command_escapes_url() {
    let cfg = AppConfig::default();
    let mut j = Job::default();
    j.url = "https://open.spotify.com/album/abc".into();
    j.job_type = JobType::Album;
    j.remote_conf_path = "/tmp/c.conf".into();
    j.log_path = "/tmp/l.log".into();
    j.listen_port = 49901;
    assert_eq!(
        build_sldl_command(&cfg, &j),
        "nohup '/usr/local/bin/sldl' -a 'https://open.spotify.com/album/abc' --config '/tmp/c.conf' \
         --listen-port 49901 > '/tmp/l.log' 2>&1 &\necho $!"
    );
    j.job_type = JobType::Playlist;
    j.url = "it's!".into();
    assert_eq!(
        build_sldl_command(&cfg, &j),
        "nohup '/usr/local/bin/sldl' 'it'\\''s'\\!'' --config '/tmp/c.conf' \
         --listen-port 49901 > '/tmp/l.log' 2>&1 &\necho $!"
    );
    j.url = "abc/def".into();
    assert_eq!(
        build_sldl_command(&cfg, &j),
        sldl_command_line(&cfg, &j, "abc/def")
    );
}

#[test]
fn ban_detection() {
    assert_eq!(
        detect_ban("You have been BANNED"),
        Some(("Soulseek rate limit / ban detected".to_string(), 1800))
    );
    assert_eq!(
        detect_ban("banned for 30 Minutes"),
        Some(("Soulseek 30-minute ban detected".to_string(), 1800))
    );
    assert_eq!(
        detect_ban("The underlying TCP connection is closed: Timeout"),
        Some(("Possible Soulseek ban (connection closed)".to_string(), 1800))
    );
    assert_eq!(detect_ban("the underlying tcp connection is closed"), None);
    assert_eq!(detect_ban("all fine"), None);
}

#[test]
fn listen_ports_stay_in_range() {
    for _ in 0..200 {
        let p = allocate_listen_port(49900);
        assert!((49900..50000).contains(&p));
    }
}

#[test]
fn config_cache_lifecycle() {
    let mut m = ConfigManager::default();
    assert!(m.cached_config().is_none());
    let c = m.finish_load(None);
    assert!(c == AppConfig::default());
    assert!(m.cached_config().unwrap() == AppConfig::default());
    let mut other = AppConfig::default();
    other.remote_user = "me".into();
    m.finish_save(&other);
    assert_eq!(m.cached_config().unwrap().remote_user, "me");
    m.invalidate_cache();
    assert!(m.cached_config().is_none());
    let loaded = m.finish_load(Some(other.clone()));
    assert!(loaded == other);
}
