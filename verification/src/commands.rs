//! The decisions behind the frontend commands: everything a command does
//! between receiving its arguments and doing remote or file I/O.

use vstd::prelude::*;

use crate::config::{AppConfig, sldl_ini_text};
use crate::error::{error_text, AppResult};
use crate::job::{
    job_type_label, job_type_of, sldl_flag_of, AlbumSelection, Job, JobStatus, JobType, JobView,
    StartJobRequest, StartJobResponse, string_views, is_timestamp,
};
use crate::job_manager::{JobManager, aggregate_fits, family_downloaded, family_total, children_in};
use crate::job::{AckJobRequest, BatchJobRequest, BatchOperation, JobFilter, JobSort};
use crate::job_manager::{job_matches, sum_downloaded, sum_failed};
use crate::models::{page_range, ConfigProfile, JobValidation, Notification, Paginated};
use crate::ordering::{sort_jobs, sorted_by};
use crate::registry::{jobs_view, lemma_registry_len, lemma_registry_permutation, registry, restrict_by, unique_ids};
use crate::services::{
    allocate_listen_port, escape_for_shell, extract_spotify_id, is_shell_escape_of, sldl_command_text,
    spotify_id_of,
};
use crate::text::{
    chars_of, contains, contains_chars, decimal, parse_u32, parse_u32_chars, push_decimal,
    str_lowercase, string_of, trim, trim_chars,
};

verus! {

// ---------------------------------------------------------------------
// Results and notifications
// ---------------------------------------------------------------------

/// Converts a result to the `Result<T, String>` shape of the commands.
pub fn ok<T>(r: AppResult<T>) -> (out: Result<T, String>)
    ensures
        match r {
            Ok(v) => out matches Ok(w) && w == v,
            Err(e) => out matches Err(m) && m@ == error_text(e),
        },
{
    match r {
        Ok(v) => Ok(v),
        Err(e) => Err(e.to_string()),
    }
}

/// Command data together with notifications for the user.
#[derive(Debug)]
pub struct CommandResponse<T> {
    pub data: T,
    pub notifications: Vec<Notification>,
}

impl<T> CommandResponse<T> {
    /// A response without notifications.
    pub fn new(data: T) -> (r: CommandResponse<T>)
        ensures
            r.data == data,
            r.notifications@.len() == 0,
    {
        CommandResponse { data, notifications: Vec::new() }
    }

    /// The response with one more notification.
    pub fn with_notification(self, n: Notification) -> (r: CommandResponse<T>)
        ensures
            r.data == self.data,
            r.notifications@ == self.notifications@.push(n),
    {
        let mut s = self;
        s.notifications.push(n);
        s
    }
}

/// A notification of the given level, title and message, for no job.
pub open spec fn is_notification(n: Notification, level: Seq<char>, title: Seq<char>, message: Seq<char>) -> bool {
    n.level@ == level && n.title@ == title && n.message@ == message && n.job_id is None
}

fn notification(level: &str, title: &str, message: &str) -> (n: Notification)
    ensures
        is_notification(n, level@, title@, message@),
{
    Notification {
        level: String::from_str(level),
        title: String::from_str(title),
        message: String::from_str(message),
        job_id: None,
    }
}

/// A success notification.
pub fn success_notif(title: &str, message: &str) -> (n: Notification)
    ensures
        is_notification(n, "success"@, title@, message@),
{
    notification("success", title, message)
}

/// An error notification.
pub fn error_notif(title: &str, message: &str) -> (n: Notification)
    ensures
        is_notification(n, "error"@, title@, message@),
{
    notification("error", title, message)
}

/// An info notification.
pub fn info_notif(title: &str, message: &str) -> (n: Notification)
    ensures
        is_notification(n, "info"@, title@, message@),
{
    notification("info", title, message)
}

/// A warning notification.
pub fn warn_notif(title: &str, message: &str) -> (n: Notification)
    ensures
        is_notification(n, "warning"@, title@, message@),
{
    notification("warning", title, message)
}

// ---------------------------------------------------------------------
// Spotify URLs
// ---------------------------------------------------------------------

/// Type, id and URL of a Spotify link.
#[derive(Clone, Debug)]
pub struct SpotifyUrlInfo {
    /// The job type's name ("playlist", "album", ...).
    pub kind: String,
    pub id: Option<String>,
    pub url: String,
}

/// Parses a Spotify URL into its type and ID.
pub fn parse_spotify_url(url: &str) -> (r: SpotifyUrlInfo)
    ensures
        r.kind@ == job_type_label(job_type_of(str_lowercase(url@))),
        r.id matches Some(id) && id@ == spotify_id_of(url@),
        r.url@ == url@,
{
    let t = JobType::detect(url);
    SpotifyUrlInfo {
        kind: String::from_str(t.label()),
        id: extract_spotify_id(url),
        url: String::from_str(url),
    }
}

/// The warnings and the track estimate that a job type gives.
pub open spec fn type_warning(t: JobType) -> Option<Seq<char>> {
    match t {
        JobType::Playlist => Some("Playlist size unknown until fetched"@),
        JobType::Artist => Some("Artist discographies can be very large"@),
        _ => None,
    }
}

/// Rough track estimate of a job type.
pub open spec fn estimated_tracks_of(t: JobType) -> Option<usize> {
    match t {
        JobType::Album => Some(10),
        _ => None,
    }
}

/// The link does not look like a Spotify link.
pub open spec fn not_spotify(url: Seq<char>) -> bool {
    !contains(url, "spotify.com"@) && !contains(url, "spotify:"@)
}

/// The warnings of a job validation, in order: the link check, the disk
/// space warning (if any), then the type's warning.
pub open spec fn validation_warnings(url: Seq<char>, disk_warning: Option<Seq<char>>) -> Seq<Seq<char>> {
    let w1: Seq<Seq<char>> = if not_spotify(url) {
        seq!["URL does not look like a Spotify link"@]
    } else {
        seq![]
    };
    let w2 = match disk_warning {
        Some(d) => w1.push(d),
        None => w1,
    };
    match type_warning(job_type_of(str_lowercase(url))) {
        Some(t) => w2.push(t),
        None => w2,
    }
}

/// Validates a job before starting it: type, Spotify id, warnings and a
/// rough track estimate.  `disk_warning` is the warning about free disk
/// space on the remote host, if there is one.
pub fn build_job_validation(url: &str, disk_warning: Option<String>) -> (v: JobValidation)
    ensures
        v.url_type@ == job_type_label(job_type_of(str_lowercase(url@))),
        v.spotify_id matches Some(id) && id@ == spotify_id_of(url@),
        v.estimated_tracks == estimated_tracks_of(job_type_of(str_lowercase(url@))),
        string_views(v.warnings@) == validation_warnings(
            url@,
            match disk_warning {
                Some(d) => Some(d@),
                None => None,
            },
        ),
{
    let job_type = JobType::detect(url);
    let spotify_id = extract_spotify_id(url);
    let mut warnings: Vec<String> = Vec::new();
    let u = chars_of(url);
    if !contains_chars(&u, &chars_of("spotify.com")) && !contains_chars(&u, &chars_of("spotify:")) {
        warnings.push(String::from_str("URL does not look like a Spotify link"));
    }
    match disk_warning {
        Some(d) => {
            warnings.push(d);
        },
        None => {},
    }
    let estimated_tracks = match job_type {
        JobType::Playlist => {
            warnings.push(String::from_str("Playlist size unknown until fetched"));
            None
        },
        JobType::Album => Some(10),
        JobType::Artist => {
            warnings.push(String::from_str("Artist discographies can be very large"));
            None
        },
        _ => None,
    };
    let v = JobValidation {
        url_type: String::from_str(job_type.label()),
        spotify_id,
        estimated_tracks,
        warnings,
    };
    assert(string_views(v.warnings@) =~= validation_warnings(
        url@,
        match disk_warning {
            Some(d) => Some(d@),
            None => None,
        },
    ));
    v
}

// ---------------------------------------------------------------------
// Config profiles
// ---------------------------------------------------------------------

/// Applies a profile's overrides to a config; settings the profile does
/// not name stay.  Numbers are truncated to 32 bits.
pub fn apply_profile(config: AppConfig, profile: &ConfigProfile) -> (c: AppConfig)
    ensures
        c.searches_per_time == match profile.config_patch.searches_per_time {
            Some(n) => n as u32,
            None => config.searches_per_time,
        },
        c.searches_renew_time == match profile.config_patch.searches_renew_time {
            Some(n) => n as u32,
            None => config.searches_renew_time,
        },
        c.fast_search == match profile.config_patch.fast_search {
            Some(b) => b,
            None => config.fast_search,
        },
        c.pref_format@ == match profile.config_patch.pref_format {
            Some(f) => f@,
            None => config.pref_format@,
        },
        c.pref_min_bitrate == match profile.config_patch.pref_min_bitrate {
            Some(n) => n as u32,
            None => config.pref_min_bitrate,
        },
        c.pref_max_bitrate == match profile.config_patch.pref_max_bitrate {
            Some(n) => n as u32,
            None => config.pref_max_bitrate,
        },
        c.remote_host == config.remote_host,
        c.remote_user == config.remote_user,
        c.ssh_port == config.ssh_port,
        c.ssh_key_path == config.ssh_key_path,
        c.sldl_path == config.sldl_path,
        c.output_path == config.output_path,
        c.soulseek_username == config.soulseek_username,
        c.soulseek_password == config.soulseek_password,
        c.spotify_id == config.spotify_id,
        c.spotify_secret == config.spotify_secret,
        c.pref_max_samplerate == config.pref_max_samplerate,
        c.name_format == config.name_format,
        c.max_retries == config.max_retries,
        c.skip_not_found == config.skip_not_found,
        c.concurrent_jobs == config.concurrent_jobs,
        c.listen_port_base == config.listen_port_base,
{
    let mut config = config;
    let patch = &profile.config_patch;
    match patch.searches_per_time {
        Some(n) => {
            config.searches_per_time = #[verifier::truncate] (n as u32);
        },
        None => {},
    }
    match patch.searches_renew_time {
        Some(n) => {
            config.searches_renew_time = #[verifier::truncate] (n as u32);
        },
        None => {},
    }
    match patch.fast_search {
        Some(b) => {
            config.fast_search = b;
        },
        None => {},
    }
    match &patch.pref_format {
        Some(f) => {
            config.pref_format = f.clone();
        },
        None => {},
    }
    match patch.pref_min_bitrate {
        Some(n) => {
            config.pref_min_bitrate = #[verifier::truncate] (n as u32);
        },
        None => {},
    }
    match patch.pref_max_bitrate {
        Some(n) => {
            config.pref_max_bitrate = #[verifier::truncate] (n as u32);
        },
        None => {},
    }
    config
}

// ---------------------------------------------------------------------
// Directory names
// ---------------------------------------------------------------------

/// A character that may stand in a directory name (others become `_`).
pub open spec fn dir_char(c: char) -> char {
    if c == '/' || c == '\\' || c == ':' || c == '*' || c == '?' || c == '"' || c == '<' || c
        == '>' || c == '|' {
        '_'
    } else {
        c
    }
}

/// A name made safe for use as a directory name: path and wildcard
/// characters replaced by `_`, surrounding whitespace removed.
pub open spec fn sanitized(name: Seq<char>) -> Seq<char> {
    trim(name.map_values(|c: char| dir_char(c)))
}

/// Sanitizes a string for use as a directory name.
pub fn sanitize_dir(name: &str) -> (r: String)
    ensures
        r@ == sanitized(name@),
{
    let s = chars_of(name);
    let mut mapped: Vec<char> = Vec::new();
    let mut i: usize = 0;
    while i < s.len()
        invariant
            i <= s.len(),
            mapped@ == s@.take(i as int).map_values(|c: char| dir_char(c)),
        decreases s.len() - i,
    {
        let c = s[i];
        let d = if c == '/' || c == '\\' || c == ':' || c == '*' || c == '?' || c == '"' || c == '<'
            || c == '>' || c == '|' {
            '_'
        } else {
            c
        };
        mapped.push(d);
        i = i + 1;
        assert(mapped@ =~= s@.take(i as int).map_values(|c: char| dir_char(c)));
    }
    assert(s@.take(s.len() as int) == s@);
    let t = trim_chars(&mapped);
    string_of(&t)
}

// ---------------------------------------------------------------------
// Starting jobs
// ---------------------------------------------------------------------

/// A lowercase hexadecimal digit.
pub open spec fn is_lower_hex(c: char) -> bool {
    ('0' <= c && c <= '9') || ('a' <= c && c <= 'f')
}

/// A version 4 UUID in hyphenated lowercase form,
/// `xxxxxxxx-xxxx-4xxx-yxxx-xxxxxxxxxxxx` with `y` one of `8 9 a b`.
pub open spec fn is_uuid_v4_text(t: Seq<char>) -> bool {
    &&& t.len() == 36
    &&& forall|i: int|
        0 <= i < 36 ==> if i == 8 || i == 13 || i == 18 || i == 23 {
            #[trigger] t[i] == '-'
        } else {
            is_lower_hex(t[i])
        }
    &&& t[14] == '4'
    &&& (t[19] == '8' || t[19] == '9' || t[19] == 'a' || t[19] == 'b')
}

/// Calls `uuid::Uuid::new_v4().to_string()`: a random version 4 UUID in
/// its hyphenated lowercase form (the version and variant bits are fixed,
/// the rest is random).
#[verifier::external_body]
fn new_job_id() -> (r: String)
    ensures
        is_uuid_v4_text(r@),
{
    uuid::Uuid::new_v4().to_string()
}

/// The job type a start request asks for: "auto" detects it from the URL,
/// an unknown name gives `Auto`.
pub open spec fn requested_job_type(kind: Seq<char>, url: Seq<char>) -> JobType {
    if kind == "auto"@ {
        job_type_of(str_lowercase(url))
    } else if kind == "playlist"@ {
        JobType::Playlist
    } else if kind == "album"@ {
        JobType::Album
    } else if kind == "artist"@ {
        JobType::Artist
    } else if kind == "track"@ {
        JobType::Track
    } else {
        JobType::Auto
    }
}

/// Resolves the job type of a start request.
pub fn resolve_job_type(kind: &str, url: &str) -> (t: JobType)
    ensures
        t == requested_job_type(kind@, url@),
{
    let k = String::from_str(kind);
    if k == String::from_str("auto") {
        JobType::detect(url)
    } else if k == String::from_str("playlist") {
        JobType::Playlist
    } else if k == String::from_str("album") {
        JobType::Album
    } else if k == String::from_str("artist") {
        JobType::Artist
    } else if k == String::from_str("track") {
        JobType::Track
    } else {
        JobType::Auto
    }
}

/// The output sub-directory of a job of type `t` whose Spotify id is `sid`.
pub open spec fn default_subdir_of(t: JobType, sid: Seq<char>) -> Seq<char> {
    match t {
        JobType::Playlist => "playlists/"@ + sid,
        JobType::Album => "albums"@,
        JobType::Artist | JobType::Aggregate => "artists"@,
        JobType::Track => "tracks"@,
        JobType::Auto => "downloads/"@ + sid,
    }
}

/// `/tmp/sldl-remote-{id}.log`.
pub open spec fn log_path_of(id: Seq<char>) -> Seq<char> {
    "/tmp/sldl-remote-"@ + id + ".log"@
}

/// `/tmp/sldl-remote-{id}.conf`.
pub open spec fn conf_path_of(id: Seq<char>) -> Seq<char> {
    "/tmp/sldl-remote-"@ + id + ".conf"@
}

/// Everything needed to start a job on the remote host and to record it.
#[derive(Debug)]
pub struct PreparedJob {
    pub id: String,
    /// The URL (or album query) handed to sldl.
    pub url: String,
    pub job_type: JobType,
    pub associated_album_mode: bool,
    pub output_dir: String,
    pub log_path: String,
    pub remote_conf_path: String,
    pub listen_port: u16,
    /// The per-job sldl.conf to write at `remote_conf_path`.
    pub ini: String,
    /// The remote command that starts sldl and prints its PID.
    pub command: String,
}

/// A prepared start of `req` under `config` with the given id, listen port
/// and shell-escaped URL.
pub open spec fn is_prepared_start(
    p: PreparedJob,
    config: AppConfig,
    req: StartJobRequest,
    id: Seq<char>,
    listen_port: u16,
    url_escaped: Seq<char>,
) -> bool {
    let t = requested_job_type(req.job_type@, req.url@);
    let subdir = match req.output_subdir {
        Some(s) => s@,
        None => default_subdir_of(t, spotify_id_of(req.url@)),
    };
    let output_dir = config.output_path@ + "/"@ + subdir;
    &&& p.id@ == id
    &&& p.url@ == req.url@
    &&& p.job_type == t
    &&& p.associated_album_mode == req.associated_album_mode
    &&& p.output_dir@ == output_dir
    &&& p.log_path@ == log_path_of(id)
    &&& p.remote_conf_path@ == conf_path_of(id)
    &&& p.listen_port == listen_port
    &&& p.ini@ == sldl_ini_text(config, output_dir)
    &&& p.command@ == sldl_command_text(
        config.sldl_path@,
        sldl_flag_of(t),
        "'"@ + url_escaped + "'"@,
        conf_path_of(id),
        listen_port,
        log_path_of(id),
    )
}

/// Builds a path `/tmp/sldl-remote-{id}{ext}`.
fn tmp_path(id: &str, ext: &str) -> (r: String)
    ensures
        r@ == "/tmp/sldl-remote-"@ + id@ + ext@,
{
    let mut r = String::from_str("/tmp/sldl-remote-");
    r.append(id);
    r.append(ext);
    r
}

/// The start command with the (escaped) argument in single quotes.
fn quoted_command(
    config: &AppConfig,
    flag: &str,
    escaped: &str,
    conf_path: &str,
    listen_port: u16,
    log_path: &str,
) -> (r: String)
    ensures
        r@ == sldl_command_text(
            config.sldl_path@,
            flag@,
            "'"@ + escaped@ + "'"@,
            conf_path@,
            listen_port,
            log_path@,
        ),
{
    let mut q = String::from_str("'");
    q.append(escaped);
    q.append("'");
    let mut r = String::from_str("nohup '");
    r.append(config.sldl_path.as_str());
    r.append("' ");
    if flag.is_empty() {
        r.append(q.as_str());
    } else {
        r.append(flag);
        r.append(" ");
        r.append(q.as_str());
    }
    r.append(" --config '");
    r.append(conf_path);
    r.append("' --listen-port ");
    push_decimal(&mut r, listen_port as u64);
    r.append(" > '");
    r.append(log_path);
    r.append("' 2>&1 &\necho $!");
    r
}

/// Prepares the start of a job with the given id, listen port and
/// shell-escaped URL.
pub fn prepare_job_with(
    config: &AppConfig,
    req: &StartJobRequest,
    id: &str,
    listen_port: u16,
    url_escaped: &str,
) -> (p: PreparedJob)
    ensures
        is_prepared_start(p, *config, *req, id@, listen_port, url_escaped@),
{
    let job_type = resolve_job_type(req.job_type.as_str(), req.url.as_str());
    let subdir = match &req.output_subdir {
        Some(s) => s.clone(),
        None => {
            let sid = match extract_spotify_id(req.url.as_str()) {
                Some(s) => s,
                None => String::from_str("unknown"),
            };
            match job_type {
                JobType::Playlist => {
                    let mut d = String::from_str("playlists/");
                    d.append(sid.as_str());
                    d
                },
                JobType::Album => String::from_str("albums"),
                JobType::Artist | JobType::Aggregate => String::from_str("artists"),
                JobType::Track => String::from_str("tracks"),
                JobType::Auto => {
                    let mut d = String::from_str("downloads/");
                    d.append(sid.as_str());
                    d
                },
            }
        },
    };
    let mut output_dir = config.output_path.clone();
    output_dir.append("/");
    output_dir.append(subdir.as_str());
    let log_path = tmp_path(id, ".log");
    let remote_conf = tmp_path(id, ".conf");
    let ini = config.to_sldl_ini(output_dir.as_str());
    let command = quoted_command(
        config,
        job_type.sldl_flag(),
        url_escaped,
        remote_conf.as_str(),
        listen_port,
        log_path.as_str(),
    );
    PreparedJob {
        id: String::from_str(id),
        url: req.url.clone(),
        job_type,
        associated_album_mode: req.associated_album_mode,
        output_dir,
        log_path,
        remote_conf_path: remote_conf,
        listen_port,
        ini,
        command,
    }
}

/// Prepares the start of a job: a fresh random id, the requested listen
/// port or a random one above the configured base, and the URL escaped for
/// the remote shell.
pub fn prepare_job(config: &AppConfig, req: &StartJobRequest) -> (p: PreparedJob)
    requires
        req.listen_port is None ==> config.listen_port_base + 99 <= u16::MAX,
    ensures
        is_uuid_v4_text(p.id@),
        req.listen_port matches Some(port) ==> p.listen_port == port,
        req.listen_port is None ==> config.listen_port_base <= p.listen_port
            < config.listen_port_base + 100,
        exists|e: Seq<char>|
            #[trigger] is_shell_escape_of(req.url@, e) && is_prepared_start(
                p,
                *config,
                *req,
                p.id@,
                p.listen_port,
                e,
            ),
{
    let id = new_job_id();
    let listen_port = match req.listen_port {
        Some(port) => port,
        None => allocate_listen_port(config.listen_port_base),
    };
    let escaped = escape_for_shell(req.url.as_str());
    prepare_job_with(config, req, id.as_str(), listen_port, escaped.as_str())
}

/// The PID printed by the start command, if its trimmed output is a
/// number.
pub open spec fn pid_of(output: Seq<char>) -> Option<u32> {
    parse_u32(trim(output))
}

/// Reads the PID printed by the start command.
pub fn parse_pid(output: &str) -> (r: Option<u32>)
    ensures
        r == pid_of(output@),
{
    let t = trim_chars(&chars_of(output));
    parse_u32_chars(&t)
}

/// A job just started from `p`: running, with the given progress text,
/// PID and parent, and every other field fresh.
pub open spec fn is_started_job(
    j: JobView,
    p: PreparedJob,
    progress: Seq<char>,
    pid: Option<u32>,
    parent: Option<Seq<char>>,
) -> bool {
    &&& j.id == p.id@
    &&& j.url == p.url@
    &&& j.job_type == p.job_type
    &&& j.associated_album_mode == p.associated_album_mode
    &&& j.status == JobStatus::Running
    &&& j.progress == progress
    &&& j.output_dir == p.output_dir@
    &&& j.log_path == p.log_path@
    &&& j.remote_conf_path == p.remote_conf_path@
    &&& j.listen_port == p.listen_port
    &&& j.pid == pid
    &&& j.completed_at is None
    &&& j.error_message is None
    &&& j.total_tracks is None
    &&& j.downloaded_count == 0
    &&& j.failed_count == 0
    &&& j.not_found_count == 0
    &&& j.total_mb == 0
    &&& j.child_job_ids == Seq::<Seq<char>>::empty()
    &&& j.parent_job_id == parent
    &&& j.last_log_line == Seq::<char>::empty()
    &&& j.percent_complete is None
    &&& !j.acknowledged
    &&& is_timestamp(j.created_at) && is_timestamp(j.updated_at)
}

/// A running job record built from a prepared start.
fn started_job(p: &PreparedJob, progress: &str, pid: Option<u32>, parent: Option<String>) -> (j: Job)
    ensures
        is_started_job(
            j@,
            *p,
            progress@,
            pid,
            match parent {
                Some(s) => Some(s@),
                None => None,
            },
        ),
{
    let mut j = Job::default();
    j.id = p.id.clone();
    j.url = p.url.clone();
    j.job_type = p.job_type;
    j.associated_album_mode = p.associated_album_mode;
    j.status = JobStatus::Running;
    j.progress = String::from_str(progress);
    j.output_dir = p.output_dir.clone();
    j.log_path = p.log_path.clone();
    j.remote_conf_path = p.remote_conf_path.clone();
    j.listen_port = p.listen_port;
    j.pid = pid;
    j.created_at = crate::job::now_timestamp();
    j.updated_at = crate::job::now_timestamp();
    j.parent_job_id = parent;
    j
}

/// The warnings of a started job.
pub open spec fn start_warnings(p: PreparedJob) -> Seq<Seq<char>> {
    if p.associated_album_mode && p.job_type != JobType::Playlist {
        seq!["Associated Album Mode only works with playlists"@]
    } else {
        seq![]
    }
}

/// Records a job whose start command printed `pid_output`, and answers the
/// start request.
pub fn record_started_job(mgr: &mut JobManager, p: PreparedJob, pid_output: &str) -> (r: StartJobResponse)
    ensures
        final(mgr)@.dom() == old(mgr)@.dom().insert(p.id@),
        forall|k: Seq<char>| k != p.id@ && old(mgr)@.dom().contains(k) ==> final(mgr)@[k] == old(mgr)@[k],
        is_started_job(final(mgr)@[p.id@], p, "Starting..."@, pid_of(pid_output@), None),
        r.job_id@ == p.id@,
        r.log_path@ == p.log_path@,
        r.listen_port == p.listen_port,
        string_views(r.warnings@) == start_warnings(p),
{
    let pid = parse_pid(pid_output);
    let job = started_job(&p, "Starting...", pid, None);
    mgr.insert(job);
    let mut warnings: Vec<String> = Vec::new();
    if p.associated_album_mode && p.job_type != JobType::Playlist {
        warnings.push(String::from_str("Associated Album Mode only works with playlists"));
    }
    assert(string_views(warnings@) =~= start_warnings(p));
    StartJobResponse { job_id: p.id, log_path: p.log_path, listen_port: p.listen_port, warnings }
}

// ---------------------------------------------------------------------
// Associated Album Mode
// ---------------------------------------------------------------------

/// `"{artist} - {album}"`.
pub open spec fn album_query_of(a: AlbumSelection) -> Seq<char> {
    a.artist@ + " - "@ + a.album@
}

/// A prepared album download for `album` under `config`.
pub open spec fn is_prepared_album(
    p: PreparedJob,
    config: AppConfig,
    album: AlbumSelection,
    id: Seq<char>,
    listen_port: u16,
    query_escaped: Seq<char>,
) -> bool {
    let output_dir = config.output_path@ + "/albums/"@ + crate::commands::sanitized(album.artist@)
        + "/"@ + crate::commands::sanitized(album.album@);
    &&& p.id@ == id
    &&& p.url@ == album_query_of(album)
    &&& p.job_type == JobType::Album
    &&& p.associated_album_mode
    &&& p.output_dir@ == output_dir
    &&& p.log_path@ == log_path_of(id)
    &&& p.remote_conf_path@ == conf_path_of(id)
    &&& p.listen_port == listen_port
    &&& p.ini@ == sldl_ini_text(config, output_dir)
    &&& p.command@ == sldl_command_text(
        config.sldl_path@,
        "-a"@,
        "'"@ + query_escaped + "'"@,
        conf_path_of(id),
        listen_port,
        log_path_of(id),
    )
}

/// The search query of an album selection.
pub fn album_query(album: &AlbumSelection) -> (q: String)
    ensures
        q@ == album_query_of(*album),
{
    let mut q = album.artist.clone();
    q.append(" - ");
    q.append(album.album.as_str());
    q
}

/// Prepares an album download with the given id, listen port and escaped
/// album query.
pub fn prepare_album_job_with(
    config: &AppConfig,
    album: &AlbumSelection,
    id: &str,
    listen_port: u16,
    query_escaped: &str,
) -> (p: PreparedJob)
    ensures
        is_prepared_album(p, *config, *album, id@, listen_port, query_escaped@),
{
    let query = album_query(album);
    let mut output_dir = config.output_path.clone();
    output_dir.append("/albums/");
    output_dir.append(sanitize_dir(album.artist.as_str()).as_str());
    output_dir.append("/");
    output_dir.append(sanitize_dir(album.album.as_str()).as_str());
    let log_path = tmp_path(id, ".log");
    let remote_conf = tmp_path(id, ".conf");
    let ini = config.to_sldl_ini(output_dir.as_str());
    let command = quoted_command(
        config,
        "-a",
        query_escaped,
        remote_conf.as_str(),
        listen_port,
        log_path.as_str(),
    );
    PreparedJob {
        id: String::from_str(id),
        url: query,
        job_type: JobType::Album,
        associated_album_mode: true,
        output_dir,
        log_path,
        remote_conf_path: remote_conf,
        listen_port,
        ini,
        command,
    }
}

/// Prepares an album download: a fresh random id, a random listen port
/// above the configured base, and the album query escaped for the remote
/// shell.
pub fn prepare_album_job(config: &AppConfig, album: &AlbumSelection) -> (p: PreparedJob)
    requires
        config.listen_port_base + 99 <= u16::MAX,
    ensures
        is_uuid_v4_text(p.id@),
        config.listen_port_base <= p.listen_port < config.listen_port_base + 100,
        exists|e: Seq<char>|
            #[trigger] is_shell_escape_of(album_query_of(*album), e) && is_prepared_album(
                p,
                *config,
                *album,
                p.id@,
                p.listen_port,
                e,
            ),
{
    let id = new_job_id();
    let listen_port = allocate_listen_port(config.listen_port_base);
    let query = album_query(album);
    let escaped = escape_for_shell(query.as_str());
    prepare_album_job_with(config, album, id.as_str(), listen_port, escaped.as_str())
}

/// Records an album job whose start command printed `pid_output` and links
/// it to its parent playlist job (when that job is known).
pub fn record_album_job(mgr: &mut JobManager, p: PreparedJob, parent_id: &str, pid_output: &str) -> (id: String)
    ensures
        id@ == p.id@,
        final(mgr)@.dom() == old(mgr)@.dom().insert(p.id@),
        forall|k: Seq<char>|
            k != p.id@ && k != parent_id@ && old(mgr)@.dom().contains(k) ==> final(mgr)@[k]
                == old(mgr)@[k],
        p.id@ != parent_id@ ==> is_started_job(
            final(mgr)@[p.id@],
            p,
            "Starting album download..."@,
            pid_of(pid_output@),
            Some(parent_id@),
        ),
        p.id@ != parent_id@ && old(mgr)@.dom().contains(parent_id@) ==> final(mgr)@[parent_id@]
            == crate::job_manager::job_with_child(old(mgr)@[parent_id@], p.id@),
        p.id@ == parent_id@ ==> exists|j: JobView|
            #[trigger] is_started_job(
                j,
                p,
                "Starting album download..."@,
                pid_of(pid_output@),
                Some(parent_id@),
            ) && final(mgr)@[p.id@] == crate::job_manager::job_with_child(j, p.id@),
{
    let pid = parse_pid(pid_output);
    let job = started_job(&p, "Starting album download...", pid, Some(String::from_str(parent_id)));
    let ghost jv = job@;
    mgr.insert(job);
    let _ = mgr.add_child(parent_id, p.id.clone());
    proof {
        if p.id@ == parent_id@ {
            assert(is_started_job(
                jv,
                p,
                "Starting album download..."@,
                pid_of(pid_output@),
                Some(parent_id@),
            ));
        }
    }
    p.id
}

// ---------------------------------------------------------------------
// Job lists
// ---------------------------------------------------------------------

/// The status with the given (lowercase) name.
pub open spec fn status_named(n: Seq<char>) -> Option<JobStatus> {
    if n == "pending"@ {
        Some(JobStatus::Pending)
    } else if n == "running"@ {
        Some(JobStatus::Running)
    } else if n == "completed"@ {
        Some(JobStatus::Completed)
    } else if n == "failed"@ {
        Some(JobStatus::Failed)
    } else if n == "stopped"@ {
        Some(JobStatus::Stopped)
    } else if n == "banned"@ {
        Some(JobStatus::Banned)
    } else if n == "queued"@ {
        Some(JobStatus::Queued)
    } else {
        None
    }
}

/// Reads a status name; unknown names give `None`.
pub fn parse_status_name(n: &str) -> (r: Option<JobStatus>)
    ensures
        r == status_named(n@),
{
    let k = String::from_str(n);
    if k == String::from_str("pending") {
        Some(JobStatus::Pending)
    } else if k == String::from_str("running") {
        Some(JobStatus::Running)
    } else if k == String::from_str("completed") {
        Some(JobStatus::Completed)
    } else if k == String::from_str("failed") {
        Some(JobStatus::Failed)
    } else if k == String::from_str("stopped") {
        Some(JobStatus::Stopped)
    } else if k == String::from_str("banned") {
        Some(JobStatus::Banned)
    } else if k == String::from_str("queued") {
        Some(JobStatus::Queued)
    } else {
        None
    }
}

/// The status a listing filter selects (an unknown name selects none).
pub open spec fn filter_status(filter: Option<JobFilter>) -> Option<JobStatus> {
    match filter {
        Some(f) => match f.status {
            Some(s) => status_named(s@),
            None => None,
        },
        None => None,
    }
}

/// The search text of a listing filter.
pub open spec fn filter_search(filter: Option<JobFilter>) -> Option<Seq<char>> {
    match filter {
        Some(f) => match f.search {
            Some(q) => Some(q@),
            None => None,
        },
        None => None,
    }
}

/// The jobs of a registry that a listing filter selects.
pub open spec fn listed(m: Map<Seq<char>, JobView>, filter: Option<JobFilter>) -> Map<Seq<char>, JobView> {
    restrict_by(m, |j: JobView| job_matches(j, filter_status(filter), filter_search(filter)))
}

/// `o`, or `d` when absent.
pub open spec fn or_default(o: Option<usize>, d: usize) -> usize {
    match o {
        Some(v) => v,
        None => d,
    }
}

/// The sort order of a listing (newest created first by default).
pub open spec fn sort_or_default(s: Option<JobSort>) -> JobSort {
    match s {
        Some(v) => v,
        None => JobSort::CreatedAt,
    }
}

/// Lists jobs: filtered by status name and search text, sorted, and cut to
/// one page (page 0 and 50 jobs to a page by default).
pub fn list_jobs(
    mgr: &JobManager,
    filter: Option<JobFilter>,
    sort: Option<JobSort>,
    page: Option<usize>,
    per_page: Option<usize>,
) -> (r: Paginated<Job>)
    requires
        or_default(page, 0) * or_default(per_page, 50) <= usize::MAX,
    ensures
        r.total == listed(mgr@, filter).dom().len(),
        r.page == or_default(page, 0),
        r.per_page == or_default(per_page, 50),
        exists|l: Seq<JobView>|
            #[trigger] sorted_by(l, sort_or_default(sort)) && unique_ids(l) && registry(l) == listed(
                mgr@,
                filter,
            ) && jobs_view(r.items@) == l.subrange(
                page_range(l.len(), or_default(page, 0) as nat, or_default(per_page, 50) as nat).0,
                page_range(l.len(), or_default(page, 0) as nat, or_default(per_page, 50) as nat).1,
            ),
{
    let status = match &filter {
        Some(f) => match &f.status {
            Some(s) => parse_status_name(s.as_str()),
            None => None,
        },
        None => None,
    };
    let search: Option<&str> = match &filter {
        Some(f) => match &f.search {
            Some(q) => Some(q.as_str()),
            None => None,
        },
        None => None,
    };
    let jobs = mgr.list_filtered(status, search);
    let order = match sort {
        Some(s) => s,
        None => JobSort::CreatedAt,
    };
    let ghost before = jobs_view(jobs@);
    let sorted = sort_jobs(jobs, order);
    proof {
        lemma_registry_permutation(before, jobs_view(sorted@));
        lemma_registry_len(before);
        vstd::seq_lib::to_multiset_len(before);
        vstd::seq_lib::to_multiset_len(jobs_view(sorted@));
        let sv = match search {
            Some(q) => Some(q@),
            None => None::<Seq<char>>,
        };
        assert(sv == filter_search(filter));
        assert(status == filter_status(filter));
        assert((|j: JobView| job_matches(j, status, sv)) =~= (|j: JobView|
            job_matches(j, filter_status(filter), filter_search(filter))));
        assert(registry(before) == listed(mgr@, filter));
    }
    let p = match page {
        Some(v) => v,
        None => 0,
    };
    let pp = match per_page {
        Some(v) => v,
        None => 50,
    };
    let r = Paginated::new(sorted, p, pp);
    proof {
        let l = jobs_view(sorted@);
        let (st, en) = page_range(l.len(), p as nat, pp as nat);
        assert(jobs_view(r.items@) =~= l.subrange(st, en));
        assert(sorted_by(l, sort_or_default(sort)));
    }
    r
}

/// `"Job {id} not found"`.
pub open spec fn not_found_text(id: Seq<char>) -> Seq<char> {
    "Job "@ + id + " not found"@
}

fn not_found_message(id: &str) -> (m: String)
    ensures
        m@ == not_found_text(id@),
{
    let mut m = String::from_str("Job ");
    m.append(id);
    m.append(" not found");
    m
}

/// A copy of one job.
pub fn get_job(mgr: &JobManager, job_id: &str) -> (r: Result<Job, String>)
    ensures
        r is Ok <==> mgr@.dom().contains(job_id@),
        r matches Ok(j) ==> j@ == mgr@[job_id@],
        r matches Err(m) ==> m@ == not_found_text(job_id@),
{
    match mgr.get(job_id) {
        Some(j) => Ok(j),
        None => Err(not_found_message(job_id)),
    }
}

/// Removes one job from the registry.
pub fn delete_job(mgr: &mut JobManager, job_id: &str) -> (r: Result<(), String>)
    ensures
        r is Ok <==> old(mgr)@.dom().contains(job_id@),
        r matches Err(m) ==> m@ == not_found_text(job_id@),
        final(mgr)@ == old(mgr)@.remove(job_id@),
{
    match mgr.remove(job_id) {
        Some(_) => Ok(()),
        None => Err(not_found_message(job_id)),
    }
}

/// Records the user's acknowledgement of a job; a request for an unknown
/// job is accepted and changes nothing.
pub fn ack_job(mgr: &mut JobManager, req: &AckJobRequest) -> (r: Result<(), String>)
    ensures
        r is Ok,
        old(mgr)@.dom().contains(req.job_id@) ==> final(mgr)@ == old(mgr)@.insert(
            req.job_id@,
            JobView { acknowledged: req.acknowledged, ..old(mgr)@[req.job_id@] },
        ),
        !old(mgr)@.dom().contains(req.job_id@) ==> final(mgr)@ == old(mgr)@,
{
    let _ = mgr.set_acknowledged(req.job_id.as_str(), req.acknowledged);
    Ok(())
}

/// The registry after deleting `ids` in order.
pub open spec fn after_deletes(m: Map<Seq<char>, JobView>, ids: Seq<Seq<char>>) -> Map<Seq<char>, JobView>
    decreases ids.len(),
{
    if ids.len() == 0 {
        m
    } else {
        after_deletes(m, ids.drop_last()).remove(ids.last())
    }
}

/// The report of deleting `ids` in order: "Deleted {id}" or
/// "Not found: {id}" for each.
pub open spec fn delete_report(m: Map<Seq<char>, JobView>, ids: Seq<Seq<char>>) -> Seq<Seq<char>>
    decreases ids.len(),
{
    if ids.len() == 0 {
        seq![]
    } else {
        let id = ids.last();
        let line = if after_deletes(m, ids.drop_last()).dom().contains(id) {
            "Deleted "@ + id
        } else {
            "Not found: "@ + id
        };
        delete_report(m, ids.drop_last()).push(line)
    }
}

/// Runs a batch operation; only deletion is supported, other operations
/// answer with one line saying so and change nothing.
pub fn batch_jobs(mgr: &mut JobManager, req: &BatchJobRequest) -> (r: Vec<String>)
    ensures
        req.operation == BatchOperation::Delete ==> final(mgr)@ == after_deletes(
            old(mgr)@,
            string_views(req.job_ids@),
        ) && string_views(r@) == delete_report(old(mgr)@, string_views(req.job_ids@)),
        req.operation != BatchOperation::Delete ==> final(mgr)@ == old(mgr)@ && string_views(r@)
            == seq!["Only delete supported in batch for now"@],
{
    let mut results: Vec<String> = Vec::new();
    match req.operation {
        BatchOperation::Delete => {
            let ghost m0 = mgr@;
            let ghost ids = string_views(req.job_ids@);
            let mut i: usize = 0;
            assert(ids.take(0) == Seq::<Seq<char>>::empty());
            assert(string_views(results@) =~= Seq::<Seq<char>>::empty());
            while i < req.job_ids.len()
                invariant
                    i <= req.job_ids.len(),
                    ids == string_views(req.job_ids@),
                    mgr@ == after_deletes(m0, ids.take(i as int)),
                    string_views(results@) == delete_report(m0, ids.take(i as int)),
                decreases req.job_ids.len() - i,
            {
                let id = &req.job_ids[i];
                proof {
                    assert(ids.take(i + 1).drop_last() == ids.take(i as int));
                    assert(ids.take(i + 1).last() == id@);
                }
                let line = match mgr.remove(id.as_str()) {
                    Some(_) => {
                        let mut l = String::from_str("Deleted ");
                        l.append(id.as_str());
                        l
                    },
                    None => {
                        let mut l = String::from_str("Not found: ");
                        l.append(id.as_str());
                        l
                    },
                };
                let ghost prev = results@;
                results.push(line);
                assert(string_views(results@) =~= string_views(prev).push(line@));
                i = i + 1;
            }
            assert(ids.take(req.job_ids.len() as int) == ids);
        },
        _ => {
            results.push(String::from_str("Only delete supported in batch for now"));
            assert(string_views(results@) =~= seq!["Only delete supported in batch for now"@]);
        },
    }
    results
}

/// Job counts and totals for the dashboard.
#[derive(Clone, Debug)]
pub struct JobStatsSummary {
    pub total_jobs: usize,
    pub running: usize,
    pub completed: usize,
    pub failed: usize,
    pub stopped: usize,
    pub banned: usize,
    pub total_downloaded: usize,
    pub total_failed: usize,
    pub total_mb: u64,
}

/// Number of jobs of the list with status `st`.
pub open spec fn count_status(s: Seq<JobView>, st: JobStatus) -> int
    decreases s.len(),
{
    if s.len() == 0 {
        0
    } else {
        count_status(s.drop_last(), st) + if s.last().status == st {
            1int
        } else {
            0int
        }
    }
}

/// Megabytes downloaded over a list of jobs.
pub open spec fn sum_mb(s: Seq<JobView>) -> int
    decreases s.len(),
{
    if s.len() == 0 {
        0
    } else {
        sum_mb(s.drop_last()) + s.last().total_mb
    }
}

/// A status count is at most the number of jobs.
proof fn lemma_count_le_len(s: Seq<JobView>, st: JobStatus)
    ensures
        0 <= count_status(s, st) <= s.len(),
    decreases s.len(),
{
    if s.len() > 0 {
        lemma_count_le_len(s.drop_last(), st);
    }
}

/// Counts and totals of a list of jobs; `None` when a total does not fit
/// its integer type.
pub fn job_stats(jobs: &Vec<Job>) -> (r: Option<JobStatsSummary>)
    ensures
        r is Some <==> (sum_downloaded(jobs_view(jobs@)) <= usize::MAX && sum_failed(
            jobs_view(jobs@),
        ) <= usize::MAX && sum_mb(jobs_view(jobs@)) <= u64::MAX),
        r matches Some(st) ==> {
            let v = jobs_view(jobs@);
            &&& st.total_jobs == jobs@.len()
            &&& st.running == count_status(v, JobStatus::Running)
            &&& st.completed == count_status(v, JobStatus::Completed)
            &&& st.failed == count_status(v, JobStatus::Failed)
            &&& st.stopped == count_status(v, JobStatus::Stopped)
            &&& st.banned == count_status(v, JobStatus::Banned)
            &&& st.total_downloaded == sum_downloaded(v)
            &&& st.total_failed == sum_failed(v)
            &&& st.total_mb == sum_mb(v)
        },
{
    let ghost v = jobs_view(jobs@);
    let mut running: usize = 0;
    let mut completed: usize = 0;
    let mut failed: usize = 0;
    let mut stopped: usize = 0;
    let mut banned: usize = 0;
    let mut downloaded: usize = 0;
    let mut failed_tracks: usize = 0;
    let mut mb: u64 = 0;
    let mut overflow = false;
    let mut i: usize = 0;
    assert(v.take(0) == Seq::<JobView>::empty());
    while i < jobs.len()
        invariant
            i <= jobs.len(),
            v == jobs_view(jobs@),
            running == count_status(v.take(i as int), JobStatus::Running),
            completed == count_status(v.take(i as int), JobStatus::Completed),
            failed == count_status(v.take(i as int), JobStatus::Failed),
            stopped == count_status(v.take(i as int), JobStatus::Stopped),
            banned == count_status(v.take(i as int), JobStatus::Banned),
            !overflow ==> downloaded == sum_downloaded(v.take(i as int)),
            !overflow ==> failed_tracks == sum_failed(v.take(i as int)),
            !overflow ==> mb == sum_mb(v.take(i as int)),
            overflow ==> !(sum_downloaded(v) <= usize::MAX && sum_failed(v) <= usize::MAX && sum_mb(v)
                <= u64::MAX),
        decreases jobs.len() - i,
    {
        let j = &jobs[i];
        proof {
            assert(v.take(i + 1).drop_last() == v.take(i as int));
            assert(v.take(i + 1).last() == j@);
            lemma_count_le_len(v.take(i as int), JobStatus::Running);
            lemma_count_le_len(v.take(i as int), JobStatus::Completed);
            lemma_count_le_len(v.take(i as int), JobStatus::Failed);
            lemma_count_le_len(v.take(i as int), JobStatus::Stopped);
            lemma_count_le_len(v.take(i as int), JobStatus::Banned);
            lemma_stats_prefix(v, i + 1);
        }
        match j.status {
            JobStatus::Running => {
                running = running + 1;
            },
            JobStatus::Completed => {
                completed = completed + 1;
            },
            JobStatus::Failed => {
                failed = failed + 1;
            },
            JobStatus::Stopped => {
                stopped = stopped + 1;
            },
            JobStatus::Banned => {
                banned = banned + 1;
            },
            _ => {},
        }
        if !overflow {
            match (
                downloaded.checked_add(j.downloaded_count),
                failed_tracks.checked_add(j.failed_count),
                mb.checked_add(j.total_mb),
            ) {
                (Some(d), Some(f), Some(m)) => {
                    downloaded = d;
                    failed_tracks = f;
                    mb = m;
                },
                _ => {
                    overflow = true;
                },
            }
        }
        i = i + 1;
    }
    assert(v.take(jobs.len() as int) == v);
    if overflow {
        None
    } else {
        Some(
            JobStatsSummary {
                total_jobs: jobs.len(),
                running,
                completed,
                failed,
                stopped,
                banned,
                total_downloaded: downloaded,
                total_failed: failed_tracks,
                total_mb: mb,
            },
        )
    }
}

/// Sums over a prefix are at most the sums over the whole list.
proof fn lemma_stats_prefix(s: Seq<JobView>, n: int)
    requires
        0 <= n <= s.len(),
    ensures
        0 <= sum_downloaded(s.take(n)) <= sum_downloaded(s),
        0 <= sum_failed(s.take(n)) <= sum_failed(s),
        0 <= sum_mb(s.take(n)) <= sum_mb(s),
    decreases s.len(),
{
    crate::job_manager::lemma_sums_prefix(s, n);
    lemma_mb_prefix(s, n);
}

/// Megabytes over a prefix are at most those over the whole list.
proof fn lemma_mb_prefix(s: Seq<JobView>, n: int)
    requires
        0 <= n <= s.len(),
    ensures
        0 <= sum_mb(s.take(n)) <= sum_mb(s),
    decreases s.len(),
{
    if n < s.len() {
        assert(s.drop_last().take(n) == s.take(n));
        lemma_mb_prefix(s.drop_last(), n);
    } else {
        assert(s.take(n) == s);
        lemma_mb_nonneg(s);
    }
}

/// Megabyte sums are never negative.
proof fn lemma_mb_nonneg(s: Seq<JobView>)
    ensures
        0 <= sum_mb(s),
    decreases s.len(),
{
    if s.len() > 0 {
        lemma_mb_nonneg(s.drop_last());
    }
}

// ---------------------------------------------------------------------
// Job families (Associated Album Mode)
// ---------------------------------------------------------------------

/// The parent job followed by its registered children.
pub fn get_job_family(mgr: &JobManager, job_id: &str) -> (r: Result<Vec<Job>, String>)
    ensures
        r is Ok <==> mgr@.dom().contains(job_id@),
        r matches Ok(v) ==> jobs_view(v@) == seq![mgr@[job_id@]] + children_in(
            mgr@,
            mgr@[job_id@].child_job_ids,
        ),
        r matches Err(m) ==> m@ == not_found_text(job_id@),
{
    let parent = match mgr.get(job_id) {
        Some(p) => p,
        None => {
            return Err(not_found_message(job_id));
        },
    };
    let mut family: Vec<Job> = Vec::new();
    family.push(parent);
    let children = mgr.get_children(job_id);
    let ghost pre = family@;
    let mut children = children;
    family.append(&mut children);
    assert(jobs_view(family@) =~= seq![mgr@[job_id@]] + children_in(
        mgr@,
        mgr@[job_id@].child_job_ids,
    ));
    Ok(family)
}

/// The estimate text for a family with `downloaded` of `total` tracks done,
/// at three minutes a track; `None` when the remaining seconds do not fit
/// in 64 bits.
pub open spec fn estimate_text(downloaded: usize, total: usize) -> Option<Seq<char>> {
    if total == 0 || downloaded == 0 {
        Some("Estimating..."@)
    } else {
        let remaining: int = if total > downloaded {
            total - downloaded
        } else {
            0
        };
        if remaining * 180 > u64::MAX {
            None
        } else {
            let mins = (remaining * 180) / 60;
            if mins < 60 {
                Some("~"@ + decimal(mins as nat) + " min remaining"@)
            } else {
                Some("~"@ + decimal((mins / 60) as nat) + "h "@ + decimal((mins % 60) as nat)
                    + "m remaining"@)
            }
        }
    }
}

/// Estimates the remaining time of a family with `downloaded` of `total`
/// tracks done.
pub fn completion_estimate(downloaded: usize, total: usize) -> (r: Option<String>)
    ensures
        match r {
            Some(s) => estimate_text(downloaded, total) == Some(s@),
            None => estimate_text(downloaded, total) is None,
        },
{
    if total == 0 || downloaded == 0 {
        return Some(String::from_str("Estimating..."));
    }
    let remaining = total.saturating_sub(downloaded) as u64;
    let remaining_sec = match remaining.checked_mul(180) {
        Some(v) => v,
        None => {
            return None;
        },
    };
    let mins = remaining_sec / 60;
    let mut r = String::from_str("~");
    if mins < 60 {
        push_decimal(&mut r, mins);
        r.append(" min remaining");
    } else {
        push_decimal(&mut r, mins / 60);
        r.append("h ");
        push_decimal(&mut r, mins % 60);
        r.append("m remaining");
    }
    Some(r)
}

/// Estimates the completion time of a family of jobs from its aggregate
/// progress (an unknown job counts as nothing done); `None` when the
/// aggregate or the estimate leaves its integer type.
pub fn estimate_family_completion(mgr: &JobManager, job_id: &str) -> (r: Option<String>)
    ensures
        !mgr@.dom().contains(job_id@) ==> (r matches Some(s) && s@ == "Estimating..."@),
        mgr@.dom().contains(job_id@) && aggregate_fits(mgr@, job_id@) ==> match r {
            Some(s) => estimate_text(
                family_downloaded(mgr@, job_id@) as usize,
                family_total(mgr@, job_id@) as usize,
            ) == Some(s@),
            None => estimate_text(
                family_downloaded(mgr@, job_id@) as usize,
                family_total(mgr@, job_id@) as usize,
            ) is None,
        },
        mgr@.dom().contains(job_id@) && !aggregate_fits(mgr@, job_id@) ==> r is None,
{
    if !mgr.aggregate_in_range(job_id) {
        return None;
    }
    let (downloaded, _failed, total) = match mgr.aggregate_progress(job_id) {
        Some(t) => t,
        None => (0, 0, 0),
    };
    completion_estimate(downloaded, total)
}

} // verus!
