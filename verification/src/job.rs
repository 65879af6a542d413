//! Download jobs: their classification, lifecycle states and records.

use vstd::prelude::*;

use crate::text::{
    ascii_lower, chars_of, contains, contains_chars, is_ascii_text, is_digit, str_lowercase,
    to_lowercase,
};

verus! {

/// Job classification derived from the Spotify URL.
#[derive(Clone, Copy, Debug, PartialEq, Eq, Structural)]
pub enum JobType {
    Auto,
    Playlist,
    Album,
    Artist,
    Track,
    Aggregate,
}

/// The job type of a URL whose lowercase form is `lower`.
pub open spec fn job_type_of(lower: Seq<char>) -> JobType {
    if contains(lower, "/playlist/"@) {
        JobType::Playlist
    } else if contains(lower, "/album/"@) {
        JobType::Album
    } else if contains(lower, "/artist/"@) {
        JobType::Artist
    } else if contains(lower, "/track/"@) {
        JobType::Track
    } else {
        JobType::Auto
    }
}

/// The sldl command-line flag of a job type.
pub open spec fn sldl_flag_of(t: JobType) -> Seq<char> {
    match t {
        JobType::Album => "-a"@,
        JobType::Artist | JobType::Aggregate => "-g"@,
        _ => ""@,
    }
}

/// The lowercase name of a job type.
pub open spec fn job_type_label(t: JobType) -> Seq<char> {
    match t {
        JobType::Auto => "auto"@,
        JobType::Playlist => "playlist"@,
        JobType::Album => "album"@,
        JobType::Artist => "artist"@,
        JobType::Track => "track"@,
        JobType::Aggregate => "aggregate"@,
    }
}

impl JobType {
    /// Classifies a Spotify URL by the path segment it contains
    /// (case-insensitively); playlists win over albums, albums over artists,
    /// artists over tracks.
    pub fn detect(url: &str) -> (t: JobType)
        ensures
            t == job_type_of(str_lowercase(url@)),
            is_ascii_text(url@) ==> t == job_type_of(ascii_lower(url@)),
    {
        let lower = to_lowercase(url);
        Self::detect_lowercase(lower.as_str())
    }

    /// Classifies a URL that is already in lowercase.
    pub fn detect_lowercase(lower: &str) -> (t: JobType)
        ensures
            t == job_type_of(lower@),
    {
        let l = chars_of(lower);
        let playlist = chars_of("/playlist/");
        let album = chars_of("/album/");
        let artist = chars_of("/artist/");
        let track = chars_of("/track/");
        if contains_chars(&l, &playlist) {
            JobType::Playlist
        } else if contains_chars(&l, &album) {
            JobType::Album
        } else if contains_chars(&l, &artist) {
            JobType::Artist
        } else if contains_chars(&l, &track) {
            JobType::Track
        } else {
            JobType::Auto
        }
    }

    /// The sldl flag that selects this kind of download.
    pub fn sldl_flag(&self) -> (r: &'static str)
        ensures
            r@ == sldl_flag_of(*self),
    {
        match self {
            JobType::Album => "-a",
            JobType::Artist | JobType::Aggregate => "-g",
            _ => "",
        }
    }

    /// The lowercase name of this job type.
    pub fn label(&self) -> (r: &'static str)
        ensures
            r@ == job_type_label(*self),
    {
        match self {
            JobType::Auto => "auto",
            JobType::Playlist => "playlist",
            JobType::Album => "album",
            JobType::Artist => "artist",
            JobType::Track => "track",
            JobType::Aggregate => "aggregate",
        }
    }
}

/// Job lifecycle state.
#[derive(Clone, Copy, Debug, PartialEq, Eq, Structural)]
pub enum JobStatus {
    Pending,
    Running,
    Completed,
    Failed,
    Stopped,
    Banned,
    Queued,
}

/// The job may still make progress.
pub open spec fn status_active(s: JobStatus) -> bool {
    s == JobStatus::Pending || s == JobStatus::Running || s == JobStatus::Queued
}

/// The job has finished for good.
pub open spec fn status_terminal(s: JobStatus) -> bool {
    s == JobStatus::Completed || s == JobStatus::Failed || s == JobStatus::Stopped
}

impl JobStatus {
    /// Pending, running or queued.
    pub fn is_active(&self) -> (b: bool)
        ensures
            b == status_active(*self),
    {
        match self {
            JobStatus::Pending | JobStatus::Running | JobStatus::Queued => true,
            _ => false,
        }
    }

    /// Completed, failed or stopped.
    pub fn is_terminal(&self) -> (b: bool)
        ensures
            b == status_terminal(*self),
    {
        match self {
            JobStatus::Completed | JobStatus::Failed | JobStatus::Stopped => true,
            _ => false,
        }
    }
}

/// No status is both active and terminal; `Banned` is neither.
pub proof fn lemma_active_terminal_disjoint(s: JobStatus)
    ensures
        !(status_active(s) && status_terminal(s)),
        s == JobStatus::Banned ==> !status_active(s) && !status_terminal(s),
{
}

/// A completion percentage, kept exact as `part / whole * 100`; a parsed
/// one lies between 0% and 100% (`0 < whole`, `part <= whole`).
#[derive(Clone, Copy, Debug, PartialEq, Eq, Structural)]
pub struct Ratio {
    pub part: usize,
    pub whole: usize,
}

/// A single download job tracked by the app.
///
/// Jobs are ephemeral (in memory). The source of truth for job state is the
/// remote sldl process and its log file on the remote host.
#[derive(Debug)]
pub struct Job {
    pub id: String,
    pub url: String,
    pub job_type: JobType,
    /// True if this job was created via Associated Album Mode.
    pub associated_album_mode: bool,
    pub status: JobStatus,
    pub progress: String,
    /// Absolute output directory on remote host.
    pub output_dir: String,
    /// Absolute log file path on remote host.
    pub log_path: String,
    /// Absolute per-job sldl.conf path on remote host.
    pub remote_conf_path: String,
    /// Remote listen port assigned to this job.
    pub listen_port: u16,
    /// Remote PID of the sldl process (if known).
    pub pid: Option<u32>,
    pub created_at: String,
    pub updated_at: String,
    pub completed_at: Option<String>,
    pub error_message: Option<String>,
    /// Number of tracks known to exist (from playlist extraction).
    pub total_tracks: Option<usize>,
    /// Tracks successfully downloaded so far.
    pub downloaded_count: usize,
    /// Tracks that failed after all retries.
    pub failed_count: usize,
    /// Tracks not found on Soulseek.
    pub not_found_count: usize,
    /// Total MB downloaded so far.
    pub total_mb: u64,
    /// For album-mode jobs: list of album jobs spawned from this.
    pub child_job_ids: Vec<String>,
    /// For child album jobs: the parent playlist job ID.
    pub parent_job_id: Option<String>,
    /// Last-seen log line (for deduplication during polling).
    pub last_log_line: String,
    /// Parsed completion percentage (0% to 100%).
    pub percent_complete: Option<Ratio>,
    /// Whether the user has acknowledged completion/failure.
    pub acknowledged: bool,
}

/// The content of a [`Job`], with every string taken by its characters.
pub struct JobView {
    pub id: Seq<char>,
    pub url: Seq<char>,
    pub job_type: JobType,
    pub associated_album_mode: bool,
    pub status: JobStatus,
    pub progress: Seq<char>,
    pub output_dir: Seq<char>,
    pub log_path: Seq<char>,
    pub remote_conf_path: Seq<char>,
    pub listen_port: u16,
    pub pid: Option<u32>,
    pub created_at: Seq<char>,
    pub updated_at: Seq<char>,
    pub completed_at: Option<Seq<char>>,
    pub error_message: Option<Seq<char>>,
    pub total_tracks: Option<usize>,
    pub downloaded_count: usize,
    pub failed_count: usize,
    pub not_found_count: usize,
    pub total_mb: u64,
    pub child_job_ids: Seq<Seq<char>>,
    pub parent_job_id: Option<Seq<char>>,
    pub last_log_line: Seq<char>,
    pub percent_complete: Option<Ratio>,
    pub acknowledged: bool,
}

/// The characters of each string in a list.
pub open spec fn string_views(v: Seq<String>) -> Seq<Seq<char>> {
    v.map_values(|s: String| s@)
}

impl View for Job {
    type V = JobView;

    open spec fn view(&self) -> JobView {
        JobView {
            id: self.id@,
            url: self.url@,
            job_type: self.job_type,
            associated_album_mode: self.associated_album_mode,
            status: self.status,
            progress: self.progress@,
            output_dir: self.output_dir@,
            log_path: self.log_path@,
            remote_conf_path: self.remote_conf_path@,
            listen_port: self.listen_port,
            pid: self.pid,
            created_at: self.created_at@,
            updated_at: self.updated_at@,
            completed_at: opt_view(self.completed_at),
            error_message: opt_view(self.error_message),
            total_tracks: self.total_tracks,
            downloaded_count: self.downloaded_count,
            failed_count: self.failed_count,
            not_found_count: self.not_found_count,
            total_mb: self.total_mb,
            child_job_ids: string_views(self.child_job_ids@),
            parent_job_id: opt_view(self.parent_job_id),
            last_log_line: self.last_log_line@,
            percent_complete: self.percent_complete,
            acknowledged: self.acknowledged,
        }
    }
}

impl Clone for Job {
    fn clone(&self) -> (r: Job)
        ensures
            r@ == self@,
    {
        Job {
            id: self.id.clone(),
            url: self.url.clone(),
            job_type: self.job_type,
            associated_album_mode: self.associated_album_mode,
            status: self.status,
            progress: self.progress.clone(),
            output_dir: self.output_dir.clone(),
            log_path: self.log_path.clone(),
            remote_conf_path: self.remote_conf_path.clone(),
            listen_port: self.listen_port,
            pid: self.pid,
            created_at: self.created_at.clone(),
            updated_at: self.updated_at.clone(),
            completed_at: clone_opt_string(&self.completed_at),
            error_message: clone_opt_string(&self.error_message),
            total_tracks: self.total_tracks,
            downloaded_count: self.downloaded_count,
            failed_count: self.failed_count,
            not_found_count: self.not_found_count,
            total_mb: self.total_mb,
            child_job_ids: clone_strings(&self.child_job_ids),
            parent_job_id: clone_opt_string(&self.parent_job_id),
            last_log_line: self.last_log_line.clone(),
            percent_complete: self.percent_complete,
            acknowledged: self.acknowledged,
        }
    }
}

/// A local time written as `%Y-%m-%d %H:%M:%S`: the year (four digits,
/// or a sign and at least four digits outside 0..=9999), then
/// `-MM-DD HH:MM:SS` with two digits each.
pub open spec fn is_timestamp(t: Seq<char>) -> bool {
    let n = t.len() as int;
    &&& n >= 19
    &&& t[n - 15] == '-' && t[n - 12] == '-' && t[n - 9] == ' ' && t[n - 6] == ':' && t[n - 3] == ':'
    &&& is_digit(t[n - 14]) && is_digit(t[n - 13]) && is_digit(t[n - 11]) && is_digit(t[n - 10])
    &&& is_digit(t[n - 8]) && is_digit(t[n - 7]) && is_digit(t[n - 5]) && is_digit(t[n - 4])
    &&& is_digit(t[n - 2]) && is_digit(t[n - 1])
    &&& forall|i: int| 0 <= i < n - 15 ==> (is_digit(#[trigger] t[i]) || (i == 0 && (t[i] == '+'
        || t[i] == '-')))
}

/// Calls `chrono::Local::now()` and formats it as `%Y-%m-%d %H:%M:%S`.
/// The time itself depends on the clock and the local time zone and is not
/// stated; chrono's formatting gives its shape.
#[verifier::external_body]
pub(crate) fn now_timestamp() -> (r: String)
    ensures
        is_timestamp(r@),
{
    chrono::Local::now().format("%Y-%m-%d %H:%M:%S").to_string()
}

/// A fresh pending job: empty strings, zero counters, `"Pending"` progress,
/// and both timestamps set to the same reading of the clock.
pub open spec fn is_fresh_job(j: JobView) -> bool {
    &&& j.id == Seq::<char>::empty()
    &&& j.url == Seq::<char>::empty()
    &&& j.job_type == JobType::Auto
    &&& !j.associated_album_mode
    &&& j.status == JobStatus::Pending
    &&& j.progress == "Pending"@
    &&& j.output_dir == Seq::<char>::empty()
    &&& j.log_path == Seq::<char>::empty()
    &&& j.remote_conf_path == Seq::<char>::empty()
    &&& j.listen_port == 0
    &&& j.pid is None
    &&& j.created_at == j.updated_at
    &&& is_timestamp(j.created_at)
    &&& j.completed_at is None
    &&& j.error_message is None
    &&& j.total_tracks is None
    &&& j.downloaded_count == 0
    &&& j.failed_count == 0
    &&& j.not_found_count == 0
    &&& j.total_mb == 0
    &&& j.child_job_ids == Seq::<Seq<char>>::empty()
    &&& j.parent_job_id is None
    &&& j.last_log_line == Seq::<char>::empty()
    &&& j.percent_complete is None
    &&& !j.acknowledged
}

impl Default for Job {
    fn default() -> (j: Job)
        ensures
            is_fresh_job(j@),
    {
        let now = now_timestamp();
        let j = Job {
            id: String::new(),
            url: String::new(),
            job_type: JobType::Auto,
            associated_album_mode: false,
            status: JobStatus::Pending,
            progress: String::from_str("Pending"),
            output_dir: String::new(),
            log_path: String::new(),
            remote_conf_path: String::new(),
            listen_port: 0,
            pid: None,
            created_at: now.clone(),
            updated_at: now,
            completed_at: None,
            error_message: None,
            total_tracks: None,
            downloaded_count: 0,
            failed_count: 0,
            not_found_count: 0,
            total_mb: 0,
            child_job_ids: Vec::new(),
            parent_job_id: None,
            last_log_line: String::new(),
            percent_complete: None,
            acknowledged: false,
        };
        assert(string_views(j.child_job_ids@) == Seq::<Seq<char>>::empty());
        j
    }
}

/// Parsed progress info extracted from sldl log output.
#[derive(Debug)]
pub struct ParsedProgress {
    pub downloaded: usize,
    pub failed: usize,
    pub not_found: usize,
    pub total: usize,
    pub percent: Option<Ratio>,
    pub current_track: Option<String>,
    pub current_action: Option<String>,
}

/// The mathematical content of a [`ParsedProgress`].
pub struct ProgressView {
    pub downloaded: usize,
    pub failed: usize,
    pub not_found: usize,
    pub total: usize,
    pub percent: Option<Ratio>,
    pub current_track: Option<Seq<char>>,
    pub current_action: Option<Seq<char>>,
}

/// The view of an optional string.
pub open spec fn opt_view(o: Option<String>) -> Option<Seq<char>> {
    match o {
        Some(s) => Some(s@),
        None => None,
    }
}

impl View for ParsedProgress {
    type V = ProgressView;

    open spec fn view(&self) -> ProgressView {
        ProgressView {
            downloaded: self.downloaded,
            failed: self.failed,
            not_found: self.not_found,
            total: self.total,
            percent: self.percent,
            current_track: opt_view(self.current_track),
            current_action: opt_view(self.current_action),
        }
    }
}

impl ParsedProgress {
    /// Nothing parsed yet.
    pub fn new() -> (p: ParsedProgress)
        ensures
            p@ == empty_progress(),
    {
        ParsedProgress {
            downloaded: 0,
            failed: 0,
            not_found: 0,
            total: 0,
            percent: None,
            current_track: None,
            current_action: None,
        }
    }
}

/// Progress before any log line was read.
pub open spec fn empty_progress() -> ProgressView {
    ProgressView {
        downloaded: 0,
        failed: 0,
        not_found: 0,
        total: 0,
        percent: None,
        current_track: None,
        current_action: None,
    }
}

/// A copy of an optional string.
pub fn clone_opt_string(o: &Option<String>) -> (r: Option<String>)
    ensures
        r == *o,
{
    match o {
        Some(s) => Some(s.clone()),
        None => None,
    }
}

/// A copy of a list of strings.
pub fn clone_strings(v: &Vec<String>) -> (r: Vec<String>)
    ensures
        r@ == v@,
{
    let mut r: Vec<String> = Vec::new();
    let mut i: usize = 0;
    while i < v.len()
        invariant
            i <= v.len(),
            r@ == v@.take(i as int),
        decreases v.len() - i,
    {
        r.push(v[i].clone());
        i = i + 1;
        assert(r@ == v@.take(i as int));
    }
    assert(v@.take(v.len() as int) == v@);
    r
}

/// Request payload for starting a new job.
#[derive(Clone, Debug)]
pub struct StartJobRequest {
    pub url: String,
    /// "auto", "playlist", "album", "artist" or "track".
    pub job_type: String,
    pub associated_album_mode: bool,
    /// Override output sub-directory (optional).
    pub output_subdir: Option<String>,
    /// Override listen port (optional, for testing).
    pub listen_port: Option<u16>,
    /// If set, enqueue but don't start immediately.
    pub enqueue_only: bool,
}

/// Request payload for starting Associated Album Mode.
#[derive(Clone, Debug)]
pub struct StartAlbumModeRequest {
    pub playlist_job_id: String,
    pub selected_albums: Vec<AlbumSelection>,
}

/// An album picked for download in Associated Album Mode.
#[derive(Clone, Debug)]
pub struct AlbumSelection {
    pub artist: String,
    pub album: String,
    pub priority: i32,
}

/// Job filter for listing.
#[derive(Clone, Debug)]
pub struct JobFilter {
    pub status: Option<String>,
    pub job_type: Option<String>,
    pub search: Option<String>,
}

impl Default for JobFilter {
    fn default() -> (f: JobFilter)
        ensures
            f.status is None && f.job_type is None && f.search is None,
    {
        JobFilter { status: None, job_type: None, search: None }
    }
}

/// Sort order for job lists.
#[derive(Clone, Copy, Debug, PartialEq, Eq, Structural)]
pub enum JobSort {
    CreatedAt,
    UpdatedAt,
    Progress,
    Status,
}

/// Request to update a job's acknowledgement state.
#[derive(Clone, Debug)]
pub struct AckJobRequest {
    pub job_id: String,
    pub acknowledged: bool,
}

/// Response from starting a job.
#[derive(Clone, Debug)]
pub struct StartJobResponse {
    pub job_id: String,
    pub log_path: String,
    pub listen_port: u16,
    pub warnings: Vec<String>,
}

/// Batch operation request.
#[derive(Clone, Debug)]
pub struct BatchJobRequest {
    pub job_ids: Vec<String>,
    pub operation: BatchOperation,
}

/// What a batch request does to its jobs.
#[derive(Clone, Copy, Debug, PartialEq, Eq, Structural)]
pub enum BatchOperation {
    Stop,
    Restart,
    Delete,
    Acknowledge,
}

} // verus!
