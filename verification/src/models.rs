//! Shared data types exchanged with the frontend.

use vstd::prelude::*;

use crate::config::AppConfig;
use crate::job::Job;

verus! {

/// Response from the album discovery of a playlist.
#[derive(Clone, Debug)]
pub struct AlbumDiscoveryResult {
    pub track_count: usize,
    pub unique_albums: Vec<AlbumInfo>,
    pub already_have: Vec<AlbumInfo>,
}

/// An album found in a playlist.
#[derive(Clone, Debug)]
pub struct AlbumInfo {
    pub artist: String,
    pub album: String,
    pub track_title: String,
}

/// Overall library statistics.
#[derive(Clone, Debug)]
pub struct LibraryStats {
    pub total_files: usize,
    pub total_artists: usize,
    pub total_albums: usize,
    pub total_size_mb: u64,
    pub by_category: Vec<CategoryStat>,
}

/// File count and size of one library category.
#[derive(Clone, Debug)]
pub struct CategoryStat {
    pub name: String,
    pub file_count: usize,
    pub size_mb: u64,
}

/// One page of a longer list.
#[derive(Clone, Debug)]
pub struct Paginated<T> {
    pub items: Vec<T>,
    pub total: usize,
    pub page: usize,
    pub per_page: usize,
}

/// The index range `[start, end)` of page `page` of `len` items,
/// `per_page` to a page.
pub open spec fn page_range(len: nat, page: nat, per_page: nat) -> (int, int) {
    let start = if page * per_page <= len {
        page * per_page
    } else {
        len
    };
    let end = if start + per_page <= len {
        start + per_page
    } else {
        len
    };
    (start as int, end as int)
}

impl<T> Paginated<T> {
    /// Page `page` (from 0) of `items`, `per_page` items to a page; `total`
    /// is the number of all items.
    pub fn new(items: Vec<T>, page: usize, per_page: usize) -> (p: Paginated<T>)
        requires
            page * per_page <= usize::MAX,
        ensures
            p.total == items@.len(),
            p.page == page,
            p.per_page == per_page,
            p.items@ == items@.subrange(
                page_range(items@.len(), page as nat, per_page as nat).0,
                page_range(items@.len(), page as nat, per_page as nat).1,
            ),
    {
        let total = items.len();
        let start = page * per_page;
        let mut items = items;
        let ghost all = items@;
        let page_items = if start <= total {
            let mut rest = items.split_off(start);
            rest.truncate(per_page);
            rest
        } else {
            Vec::new()
        };
        proof {
            let (s, e) = page_range(all.len(), page as nat, per_page as nat);
            if start <= total {
                assert(page_items@ =~= all.subrange(s, e));
            } else {
                assert(page_items@ =~= all.subrange(s, e));
            }
        }
        Paginated { items: page_items, total, page, per_page }
    }
}

/// A file in the remote music library.
#[derive(Clone, Debug)]
pub struct LibraryFile {
    pub path: String,
    pub relative_path: String,
    pub size_bytes: u64,
    pub modified: String,
}

/// Frontend toast / notification payload.
#[derive(Clone, Debug)]
pub struct Notification {
    /// "info" | "success" | "warning" | "error"
    pub level: String,
    pub title: String,
    pub message: String,
    pub job_id: Option<String>,
}

/// Queue entry for batching album downloads.
#[derive(Clone, Debug)]
pub struct AlbumQueueItem {
    pub artist: String,
    pub album: String,
    /// Higher means sooner.
    pub priority: i32,
    pub source_playlist_id: Option<String>,
}

/// Pre-flight validation result before starting a job.
#[derive(Clone, Debug)]
pub struct JobValidation {
    pub url_type: String,
    pub spotify_id: Option<String>,
    pub estimated_tracks: Option<usize>,
    pub warnings: Vec<String>,
}

/// A raw sldl log line parsed into structured data.
#[derive(Clone, Debug)]
pub struct LogEntry {
    pub timestamp: Option<String>,
    /// "info" | "progress" | "success" | "error" | "search"
    pub level: String,
    pub message: String,
    pub raw: String,
}

/// Downloaded file metadata.
#[derive(Clone, Debug)]
pub struct DownloadedTrack {
    pub job_id: String,
    pub artist: String,
    pub title: String,
    pub album: String,
    pub format: String,
    pub bitrate: u32,
    pub length_sec: u32,
    pub file_path: String,
    pub downloaded_at: String,
}

/// User preferences of the app (separate from the sldl config).
#[derive(Clone, Debug)]
pub struct UserPreferences {
    pub auto_refresh_interval_ms: u64,
    pub log_tail_lines: usize,
    pub default_output_subdir: String,
    pub confirm_large_playlists: bool,
    pub playlist_threshold: usize,
    pub dark_mode: bool,
    pub notifications_enabled: bool,
}

impl Default for UserPreferences {
    fn default() -> (p: UserPreferences)
        ensures
            p.auto_refresh_interval_ms == 3000,
            p.log_tail_lines == 60,
            p.default_output_subdir@ == "playlists"@,
            p.confirm_large_playlists,
            p.playlist_threshold == 200,
            p.dark_mode,
            p.notifications_enabled,
    {
        UserPreferences {
            auto_refresh_interval_ms: 3000,
            log_tail_lines: 60,
            default_output_subdir: String::from_str("playlists"),
            confirm_large_playlists: true,
            playlist_threshold: 200,
            dark_mode: true,
            notifications_enabled: true,
        }
    }
}

/// Complete app state snapshot for export/import.
#[derive(Clone, Debug)]
pub struct AppStateSnapshot {
    pub config: AppConfig,
    pub preferences: UserPreferences,
    pub jobs: Vec<Job>,
    pub version: String,
    pub exported_at: String,
}

/// The settings a config profile overrides (absent ones stay).
#[derive(Clone, Debug)]
pub struct ProfilePatch {
    pub searches_per_time: Option<u64>,
    pub searches_renew_time: Option<u64>,
    pub fast_search: Option<bool>,
    pub pref_format: Option<String>,
    pub pref_min_bitrate: Option<u64>,
    pub pref_max_bitrate: Option<u64>,
}

/// sldl config profile (for switching between quality presets).
#[derive(Clone, Debug)]
pub struct ConfigProfile {
    pub name: String,
    pub description: String,
    pub config_patch: ProfilePatch,
}

/// One built-in profile.
fn profile(
    name: &str,
    description: &str,
    searches_per_time: u64,
    searches_renew_time: u64,
    fast_search: bool,
    pref_format: &str,
    pref_min_bitrate: u64,
) -> (p: ConfigProfile)
    ensures
        p.name@ == name@,
        p.description@ == description@,
        p.config_patch.searches_per_time == Some(searches_per_time),
        p.config_patch.searches_renew_time == Some(searches_renew_time),
        p.config_patch.fast_search == Some(fast_search),
        p.config_patch.pref_format matches Some(f) && f@ == pref_format@,
        p.config_patch.pref_min_bitrate == Some(pref_min_bitrate),
        p.config_patch.pref_max_bitrate is None,
{
    ConfigProfile {
        name: String::from_str(name),
        description: String::from_str(description),
        config_patch: ProfilePatch {
            searches_per_time: Some(searches_per_time),
            searches_renew_time: Some(searches_renew_time),
            fast_search: Some(fast_search),
            pref_format: Some(String::from_str(pref_format)),
            pref_min_bitrate: Some(pref_min_bitrate),
            pref_max_bitrate: None,
        },
    }
}

/// A built-in profile with the given settings.
pub open spec fn is_profile(
    p: ConfigProfile,
    name: Seq<char>,
    description: Seq<char>,
    searches_per_time: u64,
    searches_renew_time: u64,
    fast_search: bool,
    pref_format: Seq<char>,
    pref_min_bitrate: u64,
) -> bool {
    &&& p.name@ == name
    &&& p.description@ == description
    &&& p.config_patch.searches_per_time == Some(searches_per_time)
    &&& p.config_patch.searches_renew_time == Some(searches_renew_time)
    &&& p.config_patch.fast_search == Some(fast_search)
    &&& p.config_patch.pref_format matches Some(f) && f@ == pref_format
    &&& p.config_patch.pref_min_bitrate == Some(pref_min_bitrate)
    &&& p.config_patch.pref_max_bitrate is None
}

impl ConfigProfile {
    /// The built-in profiles: Conservative, Balanced, Aggressive and
    /// Lossless Only.
    pub fn builtin_profiles() -> (v: Vec<ConfigProfile>)
        ensures
            v@.len() == 4,
            is_profile(
                v@[0],
                "Conservative"@,
                "Slow but safe. Won't trigger bans on massive playlists."@,
                10,
                300,
                false,
                "mp3"@,
                320,
            ),
            is_profile(
                v@[1],
                "Balanced"@,
                "Default. Good for most use cases."@,
                20,
                300,
                false,
                "mp3,flac"@,
                256,
            ),
            is_profile(
                v@[2],
                "Aggressive"@,
                "Fast downloads. Risk of bans on large batches."@,
                34,
                220,
                true,
                "flac,mp3"@,
                0,
            ),
            is_profile(
                v@[3],
                "Lossless Only"@,
                "Only accept FLAC/WAV. Very strict."@,
                20,
                300,
                false,
                "flac,wav"@,
                0,
            ),
    {
        let mut v: Vec<ConfigProfile> = Vec::new();
        v.push(
            profile(
                "Conservative",
                "Slow but safe. Won't trigger bans on massive playlists.",
                10,
                300,
                false,
                "mp3",
                320,
            ),
        );
        v.push(
            profile(
                "Balanced",
                "Default. Good for most use cases.",
                20,
                300,
                false,
                "mp3,flac",
                256,
            ),
        );
        v.push(
            profile(
                "Aggressive",
                "Fast downloads. Risk of bans on large batches.",
                34,
                220,
                true,
                "flac,mp3",
                0,
            ),
        );
        v.push(
            profile(
                "Lossless Only",
                "Only accept FLAC/WAV. Very strict.",
                20,
                300,
                false,
                "flac,wav",
                0,
            ),
        );
        v
    }
}

/// Job completion statistics.
#[derive(Clone, Debug)]
pub struct JobStats {
    pub tracks_total: usize,
    pub tracks_downloaded: usize,
    pub tracks_failed: usize,
    pub tracks_not_found: usize,
    pub total_mb: u64,
    pub elapsed_sec: u64,
}

impl Default for JobStats {
    fn default() -> (s: JobStats)
        ensures
            s.tracks_total == 0 && s.tracks_downloaded == 0 && s.tracks_failed == 0
                && s.tracks_not_found == 0 && s.total_mb == 0 && s.elapsed_sec == 0,
    {
        JobStats {
            tracks_total: 0,
            tracks_downloaded: 0,
            tracks_failed: 0,
            tracks_not_found: 0,
            total_mb: 0,
            elapsed_sec: 0,
        }
    }
}

/// Rate limiter state (shared across all jobs).
#[derive(Clone, Debug)]
pub struct RateLimitState {
    pub searches_available: u32,
    pub last_replenish: String,
    pub ban_until: Option<String>,
}

/// Health check result for the remote host.
#[derive(Clone, Debug)]
pub struct HealthCheck {
    pub ssh_ok: bool,
    pub sldl_binary_ok: bool,
    pub sldl_version: Option<String>,
    /// True if sldl can log in to Soulseek (not banned).
    pub soulseek_login_ok: bool,
    pub disk_space_ok: bool,
    pub spotify_api_ok: bool,
    pub errors: Vec<String>,
}

} // verus!
