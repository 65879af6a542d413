//! The application configuration and the texts derived from it.

use vstd::prelude::*;

use crate::job::string_views;
use crate::text::{decimal, decimal_string};

verus! {

/// The main application configuration, persisted encrypted to disk.
///
/// The struct maps one to one onto the settings form of the UI.
#[derive(Debug)]
pub struct AppConfig {
    /// Remote SSH host (IP or hostname).
    pub remote_host: String,
    /// Remote SSH username.
    pub remote_user: String,
    /// Remote SSH port.
    pub ssh_port: u16,
    /// Path to SSH private key (empty = use default `~/.ssh/id_*`).
    pub ssh_key_path: String,
    /// Absolute path to sldl binary on remote host.
    pub sldl_path: String,
    /// Base output directory on remote host.
    pub output_path: String,
    pub soulseek_username: String,
    pub soulseek_password: String,
    pub spotify_id: String,
    pub spotify_secret: String,
    pub pref_format: String,
    pub pref_min_bitrate: u32,
    pub pref_max_bitrate: u32,
    pub pref_max_samplerate: u32,
    pub searches_per_time: u32,
    pub searches_renew_time: u32,
    pub fast_search: bool,
    pub name_format: String,
    pub max_retries: u32,
    pub skip_not_found: bool,
    pub concurrent_jobs: u32,
    pub listen_port_base: u16,
}

impl Clone for AppConfig {
    fn clone(&self) -> (r: AppConfig)
        ensures
            r == *self,
    {
        AppConfig {
            remote_host: self.remote_host.clone(),
            remote_user: self.remote_user.clone(),
            ssh_port: self.ssh_port,
            ssh_key_path: self.ssh_key_path.clone(),
            sldl_path: self.sldl_path.clone(),
            output_path: self.output_path.clone(),
            soulseek_username: self.soulseek_username.clone(),
            soulseek_password: self.soulseek_password.clone(),
            spotify_id: self.spotify_id.clone(),
            spotify_secret: self.spotify_secret.clone(),
            pref_format: self.pref_format.clone(),
            pref_min_bitrate: self.pref_min_bitrate,
            pref_max_bitrate: self.pref_max_bitrate,
            pref_max_samplerate: self.pref_max_samplerate,
            searches_per_time: self.searches_per_time,
            searches_renew_time: self.searches_renew_time,
            fast_search: self.fast_search,
            name_format: self.name_format.clone(),
            max_retries: self.max_retries,
            skip_not_found: self.skip_not_found,
            concurrent_jobs: self.concurrent_jobs,
            listen_port_base: self.listen_port_base,
        }
    }
}

/// Two configurations hold the same settings.
pub open spec fn same_config(a: AppConfig, b: AppConfig) -> bool {
    &&& a.remote_host@ == b.remote_host@
    &&& a.remote_user@ == b.remote_user@
    &&& a.ssh_port == b.ssh_port
    &&& a.ssh_key_path@ == b.ssh_key_path@
    &&& a.sldl_path@ == b.sldl_path@
    &&& a.output_path@ == b.output_path@
    &&& a.soulseek_username@ == b.soulseek_username@
    &&& a.soulseek_password@ == b.soulseek_password@
    &&& a.spotify_id@ == b.spotify_id@
    &&& a.spotify_secret@ == b.spotify_secret@
    &&& a.pref_format@ == b.pref_format@
    &&& a.pref_min_bitrate == b.pref_min_bitrate
    &&& a.pref_max_bitrate == b.pref_max_bitrate
    &&& a.pref_max_samplerate == b.pref_max_samplerate
    &&& a.searches_per_time == b.searches_per_time
    &&& a.searches_renew_time == b.searches_renew_time
    &&& a.fast_search == b.fast_search
    &&& a.name_format@ == b.name_format@
    &&& a.max_retries == b.max_retries
    &&& a.skip_not_found == b.skip_not_found
    &&& a.concurrent_jobs == b.concurrent_jobs
    &&& a.listen_port_base == b.listen_port_base
}

impl PartialEq for AppConfig {
    fn eq(&self, other: &AppConfig) -> (r: bool) {
        self.remote_host == other.remote_host && self.remote_user == other.remote_user
            && self.ssh_port == other.ssh_port && self.ssh_key_path == other.ssh_key_path
            && self.sldl_path == other.sldl_path && self.output_path == other.output_path
            && self.soulseek_username == other.soulseek_username && self.soulseek_password
            == other.soulseek_password && self.spotify_id == other.spotify_id
            && self.spotify_secret == other.spotify_secret && self.pref_format
            == other.pref_format && self.pref_min_bitrate == other.pref_min_bitrate
            && self.pref_max_bitrate == other.pref_max_bitrate && self.pref_max_samplerate
            == other.pref_max_samplerate && self.searches_per_time == other.searches_per_time
            && self.searches_renew_time == other.searches_renew_time && self.fast_search
            == other.fast_search && self.name_format == other.name_format && self.max_retries
            == other.max_retries && self.skip_not_found == other.skip_not_found
            && self.concurrent_jobs == other.concurrent_jobs && self.listen_port_base
            == other.listen_port_base
    }
}

impl vstd::std_specs::cmp::PartialEqSpecImpl for AppConfig {
    open spec fn obeys_eq_spec() -> bool {
        true
    }

    open spec fn eq_spec(&self, other: &AppConfig) -> bool {
        same_config(*self, *other)
    }
}

/// The factory settings.
pub open spec fn is_default_config(c: AppConfig) -> bool {
    &&& c.remote_host@ == "192.168.70.12"@
    &&& c.remote_user@ == "root"@
    &&& c.ssh_port == 22
    &&& c.ssh_key_path@ == Seq::<char>::empty()
    &&& c.sldl_path@ == "/usr/local/bin/sldl"@
    &&& c.output_path@ == "/media/music"@
    &&& c.soulseek_username@ == Seq::<char>::empty()
    &&& c.soulseek_password@ == Seq::<char>::empty()
    &&& c.spotify_id@ == Seq::<char>::empty()
    &&& c.spotify_secret@ == Seq::<char>::empty()
    &&& c.pref_format@ == "mp3"@
    &&& c.pref_min_bitrate == 320
    &&& c.pref_max_bitrate == 2500
    &&& c.pref_max_samplerate == 48000
    &&& c.searches_per_time == 20
    &&& c.searches_renew_time == 300
    &&& !c.fast_search
    &&& c.name_format@ == "{artist(/)album(/)track(. )title|filename}"@
    &&& c.max_retries == 10
    &&& c.skip_not_found
    &&& c.concurrent_jobs == 20
    &&& c.listen_port_base == 49900
}

fn default_remote_host() -> (r: String)
    ensures
        r@ == "192.168.70.12"@,
{
    String::from_str("192.168.70.12")
}

fn default_remote_user() -> (r: String)
    ensures
        r@ == "root"@,
{
    String::from_str("root")
}

fn default_ssh_port() -> (r: u16)
    ensures
        r == 22,
{
    22
}

fn default_sldl_path() -> (r: String)
    ensures
        r@ == "/usr/local/bin/sldl"@,
{
    String::from_str("/usr/local/bin/sldl")
}

fn default_output_path() -> (r: String)
    ensures
        r@ == "/media/music"@,
{
    String::from_str("/media/music")
}

fn default_pref_format() -> (r: String)
    ensures
        r@ == "mp3"@,
{
    String::from_str("mp3")
}

fn default_pref_min_bitrate() -> (r: u32)
    ensures
        r == 320,
{
    320
}

fn default_pref_max_bitrate() -> (r: u32)
    ensures
        r == 2500,
{
    2500
}

fn default_pref_max_samplerate() -> (r: u32)
    ensures
        r == 48000,
{
    48000
}

fn default_searches_per_time() -> (r: u32)
    ensures
        r == 20,
{
    20
}

fn default_searches_renew_time() -> (r: u32)
    ensures
        r == 300,
{
    300
}

fn default_name_format() -> (r: String)
    ensures
        r@ == "{artist(/)album(/)track(. )title|filename}"@,
{
    String::from_str("{artist(/)album(/)track(. )title|filename}")
}

fn default_max_retries() -> (r: u32)
    ensures
        r == 10,
{
    10
}

fn default_concurrent_jobs() -> (r: u32)
    ensures
        r == 20,
{
    20
}

fn default_listen_port_base() -> (r: u16)
    ensures
        r == 49900,
{
    49900
}

impl Default for AppConfig {
    fn default() -> (c: AppConfig)
        ensures
            is_default_config(c),
    {
        AppConfig {
            remote_host: default_remote_host(),
            remote_user: default_remote_user(),
            ssh_port: default_ssh_port(),
            ssh_key_path: String::new(),
            sldl_path: default_sldl_path(),
            output_path: default_output_path(),
            soulseek_username: String::new(),
            soulseek_password: String::new(),
            spotify_id: String::new(),
            spotify_secret: String::new(),
            pref_format: default_pref_format(),
            pref_min_bitrate: default_pref_min_bitrate(),
            pref_max_bitrate: default_pref_max_bitrate(),
            pref_max_samplerate: default_pref_max_samplerate(),
            searches_per_time: default_searches_per_time(),
            searches_renew_time: default_searches_renew_time(),
            fast_search: false,
            name_format: default_name_format(),
            max_retries: default_max_retries(),
            skip_not_found: true,
            concurrent_jobs: default_concurrent_jobs(),
            listen_port_base: default_listen_port_base(),
        }
    }
}

/// `key = value` followed by a newline.
pub open spec fn ini_line(key: Seq<char>, value: Seq<char>) -> Seq<char> {
    key + " = "@ + value + "\n"@
}

/// `true` or `false`.
pub open spec fn bool_text(b: bool) -> Seq<char> {
    if b {
        "true"@
    } else {
        "false"@
    }
}

/// The per-job sldl.conf for configuration `c` writing to `output_dir`.
pub open spec fn sldl_ini_text(c: AppConfig, output_dir: Seq<char>) -> Seq<char> {
    ini_line("username"@, c.soulseek_username@) + ini_line("password"@, c.soulseek_password@)
        + ini_line("spotify-id"@, c.spotify_id@) + ini_line("spotify-secret"@, c.spotify_secret@)
        + ini_line("path"@, output_dir) + ini_line("pref-format"@, c.pref_format@) + ini_line(
        "pref-min-bitrate"@,
        decimal(c.pref_min_bitrate as nat),
    ) + ini_line("pref-max-bitrate"@, decimal(c.pref_max_bitrate as nat)) + ini_line(
        "pref-max-samplerate"@,
        decimal(c.pref_max_samplerate as nat),
    ) + ini_line("name-format"@, c.name_format@) + ini_line(
        "max-retries"@,
        decimal(c.max_retries as nat),
    ) + ini_line("skip-not-found"@, bool_text(c.skip_not_found)) + ini_line(
        "searches-per-time"@,
        decimal(c.searches_per_time as nat),
    ) + ini_line("searches-renew-time"@, decimal(c.searches_renew_time as nat)) + ini_line(
        "fast-search"@,
        bool_text(c.fast_search),
    ) + ini_line("concurrent-jobs"@, decimal(c.concurrent_jobs as nat))
}

/// The SSH connection string `user@host:port`, such as
/// `root@192.168.70.12:22`.
pub open spec fn ssh_target_text(c: AppConfig) -> Seq<char> {
    c.remote_user@ + "@"@ + c.remote_host@ + ":"@ + decimal(c.ssh_port as nat)
}

/// The ssh options: timeouts and batch mode, then the port unless it is
/// 22, then the key file if one is set.
pub open spec fn ssh_opts_of(c: AppConfig) -> Seq<Seq<char>> {
    let base = seq![
        "-o"@,
        "ConnectTimeout=10"@,
        "-o"@,
        "StrictHostKeyChecking=accept-new"@,
        "-o"@,
        "BatchMode=yes"@,
    ];
    let with_port = if c.ssh_port != 22 {
        base + seq!["-p"@, decimal(c.ssh_port as nat)]
    } else {
        base
    };
    if c.ssh_key_path@.len() > 0 {
        with_port + seq!["-i"@, c.ssh_key_path@]
    } else {
        with_port
    }
}

/// Appends `key = value\n`.
fn push_ini_line(s: &mut String, key: &str, value: &str)
    ensures
        final(s)@ == old(s)@ + ini_line(key@, value@),
{
    let ghost start = s@;
    s.append(key);
    s.append(" = ");
    s.append(value);
    s.append("\n");
    assert(s@ == start + ini_line(key@, value@));
}

/// `"true"` or `"false"`.
fn bool_str(b: bool) -> (r: &'static str)
    ensures
        r@ == bool_text(b),
{
    if b {
        "true"
    } else {
        "false"
    }
}

impl AppConfig {
    /// Builds the per-job sldl.conf INI content.
    pub fn to_sldl_ini(&self, output_dir: &str) -> (r: String)
        ensures
            r@ == sldl_ini_text(*self, output_dir@),
    {
        let mut s = String::new();
        push_ini_line(&mut s, "username", self.soulseek_username.as_str());
        push_ini_line(&mut s, "password", self.soulseek_password.as_str());
        push_ini_line(&mut s, "spotify-id", self.spotify_id.as_str());
        push_ini_line(&mut s, "spotify-secret", self.spotify_secret.as_str());
        push_ini_line(&mut s, "path", output_dir);
        push_ini_line(&mut s, "pref-format", self.pref_format.as_str());
        push_ini_line(
            &mut s,
            "pref-min-bitrate",
            decimal_string(self.pref_min_bitrate as u64).as_str(),
        );
        push_ini_line(
            &mut s,
            "pref-max-bitrate",
            decimal_string(self.pref_max_bitrate as u64).as_str(),
        );
        push_ini_line(
            &mut s,
            "pref-max-samplerate",
            decimal_string(self.pref_max_samplerate as u64).as_str(),
        );
        push_ini_line(&mut s, "name-format", self.name_format.as_str());
        push_ini_line(&mut s, "max-retries", decimal_string(self.max_retries as u64).as_str());
        push_ini_line(&mut s, "skip-not-found", bool_str(self.skip_not_found));
        push_ini_line(
            &mut s,
            "searches-per-time",
            decimal_string(self.searches_per_time as u64).as_str(),
        );
        push_ini_line(
            &mut s,
            "searches-renew-time",
            decimal_string(self.searches_renew_time as u64).as_str(),
        );
        push_ini_line(&mut s, "fast-search", bool_str(self.fast_search));
        push_ini_line(
            &mut s,
            "concurrent-jobs",
            decimal_string(self.concurrent_jobs as u64).as_str(),
        );
        assert(s@ == sldl_ini_text(*self, output_dir@));
        s
    }

    /// SSH connection string like `root@192.168.70.12:22`.
    pub fn ssh_target(&self) -> (r: String)
        ensures
            r@ == ssh_target_text(*self),
    {
        let mut r = self.remote_user.clone();
        r.append("@");
        r.append(self.remote_host.as_str());
        r.append(":");
        r.append(decimal_string(self.ssh_port as u64).as_str());
        r
    }

    /// SSH command options (timeouts, port, key).
    pub fn ssh_opts(&self) -> (r: Vec<String>)
        ensures
            string_views(r@) == ssh_opts_of(*self),
    {
        let mut opts: Vec<String> = Vec::new();
        opts.push(String::from_str("-o"));
        opts.push(String::from_str("ConnectTimeout=10"));
        opts.push(String::from_str("-o"));
        opts.push(String::from_str("StrictHostKeyChecking=accept-new"));
        opts.push(String::from_str("-o"));
        opts.push(String::from_str("BatchMode=yes"));
        if self.ssh_port != 22 {
            opts.push(String::from_str("-p"));
            opts.push(decimal_string(self.ssh_port as u64));
        }
        if !self.ssh_key_path.as_str().is_empty() {
            opts.push(String::from_str("-i"));
            opts.push(self.ssh_key_path.clone());
        }
        assert(string_views(opts@) =~= ssh_opts_of(*self));
        opts
    }
}

/// Quality preset (simplifies the UI for non-technical users).
#[derive(Clone, Copy, Debug, PartialEq, Eq, Structural)]
pub enum QualityPreset {
    Mp3_320,
    LossyFlexible,
    FlacPreferred,
    LosslessOnly,
}

/// The name of a preset shown to the user.
pub open spec fn preset_label(p: QualityPreset) -> Seq<char> {
    match p {
        QualityPreset::Mp3_320 => "MP3 320kbps"@,
        QualityPreset::LossyFlexible => "Lossy (flexible)"@,
        QualityPreset::FlacPreferred => "FLAC preferred"@,
        QualityPreset::LosslessOnly => "Lossless only"@,
    }
}

/// The preferred formats a preset selects.
pub open spec fn preset_format(p: QualityPreset) -> Seq<char> {
    match p {
        QualityPreset::Mp3_320 => "mp3"@,
        QualityPreset::LossyFlexible => "mp3,ogg,m4a,opus,aac"@,
        QualityPreset::FlacPreferred => "flac,mp3"@,
        QualityPreset::LosslessOnly => "flac,wav"@,
    }
}

/// The minimum bitrate a preset selects.
pub open spec fn preset_min_bitrate(p: QualityPreset) -> u32 {
    match p {
        QualityPreset::Mp3_320 => 320,
        QualityPreset::LossyFlexible => 192,
        QualityPreset::FlacPreferred => 0,
        QualityPreset::LosslessOnly => 0,
    }
}

/// The maximum bitrate a preset selects.
pub open spec fn preset_max_bitrate(p: QualityPreset) -> u32 {
    match p {
        QualityPreset::LosslessOnly => 0,
        _ => 2500,
    }
}

/// `b` holds the settings of `a` except, possibly, format and bitrates.
pub open spec fn same_except_quality(a: AppConfig, b: AppConfig) -> bool {
    &&& a.remote_host == b.remote_host
    &&& a.remote_user == b.remote_user
    &&& a.ssh_port == b.ssh_port
    &&& a.ssh_key_path == b.ssh_key_path
    &&& a.sldl_path == b.sldl_path
    &&& a.output_path == b.output_path
    &&& a.soulseek_username == b.soulseek_username
    &&& a.soulseek_password == b.soulseek_password
    &&& a.spotify_id == b.spotify_id
    &&& a.spotify_secret == b.spotify_secret
    &&& a.pref_max_samplerate == b.pref_max_samplerate
    &&& a.searches_per_time == b.searches_per_time
    &&& a.searches_renew_time == b.searches_renew_time
    &&& a.fast_search == b.fast_search
    &&& a.name_format == b.name_format
    &&& a.max_retries == b.max_retries
    &&& a.skip_not_found == b.skip_not_found
    &&& a.concurrent_jobs == b.concurrent_jobs
    &&& a.listen_port_base == b.listen_port_base
}

/// `c` carries the quality settings of preset `p`.
pub open spec fn has_preset(c: AppConfig, p: QualityPreset) -> bool {
    &&& c.pref_format@ == preset_format(p)
    &&& c.pref_min_bitrate == preset_min_bitrate(p)
    &&& c.pref_max_bitrate == preset_max_bitrate(p)
}

impl QualityPreset {
    /// The name of this preset shown to the user.
    pub fn label(&self) -> (r: &'static str)
        ensures
            r@ == preset_label(*self),
    {
        match self {
            QualityPreset::Mp3_320 => "MP3 320kbps",
            QualityPreset::LossyFlexible => "Lossy (flexible)",
            QualityPreset::FlacPreferred => "FLAC preferred",
            QualityPreset::LosslessOnly => "Lossless only",
        }
    }

    /// Sets the preferred formats and bitrate range of the preset; every
    /// other setting stays.
    pub fn apply(&self, config: &mut AppConfig)
        ensures
            has_preset(*final(config), *self),
            same_except_quality(*old(config), *final(config)),
    {
        match self {
            QualityPreset::Mp3_320 => {
                config.pref_format = String::from_str("mp3");
                config.pref_min_bitrate = 320;
                config.pref_max_bitrate = 2500;
            },
            QualityPreset::LossyFlexible => {
                config.pref_format = String::from_str("mp3,ogg,m4a,opus,aac");
                config.pref_min_bitrate = 192;
                config.pref_max_bitrate = 2500;
            },
            QualityPreset::FlacPreferred => {
                config.pref_format = String::from_str("flac,mp3");
                config.pref_min_bitrate = 0;
                config.pref_max_bitrate = 2500;
            },
            QualityPreset::LosslessOnly => {
                config.pref_format = String::from_str("flac,wav");
                config.pref_min_bitrate = 0;
                config.pref_max_bitrate = 0;
            },
        }
    }
}

/// Applying a preset twice is the same as applying it once, and applying
/// any preset after another leaves only the last one's quality settings.
pub proof fn law_preset_apply_last_wins(a: AppConfig, b: AppConfig, c: AppConfig, p: QualityPreset, q: QualityPreset)
    requires
        has_preset(b, p),
        same_except_quality(a, b),
        has_preset(c, q),
        same_except_quality(b, c),
    ensures
        has_preset(c, q),
        same_except_quality(a, c),
        p == q ==> c.pref_format@ == b.pref_format@ && c.pref_min_bitrate == b.pref_min_bitrate
            && c.pref_max_bitrate == b.pref_max_bitrate,
{
}

} // verus!
