//! Helpers that turn configuration and jobs into remote commands and
//! classify what the remote side reports.

use vstd::prelude::*;

use crate::config::AppConfig;
use crate::job::{sldl_flag_of, Job, JobType};
use crate::text::{
    ascii_lower, chars_of, contains, contains_chars, decimal, index_of, is_ascii_text,
    lemma_index_of_is, push_decimal, slice_chars, str_lowercase, string_of, to_lowercase,
};

verus! {

// ---------------------------------------------------------------------
// Listen ports
// ---------------------------------------------------------------------

/// Calls `rand::thread_rng().gen_range(0..bound)`: a random number below
/// `bound` (which must be positive, or the call panics).
#[verifier::external_body]
fn random_below(bound: u16) -> (r: u16)
    requires
        bound > 0,
    ensures
        r < bound,
{
    rand::Rng::gen_range(&mut rand::thread_rng(), 0..bound)
}

/// A random listen port in `base .. base + 100`.
pub fn allocate_listen_port(base: u16) -> (port: u16)
    requires
        base + 99 <= u16::MAX,
    ensures
        base <= port < base + 100,
{
    base + random_below(100)
}

// ---------------------------------------------------------------------
// Spotify ids and output directories
// ---------------------------------------------------------------------

/// The part of `s` after its last `c` (all of `s` when there is none).
pub open spec fn last_segment(s: Seq<char>, c: char) -> Seq<char>
    decreases s.len(),
{
    if s.len() == 0 {
        s
    } else if s.last() == c {
        Seq::empty()
    } else {
        last_segment(s.drop_last(), c).push(s.last())
    }
}

/// The Spotify id of a URL: its last `/`-separated segment, cut at the
/// first `?`.
pub open spec fn spotify_id_of(url: Seq<char>) -> Seq<char> {
    let seg = last_segment(url, '/');
    seg.take(index_of(seg, '?'))
}

/// The text after the last `c` starts at `j` when `s[j-1]` is the last `c`.
proof fn lemma_last_segment_is(s: Seq<char>, c: char, j: int)
    requires
        0 <= j <= s.len(),
        j > 0 ==> s[j - 1] == c,
        forall|m: int| j <= m < s.len() ==> s[m] != c,
    ensures
        last_segment(s, c) == s.skip(j),
    decreases s.len(),
{
    if s.len() > 0 {
        if j == s.len() {
            assert(s.skip(j) == Seq::<char>::empty());
        } else {
            let p = s.drop_last();
            assert forall|m: int| j <= m < p.len() implies p[m] != c by {
                assert(p[m] == s[m]);
            }
            if j > 0 {
                assert(p[j - 1] == s[j - 1]);
            }
            lemma_last_segment_is(p, c, j);
            assert(p.skip(j).push(s.last()) == s.skip(j));
        }
    }
}

/// Extracts a Spotify ID from any Spotify URL: the text after the last `/`,
/// up to the first `?`.  There always is one (possibly empty).
pub fn extract_spotify_id(url: &str) -> (r: Option<String>)
    ensures
        r matches Some(id) && id@ == spotify_id_of(url@),
{
    let s = chars_of(url);
    let mut j = s.len();
    while j > 0 && s[j - 1] != '/'
        invariant
            j <= s.len(),
            forall|m: int| j <= m < s.len() ==> s@[m] != '/',
        decreases j,
    {
        j = j - 1;
    }
    proof {
        lemma_last_segment_is(s@, '/', j as int);
    }
    let seg = slice_chars(&s, j, s.len());
    let mut k: usize = 0;
    while k < seg.len() && seg[k] != '?'
        invariant
            k <= seg.len(),
            forall|m: int| 0 <= m < k ==> seg@[m] != '?',
        decreases seg.len() - k,
    {
        k = k + 1;
    }
    proof {
        lemma_index_of_is(seg@, '?', k as int);
    }
    let id = slice_chars(&seg, 0, k);
    assert(id@ == seg@.take(k as int));
    Some(string_of(&id))
}

/// The output directory of a job of type `t` under `base`, where `sid` is
/// the Spotify id of its URL.
pub open spec fn output_subdir_of(base: Seq<char>, t: JobType, sid: Seq<char>) -> Seq<char> {
    match t {
        JobType::Playlist => base + "/playlists/"@ + sid,
        JobType::Album => base + "/albums"@,
        JobType::Artist | JobType::Aggregate => base + "/artists"@,
        JobType::Track => base + "/tracks"@,
        JobType::Auto => base + "/downloads/"@ + sid,
    }
}

/// The output directory for a job of type `job_type` downloading `url`.
pub fn build_output_subdir(base: &str, job_type: &JobType, url: &str) -> (r: String)
    ensures
        r@ == output_subdir_of(base@, *job_type, spotify_id_of(url@)),
{
    let sid = match extract_spotify_id(url) {
        Some(s) => s,
        None => String::from_str("unknown"),
    };
    let mut r = String::from_str(base);
    match job_type {
        JobType::Playlist => {
            r.append("/playlists/");
            r.append(sid.as_str());
        },
        JobType::Album => {
            r.append("/albums");
        },
        JobType::Artist | JobType::Aggregate => {
            r.append("/artists");
        },
        JobType::Track => {
            r.append("/tracks");
        },
        JobType::Auto => {
            r.append("/downloads/");
            r.append(sid.as_str());
        },
    }
    r
}

// ---------------------------------------------------------------------
// The remote sldl command
// ---------------------------------------------------------------------

/// Characters that `shell_escape::unix::escape` leaves unquoted: ASCII
/// letters and digits and `- _ = / , . +`.
pub open spec fn shell_safe(c: char) -> bool {
    ('a' <= c && c <= 'z') || ('A' <= c && c <= 'Z') || ('0' <= c && c <= '9') || c == '-' || c
        == '_' || c == '=' || c == '/' || c == ',' || c == '.' || c == '+'
}

/// The inside of a single-quoted shell word holding `s`: each `'` and `!`
/// closes the quotes, is backslash-escaped and reopens them.
pub open spec fn quoted_body(s: Seq<char>) -> Seq<char>
    decreases s.len(),
{
    if s.len() == 0 {
        seq![]
    } else {
        let c = s.last();
        quoted_body(s.drop_last()) + if c == '\'' || c == '!' {
            seq!['\'', '\\', c, '\'']
        } else {
            seq![c]
        }
    }
}

/// `s` as a POSIX shell word: unchanged when it is non-empty and made of
/// safe characters only, single-quoted otherwise.
pub open spec fn shell_escaped(s: Seq<char>) -> Seq<char> {
    if s.len() > 0 && (forall|i: int| 0 <= i < s.len() ==> shell_safe(#[trigger] s[i])) {
        s
    } else {
        seq!['\''] + quoted_body(s) + seq!['\'']
    }
}

/// Characters that make `shell_escape::windows::escape` quote a string.
pub open spec fn cmd_special(c: char) -> bool {
    c == '"' || c == '\t' || c == '\n' || c == ' '
}

/// `n` backslashes.
pub open spec fn backslashes(n: nat) -> Seq<char> {
    Seq::new(n, |i: int| '\\')
}

/// The inside of a double-quoted cmd.exe argument holding `s`, where
/// `pending` backslashes were read just before `s`: backslashes before a
/// `"` or before the closing quote are doubled, and a `"` gets one more.
pub open spec fn cmd_quoted_body(s: Seq<char>, pending: nat) -> Seq<char>
    decreases s.len(),
{
    if s.len() == 0 {
        backslashes(2 * pending)
    } else if s[0] == '\\' {
        cmd_quoted_body(s.drop_first(), pending + 1)
    } else if s[0] == '"' {
        backslashes(2 * pending + 1) + seq!['"'] + cmd_quoted_body(s.drop_first(), 0)
    } else {
        backslashes(pending) + seq![s[0]] + cmd_quoted_body(s.drop_first(), 0)
    }
}

/// `s` as a cmd.exe argument: unchanged when it is non-empty and holds no
/// space, tab, newline or `"`, double-quoted otherwise.
pub open spec fn shell_escaped_windows(s: Seq<char>) -> Seq<char> {
    if s.len() > 0 && (forall|i: int| 0 <= i < s.len() ==> !cmd_special(#[trigger] s[i])) {
        s
    } else {
        seq!['"'] + cmd_quoted_body(s, 0) + seq!['"']
    }
}

/// `e` is `s` escaped for the local platform's shell: the POSIX form or
/// the cmd.exe form.
pub open spec fn is_shell_escape_of(s: Seq<char>, e: Seq<char>) -> bool {
    e == shell_escaped(s) || e == shell_escaped_windows(s)
}

/// Calls `shell_escape::escape`.  On Unix, and elsewhere when the
/// environment variable `MSYSTEM` is set, it returns the POSIX form
/// (`unix::escape`); otherwise the cmd.exe form (`windows::escape`).  Which
/// one depends on the platform and the environment, so only that the result
/// is one of the two is stated.
#[verifier::external_body]
pub(crate) fn escape_for_shell(s: &str) -> (r: String)
    ensures
        is_shell_escape_of(s@, r@),
{
    shell_escape::escape(std::borrow::Cow::Borrowed(s)).into_owned()
}

/// The command that starts sldl in the background on the remote host and
/// prints its PID; `url` is already shell-escaped.
pub open spec fn sldl_command_text(
    sldl_path: Seq<char>,
    flag: Seq<char>,
    url: Seq<char>,
    conf_path: Seq<char>,
    listen_port: u16,
    log_path: Seq<char>,
) -> Seq<char> {
    let head = "nohup '"@ + sldl_path + "' "@;
    let flagged = if flag.len() == 0 {
        head + url
    } else {
        head + flag + " "@ + url
    };
    flagged + " --config '"@ + conf_path + "' --listen-port "@ + decimal(listen_port as nat)
        + " > '"@ + log_path + "' 2>&1 &\necho $!"@
}

/// The remote sldl command for `job`, given its already-escaped URL.
pub fn sldl_command_line(config: &AppConfig, job: &Job, url_escaped: &str) -> (r: String)
    ensures
        r@ == sldl_command_text(
            config.sldl_path@,
            sldl_flag_of(job.job_type),
            url_escaped@,
            job.remote_conf_path@,
            job.listen_port,
            job.log_path@,
        ),
{
    let flag = job.job_type.sldl_flag();
    let mut r = String::from_str("nohup '");
    r.append(config.sldl_path.as_str());
    r.append("' ");
    if flag.is_empty() {
        r.append(url_escaped);
    } else {
        r.append(flag);
        r.append(" ");
        r.append(url_escaped);
    }
    r.append(" --config '");
    r.append(job.remote_conf_path.as_str());
    r.append("' --listen-port ");
    push_decimal(&mut r, job.listen_port as u64);
    r.append(" > '");
    r.append(job.log_path.as_str());
    r.append("' 2>&1 &\necho $!");
    r
}

/// Builds the remote sldl command for a job (its URL shell-escaped).
pub fn build_sldl_command(config: &AppConfig, job: &Job) -> (r: String)
    ensures
        exists|e: Seq<char>|
            #[trigger] is_shell_escape_of(job.url@, e) && r@ == sldl_command_text(
                config.sldl_path@,
                sldl_flag_of(job.job_type),
                e,
                job.remote_conf_path@,
                job.listen_port,
                job.log_path@,
            ),
{
    let escaped = escape_for_shell(job.url.as_str());
    sldl_command_line(config, job, escaped.as_str())
}

// ---------------------------------------------------------------------
// Ban detection
// ---------------------------------------------------------------------

/// What a lowercase stderr text says about a Soulseek ban: a message and
/// the seconds to wait before retrying.
pub open spec fn ban_of(lower: Seq<char>) -> Option<(Seq<char>, u64)> {
    if contains(lower, "banned"@) || contains(lower, "30 minutes"@) || contains(
        lower,
        "rate limit"@,
    ) {
        if contains(lower, "30 minutes"@) {
            Some(("Soulseek 30-minute ban detected"@, 1800))
        } else {
            Some(("Soulseek rate limit / ban detected"@, 1800))
        }
    } else if contains(lower, "the underlying tcp connection is closed"@) && contains(
        lower,
        "timeout"@,
    ) {
        Some(("Possible Soulseek ban (connection closed)"@, 1800))
    } else {
        None
    }
}

/// The view of a ban report.
pub open spec fn ban_view(r: Option<(String, u64)>) -> Option<(Seq<char>, u64)> {
    match r {
        Some((m, s)) => Some((m@, s)),
        None => None,
    }
}

/// Classifies a stderr text that is already in lowercase.
pub fn classify_ban(lower: &str) -> (r: Option<(String, u64)>)
    ensures
        ban_view(r) == ban_of(lower@),
{
    let l = chars_of(lower);
    let banned = contains_chars(&l, &chars_of("banned"));
    let thirty = contains_chars(&l, &chars_of("30 minutes"));
    let rate = contains_chars(&l, &chars_of("rate limit"));
    if banned || thirty || rate {
        let msg = if thirty {
            String::from_str("Soulseek 30-minute ban detected")
        } else {
            String::from_str("Soulseek rate limit / ban detected")
        };
        return Some((msg, 1800));
    }
    if contains_chars(&l, &chars_of("the underlying tcp connection is closed")) && contains_chars(
        &l,
        &chars_of("timeout"),
    ) {
        return Some((String::from_str("Possible Soulseek ban (connection closed)"), 1800));
    }
    None
}

/// Detects a Soulseek ban in SSH / sldl output (case-insensitively).
pub fn detect_ban(stderr: &str) -> (r: Option<(String, u64)>)
    ensures
        ban_view(r) == ban_of(str_lowercase(stderr@)),
        is_ascii_text(stderr@) ==> ban_view(r) == ban_of(ascii_lower(stderr@)),
{
    let lower = to_lowercase(stderr);
    classify_ban(lower.as_str())
}

} // verus!
