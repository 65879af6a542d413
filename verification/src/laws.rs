//! Properties that relate several operations of the library.

use vstd::prelude::*;

use crate::commands::{
    after_deletes, conf_path_of, dir_char, log_path_of, requested_job_type, sanitized,
};
use crate::config::{bool_text, ini_line, sldl_ini_text, AppConfig};
use crate::job::{
    job_type_label, job_type_of, sldl_flag_of, status_active, status_terminal, JobSort, JobStatus,
    JobType, JobView, ProgressView, Ratio,
};
use crate::job_manager::{job_with_ban, job_with_parsed, job_with_status};
use crate::library::relative_to;
use crate::models::page_range;
use crate::progress::progress_of_lines;
use crate::registry::restrict_by;
use crate::ordering::{goes_before, percent_lt, sorted_by};
use crate::services::{ban_of, quoted_body, shell_escaped, shell_safe, sldl_command_text};
use crate::setup::{setup_after, SetupStage};
use crate::text::{
    contains, decimal, lemma_ws_prefix_bounds, lemma_ws_suffix_bounds, starts_with, str_lowercase, ws_prefix,
    ws_suffix,
};

verus! {

/// Reading a job back right after inserting it gives that job, and the
/// other jobs are untouched.
pub proof fn law_get_after_insert(m: Map<Seq<char>, JobView>, j: JobView, other: Seq<char>)
    requires
        other != j.id,
    ensures
        m.insert(j.id, j).dom().contains(j.id),
        m.insert(j.id, j)[j.id] == j,
        m.insert(j.id, j).dom().contains(other) == m.dom().contains(other),
        m.dom().contains(other) ==> m.insert(j.id, j)[other] == m[other],
{
}

/// After a job is removed it can no longer be found, and the other jobs
/// are untouched.
pub proof fn law_get_after_remove(m: Map<Seq<char>, JobView>, id: Seq<char>, other: Seq<char>)
    requires
        other != id,
    ensures
        !m.remove(id).dom().contains(id),
        m.remove(id).dom().contains(other) == m.dom().contains(other),
        m.dom().contains(other) ==> m.remove(id)[other] == m[other],
{
}

/// Clearing finished jobs keeps every active job (so the active count is
/// unchanged), and clearing twice is the same as clearing once.
pub proof fn law_clear_completed_keeps_active(m: Map<Seq<char>, JobView>)
    ensures
        restrict_by(
            restrict_by(m, |j: JobView| !status_terminal(j.status)),
            |j: JobView| status_active(j.status),
        ) == restrict_by(m, |j: JobView| status_active(j.status)),
        restrict_by(
            restrict_by(m, |j: JobView| !status_terminal(j.status)),
            |j: JobView| !status_terminal(j.status),
        ) == restrict_by(m, |j: JobView| !status_terminal(j.status)),
        forall|k: Seq<char>|
            m.dom().contains(k) ==> (restrict_by(m, |j: JobView| !status_terminal(j.status)).dom().contains(k)
                <==> !status_terminal(#[trigger] m[k].status)),
{
    let kept = restrict_by(m, |j: JobView| !status_terminal(j.status));
    assert(restrict_by(kept, |j: JobView| status_active(j.status)) =~= restrict_by(
        m,
        |j: JobView| status_active(j.status),
    ));
    assert(restrict_by(kept, |j: JobView| !status_terminal(j.status)) =~= kept);
}

/// Setting a terminal status records the update time as completion time;
/// other statuses leave the completion time alone.
pub proof fn law_terminal_status_records_completion(j: JobView, s: JobStatus, t: Seq<char>)
    ensures
        status_terminal(s) ==> job_with_status(j, s, t).completed_at == Some(t),
        !status_terminal(s) ==> job_with_status(j, s, t).completed_at == j.completed_at,
        job_with_status(j, s, t).status == s,
        job_with_status(j, s, t).id == j.id,
{
}

/// A job whose tracks are all accounted for (downloaded, failed or not
/// found) is completed when its progress is applied, failures or not.
pub proof fn law_all_tracks_accounted_completes(j: JobView, p: ProgressView, t: Seq<char>)
    requires
        p.total > 0,
        p.downloaded + p.failed + p.not_found >= p.total,
    ensures
        job_with_parsed(j, p, t).status == JobStatus::Completed,
        job_with_parsed(j, p, t).completed_at == Some(t),
        job_with_parsed(j, p, t).total_tracks == Some(p.total),
{
}

/// A playlist URL is a playlist job, whatever other segments it holds.
pub proof fn law_playlist_segment_wins(lower: Seq<char>)
    requires
        contains(lower, "/playlist/"@),
    ensures
        job_type_of(lower) == JobType::Playlist,
{
}

/// Number of lines that begin with `p`.
pub open spec fn count_starting(ls: Seq<Seq<char>>, p: Seq<char>) -> nat
    decreases ls.len(),
{
    if ls.len() == 0 {
        0
    } else {
        count_starting(ls.drop_first(), p) + if starts_with(ls[0], p) {
            1nat
        } else {
            0nat
        }
    }
}

/// The "not found" count of a log is the number of its lines that begin
/// with "Not found:".
pub proof fn law_not_found_counts_lines(ls: Seq<Seq<char>>)
    requires
        ls.len() <= usize::MAX,
    ensures
        progress_of_lines(ls).not_found == count_starting(ls, "Not found:"@),
    decreases ls.len(),
{
    if ls.len() > 0 {
        law_not_found_counts_lines(ls.drop_first());
        crate::progress::lemma_not_found_bound(ls.drop_first());
    }
}

/// Pages tile a list: each page holds at most `per_page` items, page `p`
/// ends where page `p + 1` begins, and the first page begins at 0.
pub proof fn law_pages_tile(len: nat, page: nat, per_page: nat)
    ensures
        0 <= page_range(len, page, per_page).0 <= page_range(len, page, per_page).1 <= len,
        page_range(len, page, per_page).1 - page_range(len, page, per_page).0 <= per_page,
        page_range(len, page, per_page).1 == page_range(len, page + 1, per_page).0,
        page_range(len, 0, per_page).0 == 0,
{
    assert((page + 1) * per_page == page * per_page + per_page) by (nonlinear_arith);
}

/// A sanitized directory name holds none of the characters `/ \ : * ? " < > |`.
pub proof fn law_sanitized_has_no_path_chars(name: Seq<char>, i: int)
    requires
        0 <= i < sanitized(name).len(),
    ensures
        sanitized(name)[i] != '/' && sanitized(name)[i] != '\\' && sanitized(name)[i] != ':'
            && sanitized(name)[i] != '*' && sanitized(name)[i] != '?' && sanitized(name)[i] != '"'
            && sanitized(name)[i] != '<' && sanitized(name)[i] != '>' && sanitized(name)[i] != '|',
{
    let mapped = name.map_values(|c: char| dir_char(c));
    let t = mapped.skip(ws_prefix(mapped) as int);
    lemma_ws_prefix_bounds(mapped);
    lemma_ws_suffix_bounds(t);
    assert(sanitized(name) == t.take(t.len() - ws_suffix(t)));
    assert(sanitized(name)[i] == mapped[i + ws_prefix(mapped)]);
}

/// Deleting a batch of ids leaves none of them in the registry and keeps
/// every other job.
pub proof fn law_batch_delete_removes_all(m: Map<Seq<char>, JobView>, ids: Seq<Seq<char>>, k: Seq<char>)
    ensures
        ids.contains(k) ==> !after_deletes(m, ids).dom().contains(k),
        !ids.contains(k) ==> (after_deletes(m, ids).dom().contains(k) == m.dom().contains(k)),
        !ids.contains(k) && m.dom().contains(k) ==> after_deletes(m, ids)[k] == m[k],
    decreases ids.len(),
{
    if ids.len() > 0 {
        law_batch_delete_removes_all(m, ids.drop_last(), k);
        if ids.contains(k) && k != ids.last() {
            let i = choose|i: int| 0 <= i < ids.len() && ids[i] == k;
            assert(ids.drop_last()[i] == k);
        }
        if !ids.contains(k) {
            assert forall|i: int| 0 <= i < ids.drop_last().len() implies ids.drop_last()[i] != k by {
                assert(ids.drop_last()[i] == ids[i]);
            }
            assert(ids[ids.len() - 1] != k);
        }
    }
}

/// Every job has its own log and config file on the remote host: two jobs
/// with different ids never share either, and no log file is a config file.
pub proof fn law_job_files_are_separate(a: Seq<char>, b: Seq<char>)
    ensures
        log_path_of(a) == log_path_of(b) ==> a == b,
        conf_path_of(a) == conf_path_of(b) ==> a == b,
        log_path_of(a) != conf_path_of(b),
{
    reveal_strlit("/tmp/sldl-remote-");
    reveal_strlit(".log");
    reveal_strlit(".conf");
    let pre = "/tmp/sldl-remote-"@;
    if log_path_of(a) == log_path_of(b) {
        assert(a == log_path_of(a).subrange(pre.len() as int, (pre.len() + a.len()) as int));
        assert(b == log_path_of(b).subrange(pre.len() as int, (pre.len() + b.len()) as int));
    }
    if conf_path_of(a) == conf_path_of(b) {
        assert(a == conf_path_of(a).subrange(pre.len() as int, (pre.len() + a.len()) as int));
        assert(b == conf_path_of(b).subrange(pre.len() as int, (pre.len() + b.len()) as int));
    }
    assert(log_path_of(a).last() == 'g');
    assert(conf_path_of(b).last() == 'f');
}

/// Position of a stage in the installation: every answer moves an
/// unfinished installation forward, so it finishes after at most three
/// commands; a finished one stays finished and asks for nothing.
pub open spec fn stage_rank(s: SetupStage) -> int {
    match s {
        SetupStage::CheckInstalled => 0,
        SetupStage::Download => 1,
        SetupStage::Verify => 2,
        SetupStage::Finished => 3,
    }
}

/// Each answer moves an unfinished installation of sldl strictly forward,
/// it asks for another command exactly when it is not finished, and a
/// finished installation ignores further answers.
pub proof fn law_setup_progresses(
    stage: SetupStage,
    log: Seq<Seq<char>>,
    sldl: Seq<char>,
    o: Result<Seq<char>, Seq<char>>,
)
    ensures
        stage != SetupStage::Finished ==> stage_rank(setup_after(stage, log, sldl, o).0) > stage_rank(stage),
        setup_after(stage, log, sldl, o).2 is Some <==> setup_after(stage, log, sldl, o).0 != SetupStage::Finished,
        stage == SetupStage::Finished ==> setup_after(stage, log, sldl, o) == (stage, log, None::<Seq<char>>),
{
}

/// Restarting a job asks for its own type again (any type but the
/// aggregate one, and an automatic job whose URL still reads as automatic)
/// and for its own output directory when that lies under the library root.
pub proof fn law_restart_keeps_type_and_dir(t: JobType, url: Seq<char>, dir: Seq<char>, root: Seq<char>)
    requires
        t != JobType::Aggregate,
        t == JobType::Auto ==> job_type_of(str_lowercase(url)) == JobType::Auto,
    ensures
        requested_job_type(job_type_label(t), url) == t,
        starts_with(dir, root + "/"@) ==> root + "/"@ + relative_to(dir, root) == dir,
{
    reveal_strlit("auto");
    reveal_strlit("playlist");
    reveal_strlit("album");
    reveal_strlit("artist");
    reveal_strlit("track");
    assert("auto"@.len() == 4 && "playlist"@.len() == 8 && "album"@.len() == 5);
    assert("artist"@.len() == 6 && "track"@.len() == 5 && "track"@[0] != "album"@[0]);
    if starts_with(dir, root + "/"@) {
        let p = root + "/"@;
        assert(dir == p + dir.skip(p.len() as int));
    }
}

/// Polling an unchanged log again changes nothing but the update time:
/// applying the same parsed progress twice is applying it once.
pub proof fn law_progress_reapplied_is_unchanged(j: JobView, p: ProgressView, t1: Seq<char>, t2: Seq<char>)
    ensures
        job_with_parsed(job_with_parsed(j, p, t1), p, t2) == job_with_parsed(j, p, t2),
{
}

/// A job stopped by a ban is neither active (so polling leaves it alone)
/// nor finished (so clearing finished jobs keeps it).
pub proof fn law_banned_job_waits(j: JobView, retry_after_sec: u64, t: Seq<char>)
    ensures
        !status_active(job_with_ban(j, retry_after_sec, t).status),
        !status_terminal(job_with_ban(j, retry_after_sec, t).status),
{
}

/// What a POSIX shell reads from a word made of safe characters,
/// single-quoted runs and backslash-escaped characters; `in_quotes` says
/// whether a single-quoted run is open.  `None` for anything else (an
/// unterminated quote, a trailing backslash, another unquoted character).
pub open spec fn shell_word_value(w: Seq<char>, in_quotes: bool) -> Option<Seq<char>>
    decreases w.len(),
{
    if w.len() == 0 {
        if in_quotes {
            None
        } else {
            Some(Seq::empty())
        }
    } else if in_quotes {
        if w[0] == '\'' {
            shell_word_value(w.drop_first(), false)
        } else {
            match shell_word_value(w.drop_first(), true) {
                Some(v) => Some(seq![w[0]] + v),
                None => None,
            }
        }
    } else if w[0] == '\'' {
        shell_word_value(w.drop_first(), true)
    } else if w[0] == '\\' {
        if w.len() < 2 {
            None
        } else {
            match shell_word_value(w.skip(2), false) {
                Some(v) => Some(seq![w[1]] + v),
                None => None,
            }
        }
    } else if shell_safe(w[0]) {
        match shell_word_value(w.drop_first(), false) {
            Some(v) => Some(seq![w[0]] + v),
            None => None,
        }
    } else {
        None
    }
}

/// The quoted form of one character.
pub open spec fn quoted_piece(c: char) -> Seq<char> {
    if c == '\'' || c == '!' {
        seq!['\'', '\\', c, '\'']
    } else {
        seq![c]
    }
}

proof fn lemma_quoted_body_front(s: Seq<char>)
    requires
        s.len() > 0,
    ensures
        quoted_body(s) == quoted_piece(s[0]) + quoted_body(s.drop_first()),
    decreases s.len(),
{
    if s.len() == 1 {
        assert(s.drop_last() =~= Seq::<char>::empty());
        assert(s.drop_first() =~= Seq::<char>::empty());
        assert(quoted_body(s) =~= quoted_piece(s[0]));
    } else {
        lemma_quoted_body_front(s.drop_last());
        assert(s.drop_last().drop_first() =~= s.drop_first().drop_last());
        assert(s.drop_first().last() == s.last());
        assert(s.drop_last()[0] == s[0]);
        assert(quoted_body(s) =~= quoted_piece(s[0]) + quoted_body(s.drop_first()));
    }
}

proof fn lemma_quoted_body_reads_back(s: Seq<char>)
    ensures
        shell_word_value(quoted_body(s) + seq!['\''], true) == Some(s),
    decreases s.len(),
{
    let w = quoted_body(s) + seq!['\''];
    if s.len() == 0 {
        assert(w =~= seq!['\'']);
        assert(w.drop_first() =~= Seq::<char>::empty());
        assert(shell_word_value(w.drop_first(), false) == Some(Seq::<char>::empty()));
        assert(s =~= Seq::<char>::empty());
    } else {
        lemma_quoted_body_front(s);
        lemma_quoted_body_reads_back(s.drop_first());
        let rest = quoted_body(s.drop_first()) + seq!['\''];
        let c = s[0];
        assert(w =~= quoted_piece(c) + rest);
        assert(shell_word_value(rest, true) == Some(s.drop_first()));
        if c == '\'' || c == '!' {
            let w1 = w.drop_first();
            assert(w1 =~= seq!['\\', c, '\''] + rest);
            let w2 = w1.skip(2);
            assert(w2 =~= seq!['\''] + rest);
            assert(w2.drop_first() =~= rest);
            assert(shell_word_value(w2, false) == Some(s.drop_first()));
            assert(shell_word_value(w1, false) == Some(seq![c] + s.drop_first()));
            assert(shell_word_value(w, true) == shell_word_value(w1, false));
        } else {
            assert(w.drop_first() =~= rest);
            assert(shell_word_value(w, true) == Some(seq![c] + s.drop_first()));
        }
        assert(seq![c] + s.drop_first() =~= s);
    }
}

proof fn lemma_safe_word_reads_back(s: Seq<char>)
    requires
        forall|i: int| 0 <= i < s.len() ==> shell_safe(#[trigger] s[i]),
    ensures
        shell_word_value(s, false) == Some(s),
    decreases s.len(),
{
    if s.len() > 0 {
        assert forall|i: int| 0 <= i < s.drop_first().len() implies shell_safe(
            #[trigger] s.drop_first()[i],
        ) by {
            assert(s.drop_first()[i] == s[i + 1]);
        }
        assert(shell_safe(s[0]));
        lemma_safe_word_reads_back(s.drop_first());
        assert(seq![s[0]] + s.drop_first() =~= s);
    } else {
        assert(s =~= Seq::<char>::empty());
    }
}

/// A POSIX shell reads an argument in its POSIX escaped form back as
/// exactly the original text, whatever characters it holds: escaping
/// leaves no way to end the word early or to run another command.
pub proof fn law_shell_escaped_reads_back(s: Seq<char>)
    ensures
        shell_word_value(shell_escaped(s), false) == Some(s),
{
    if s.len() > 0 && (forall|i: int| 0 <= i < s.len() ==> shell_safe(#[trigger] s[i])) {
        lemma_safe_word_reads_back(s);
    } else {
        lemma_quoted_body_reads_back(s);
        let w = seq!['\''] + quoted_body(s) + seq!['\''];
        assert(w.drop_first() =~= quoted_body(s) + seq!['\'']);
    }
}

/// Applied progress completes a job only when it reports a positive total
/// and every track is downloaded, failed or not found; otherwise the job
/// keeps its status and completion time (a log with no track count yet
/// leaves a running job running).
pub proof fn law_completion_needs_all_tracks(j: JobView, p: ProgressView, t: Seq<char>)
    ensures
        (p.total == 0 || p.downloaded + p.failed + p.not_found < p.total) ==> job_with_parsed(
            j,
            p,
            t,
        ).status == j.status && job_with_parsed(j, p, t).completed_at == j.completed_at,
        (p.total > 0 && p.downloaded + p.failed + p.not_found >= p.total) ==> job_with_parsed(
            j,
            p,
            t,
        ).status == JobStatus::Completed && job_with_parsed(j, p, t).completed_at == Some(t),
{
}

/// Album jobs run sldl with `-a`, artist and aggregate jobs with `-g`, and
/// every other job with no flag.
pub proof fn law_sldl_flags(t: JobType)
    ensures
        (sldl_flag_of(t) == "-g"@) <==> (t == JobType::Artist || t == JobType::Aggregate),
        (sldl_flag_of(t) == "-a"@) <==> (t == JobType::Album),
        (sldl_flag_of(t).len() == 0) <==> (t == JobType::Auto || t == JobType::Playlist || t
            == JobType::Track),
{
    reveal_strlit("-g");
    reveal_strlit("-a");
    reveal_strlit("");
    assert("-g"@.len() == 2 && "-a"@.len() == 2 && "-g"@[1] != "-a"@[1]);
}

/// The command of an artist job (a URL with an `/artist/` segment and no
/// playlist or album segment) passes `-g` right before the URL.
pub proof fn law_artist_command_flag(
    lower_url: Seq<char>,
    sldl: Seq<char>,
    url: Seq<char>,
    conf: Seq<char>,
    port: u16,
    log: Seq<char>,
)
    requires
        contains(lower_url, "/artist/"@),
        !contains(lower_url, "/playlist/"@),
        !contains(lower_url, "/album/"@),
    ensures
        job_type_of(lower_url) == JobType::Artist,
        starts_with(
            sldl_command_text(sldl, sldl_flag_of(job_type_of(lower_url)), url, conf, port, log),
            "nohup '"@ + sldl + "' -g "@ + url,
        ),
{
    reveal_strlit("-g");
    reveal_strlit("' ");
    reveal_strlit(" ");
    reveal_strlit("' -g ");
    let cmd = sldl_command_text(sldl, sldl_flag_of(job_type_of(lower_url)), url, conf, port, log);
    let pre = "nohup '"@ + sldl + "' -g "@ + url;
    assert(sldl_flag_of(JobType::Artist).len() == 2);
    assert(("nohup '"@ + sldl + "' "@ + "-g"@ + " "@ + url) =~= pre);
    assert(cmd.take(pre.len() as int) =~= pre);
}

/// Sorted by progress, a job with a larger completion fraction comes first:
/// of two jobs with known percentages, the earlier one's `part / whole` is
/// at least the later one's.
pub proof fn law_progress_order_highest_first(l: Seq<JobView>, i: int, k: int, x: Ratio, y: Ratio)
    requires
        sorted_by(l, JobSort::Progress),
        0 <= i < k < l.len(),
        l[i].percent_complete == Some(x),
        l[k].percent_complete == Some(y),
        x.whole > 0,
        y.whole > 0,
    ensures
        y.part * x.whole <= x.part * y.whole,
{
    assert(!goes_before(JobSort::Progress, l[k], l[i]));
}

/// Comparing known percentages compares the fractions `part / whole`.
pub proof fn law_percent_compares_fractions(x: Ratio, y: Ratio)
    requires
        x.whole > 0,
        y.whole > 0,
    ensures
        percent_lt(Some(x), Some(y)) <==> x.part * y.whole < y.part * x.whole,
        percent_lt(None, Some(y)) <==> y.part > 0,
{
}

/// Output that mentions a ban, the 30-minute lockout or a rate limit is
/// reported as a ban with an 1800-second wait; the 30-minute lockout gets
/// its own message.  Nothing else is a ban but a closed connection with a
/// timeout.
pub proof fn law_ban_markers(lower: Seq<char>)
    ensures
        (contains(lower, "banned"@) || contains(lower, "30 minutes"@) || contains(
            lower,
            "rate limit"@,
        )) ==> (ban_of(lower) matches Some((_, wait)) && wait == 1800),
        contains(lower, "rate limit"@) && !contains(lower, "30 minutes"@) ==> ban_of(lower) == Some(
            ("Soulseek rate limit / ban detected"@, 1800u64),
        ),
        contains(lower, "30 minutes"@) ==> ban_of(lower) == Some(
            ("Soulseek 30-minute ban detected"@, 1800u64),
        ),
        ban_of(lower) is Some ==> contains(lower, "banned"@) || contains(lower, "30 minutes"@)
            || contains(lower, "rate limit"@) || (contains(
            lower,
            "the underlying tcp connection is closed"@,
        ) && contains(lower, "timeout"@)),
{
}

/// The per-job sldl.conf carries the configured fast-search setting: it
/// ends with `fast-search = true` or `false` as the setting is, followed
/// by the concurrent-jobs line.
pub proof fn law_ini_fast_search(c: AppConfig, output_dir: Seq<char>)
    ensures
        ({
            let t = sldl_ini_text(c, output_dir);
            let tail = "fast-search = "@ + (if c.fast_search {
                "true"@
            } else {
                "false"@
            }) + "\nconcurrent-jobs = "@ + decimal(c.concurrent_jobs as nat) + "\n"@;
            tail.len() <= t.len() && t.skip(t.len() - tail.len()) == tail
        }),
{
    let t = sldl_ini_text(c, output_dir);
    let b = if c.fast_search {
        "true"@
    } else {
        "false"@
    };
    let tail = "fast-search = "@ + b + "\nconcurrent-jobs = "@ + decimal(c.concurrent_jobs as nat)
        + "\n"@;
    reveal_strlit("fast-search");
    reveal_strlit(" = ");
    reveal_strlit("\n");
    reveal_strlit("concurrent-jobs");
    reveal_strlit("fast-search = ");
    reveal_strlit("\nconcurrent-jobs = ");
    let two = ini_line("fast-search"@, bool_text(c.fast_search)) + ini_line(
        "concurrent-jobs"@,
        decimal(c.concurrent_jobs as nat),
    );
    assert(two =~= tail);
    let a = t.take(t.len() - two.len());
    assert(t =~= a + two);
    assert(t.skip(t.len() - tail.len()) =~= tail);
}

/// Two configurations that differ only in fast search give different
/// sldl.conf files.
pub proof fn law_ini_follows_fast_search(c1: AppConfig, c2: AppConfig, output_dir: Seq<char>)
    requires
        c1.fast_search != c2.fast_search,
        c1.soulseek_username == c2.soulseek_username,
        c1.soulseek_password == c2.soulseek_password,
        c1.spotify_id == c2.spotify_id,
        c1.spotify_secret == c2.spotify_secret,
        c1.pref_format == c2.pref_format,
        c1.pref_min_bitrate == c2.pref_min_bitrate,
        c1.pref_max_bitrate == c2.pref_max_bitrate,
        c1.pref_max_samplerate == c2.pref_max_samplerate,
        c1.name_format == c2.name_format,
        c1.max_retries == c2.max_retries,
        c1.skip_not_found == c2.skip_not_found,
        c1.searches_per_time == c2.searches_per_time,
        c1.searches_renew_time == c2.searches_renew_time,
        c1.concurrent_jobs == c2.concurrent_jobs,
    ensures
        sldl_ini_text(c1, output_dir) != sldl_ini_text(c2, output_dir),
{
    law_ini_fast_search(c1, output_dir);
    law_ini_fast_search(c2, output_dir);
    reveal_strlit("true");
    reveal_strlit("false");
    let t1 = sldl_ini_text(c1, output_dir);
    let t2 = sldl_ini_text(c2, output_dir);
    let d = decimal(c1.concurrent_jobs as nat);
    // the tails have the same ending but lengths one apart, so the texts
    // would have different lengths or differ inside the tail
    if t1 == t2 {
        let tail1 = "fast-search = "@ + (if c1.fast_search { "true"@ } else { "false"@ })
            + "\nconcurrent-jobs = "@ + d + "\n"@;
        let tail2 = "fast-search = "@ + (if c2.fast_search { "true"@ } else { "false"@ })
            + "\nconcurrent-jobs = "@ + d + "\n"@;
        let n = t1.len();
        let e = ("\nconcurrent-jobs = "@ + d + "\n"@).len();
        // the character just before the common ending: 'e' in both words
        assert(tail1[tail1.len() - e - 1] == 'e');
        assert(tail2[tail2.len() - e - 1] == 'e');
        // two before the ending: 'u' in "true", 's' in "false"
        assert(t1[n - e - 2] == tail1[tail1.len() - e - 2]);
        assert(t2[n - e - 2] == tail2[tail2.len() - e - 2]);
        assert(false);
    }
}

} // verus!
