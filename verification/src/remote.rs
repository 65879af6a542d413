//! The remote commands run over SSH, and what their output and failures
//! mean.

use vstd::prelude::*;

use crate::config::{ssh_target_text, AppConfig};
use crate::error::AppError;
use crate::job::string_views;
use crate::services::{ban_of, detect_ban};
use crate::text::{
    chars_of, contains, contains_chars, decimal, decimal_string, push_chars, push_decimal,
    str_lowercase, trim, trim_chars,
};

verus! {

/// Seconds allowed for establishing an SSH connection.
pub const CONNECT_TIMEOUT: u32 = 10;

/// The arguments of `ssh` for running `remote_cmd` with the options of
/// `config`: timeouts, batch mode and keep-alives, the port unless it is
/// 22, the key file if one is set, then the target and the command.
pub open spec fn ssh_args_of(c: AppConfig, remote_cmd: Seq<char>) -> Seq<Seq<char>> {
    let base = seq![
        "-o"@,
        "ConnectTimeout=10"@,
        "-o"@,
        "StrictHostKeyChecking=accept-new"@,
        "-o"@,
        "BatchMode=yes"@,
        "-o"@,
        "ServerAliveInterval=60"@,
        "-o"@,
        "ServerAliveCountMax=3"@,
    ];
    let with_port = if c.ssh_port != 22 {
        base + seq!["-p"@, decimal(c.ssh_port as nat)]
    } else {
        base
    };
    let with_key = if c.ssh_key_path@.len() > 0 {
        with_port + seq!["-i"@, c.ssh_key_path@]
    } else {
        with_port
    };
    with_key + seq![ssh_target_text(c), remote_cmd]
}

/// The `ssh` arguments for running `remote_cmd` under `config`.
pub fn ssh_command_args(config: &AppConfig, remote_cmd: &str) -> (r: Vec<String>)
    ensures
        string_views(r@) == ssh_args_of(*config, remote_cmd@),
{
    let mut a: Vec<String> = Vec::new();
    a.push(String::from_str("-o"));
    let mut t = String::from_str("ConnectTimeout=");
    push_decimal(&mut t, CONNECT_TIMEOUT as u64);
    proof {
        reveal_strlit("ConnectTimeout=");
        reveal_strlit("ConnectTimeout=10");
        assert(decimal(10) =~= seq!['1', '0']) by {
            assert(decimal(1) =~= seq!['1']);
        }
        assert(t@ =~= "ConnectTimeout=10"@);
    }
    a.push(t);
    a.push(String::from_str("-o"));
    a.push(String::from_str("StrictHostKeyChecking=accept-new"));
    a.push(String::from_str("-o"));
    a.push(String::from_str("BatchMode=yes"));
    a.push(String::from_str("-o"));
    a.push(String::from_str("ServerAliveInterval=60"));
    a.push(String::from_str("-o"));
    a.push(String::from_str("ServerAliveCountMax=3"));
    if config.ssh_port != 22 {
        a.push(String::from_str("-p"));
        a.push(decimal_string(config.ssh_port as u64));
    }
    if !config.ssh_key_path.as_str().is_empty() {
        a.push(String::from_str("-i"));
        a.push(config.ssh_key_path.clone());
    }
    a.push(config.ssh_target());
    a.push(String::from_str(remote_cmd));
    assert(string_views(a@) =~= ssh_args_of(*config, remote_cmd@));
    a
}

/// The `ssh` arguments for a host given without its configuration.
pub open spec fn plain_ssh_args_of(host: Seq<char>, remote_cmd: Seq<char>) -> Seq<Seq<char>> {
    seq![
        "-o"@,
        "ConnectTimeout=10"@,
        "-o"@,
        "StrictHostKeyChecking=accept-new"@,
        "-o"@,
        "BatchMode=yes"@,
        host,
        remote_cmd,
    ]
}

/// Minimal `ssh` arguments for running `remote_cmd` on `host`.
pub fn plain_ssh_args(host: &str, remote_cmd: &str) -> (r: Vec<String>)
    ensures
        string_views(r@) == plain_ssh_args_of(host@, remote_cmd@),
{
    let mut a: Vec<String> = Vec::new();
    a.push(String::from_str("-o"));
    a.push(String::from_str("ConnectTimeout=10"));
    a.push(String::from_str("-o"));
    a.push(String::from_str("StrictHostKeyChecking=accept-new"));
    a.push(String::from_str("-o"));
    a.push(String::from_str("BatchMode=yes"));
    a.push(String::from_str(host));
    a.push(String::from_str(remote_cmd));
    assert(string_views(a@) =~= plain_ssh_args_of(host@, remote_cmd@));
    a
}

/// The `ssh` arguments for running `remote_cmd` on `host`: with the
/// options of `config` when `host` is its target or its host, minimal ones
/// otherwise.
pub fn ssh_args_for_host(config: &AppConfig, host: &str, remote_cmd: &str) -> (r: Vec<String>)
    ensures
        (ssh_target_text(*config) == host@ || config.remote_host@ == host@) ==> string_views(r@)
            == ssh_args_of(*config, remote_cmd@),
        !(ssh_target_text(*config) == host@ || config.remote_host@ == host@) ==> string_views(r@)
            == plain_ssh_args_of(host@, remote_cmd@),
{
    let h = String::from_str(host);
    if config.ssh_target() != h && config.remote_host != h {
        plain_ssh_args(host, remote_cmd)
    } else {
        ssh_command_args(config, remote_cmd)
    }
}

/// The error for an `ssh` that exited unsuccessfully: a Soulseek ban when
/// stderr reports one, an SSH failure with the exit status and trimmed
/// stderr otherwise.
pub open spec fn is_ssh_failure(
    e: AppError,
    host: Seq<char>,
    cmd: Seq<char>,
    status: Seq<char>,
    stderr: Seq<char>,
) -> bool {
    match ban_of(str_lowercase(stderr)) {
        Some((msg, _)) => e matches AppError::SoulseekBanned { ip, message } && ip is None
            && message@ == msg,
        None => e matches AppError::Ssh { host: h, cmd: c, cause } && h@ == host && c@ == cmd
            && cause@ == "Exit "@ + status + " — stderr: "@ + trim(stderr),
    }
}

/// The error for an `ssh` run that exited with `status` (as the exit
/// status displays itself) and wrote `stderr`.
pub fn ssh_failure(host: &str, cmd: &str, status: &str, stderr: &str) -> (e: AppError)
    ensures
        is_ssh_failure(e, host@, cmd@, status@, stderr@),
{
    match detect_ban(stderr) {
        Some((msg, _)) => AppError::SoulseekBanned { ip: None, message: msg },
        None => {
            let mut cause = String::from_str("Exit ");
            cause.append(status);
            cause.append(" — stderr: ");
            let t = trim_chars(&chars_of(stderr));
            push_chars(&mut cause, &t);
            AppError::Ssh { host: String::from_str(host), cmd: String::from_str(cmd), cause }
        },
    }
}

/// The error for an `ssh` that could not be started.
pub fn ssh_spawn_failure(host: &str, cmd: &str, detail: &str) -> (e: AppError)
    ensures
        e matches AppError::Ssh { host: h, cmd: c, cause } && h@ == host@ && c@ == cmd@ && cause@
            == "Failed to spawn ssh: "@ + detail@,
{
    let mut cause = String::from_str("Failed to spawn ssh: ");
    cause.append(detail);
    AppError::Ssh { host: String::from_str(host), cmd: String::from_str(cmd), cause }
}

/// A text with every `'` replaced by `'"'"'`, so that it can stand inside
/// single quotes in a shell command.
pub open spec fn single_quote_safe(s: Seq<char>) -> Seq<char>
    decreases s.len(),
{
    if s.len() == 0 {
        seq![]
    } else {
        let rest = single_quote_safe(s.drop_last());
        if s.last() == '\'' {
            rest + "'\"'\"'"@
        } else {
            rest.push(s.last())
        }
    }
}

/// Replaces every `'` by `'"'"'`.
pub fn escape_single_quotes(s: &str) -> (r: String)
    ensures
        r@ == single_quote_safe(s@),
{
    let c = chars_of(s);
    let mut r = String::new();
    let mut i: usize = 0;
    assert(c@.take(0) == Seq::<char>::empty());
    while i < c.len()
        invariant
            i <= c.len(),
            r@ == single_quote_safe(c@.take(i as int)),
        decreases c.len() - i,
    {
        assert(c@.take(i + 1).drop_last() == c@.take(i as int));
        assert(c@.take(i + 1).last() == c@[i as int]);
        if c[i] == '\'' {
            r.append("'\"'\"'");
        } else {
            crate::text::push_char(&mut r, c[i]);
        }
        i = i + 1;
    }
    assert(c@.take(c.len() as int) == c@);
    r
}

/// The command that writes `content` to `remote_path` through a quoted
/// here-document.
pub fn write_file_command(remote_path: &str, content: &str) -> (r: String)
    ensures
        r@ == "cat > '"@ + remote_path@ + "' << 'HEREDOC_EOF'\n"@ + single_quote_safe(content@)
            + "\nHEREDOC_EOF"@,
{
    let safe = escape_single_quotes(content);
    let mut r = String::from_str("cat > '");
    r.append(remote_path);
    r.append("' << 'HEREDOC_EOF'\n");
    r.append(safe.as_str());
    r.append("\nHEREDOC_EOF");
    r
}

/// The command that deletes a remote file.
pub fn delete_file_command(remote_path: &str) -> (r: String)
    ensures
        r@ == "rm -f '"@ + remote_path@ + "'"@,
{
    let mut r = String::from_str("rm -f '");
    r.append(remote_path);
    r.append("'");
    r
}

/// The command that tells whether a process runs ("yes" or "no").
pub fn process_check_command(pid: u32) -> (r: String)
    ensures
        r@ == "kill -0 "@ + decimal(pid as nat) + " 2>/dev/null && echo yes || echo no"@,
{
    let mut r = String::from_str("kill -0 ");
    push_decimal(&mut r, pid as u64);
    r.append(" 2>/dev/null && echo yes || echo no");
    r
}

/// Whether the answer of the process check says the process runs.
pub fn process_running(out: &str) -> (b: bool)
    ensures
        b == (trim(out@) == "yes"@),
{
    let t = trim_chars(&chars_of(out));
    crate::text::chars_eq(&t, &chars_of("yes"))
}

/// The command that sends signal `sig` to a process.
pub fn signal_command(pid: u32, sig: &str) -> (r: String)
    ensures
        r@ == "kill -"@ + sig@ + " "@ + decimal(pid as nat) + " 2>/dev/null || true"@,
{
    let mut r = String::from_str("kill -");
    r.append(sig);
    r.append(" ");
    push_decimal(&mut r, pid as u64);
    r.append(" 2>/dev/null || true");
    r
}

/// The command that prints the last `lines` lines of a log.
pub fn tail_command(log_path: &str, lines: usize) -> (r: String)
    ensures
        r@ == "tail -"@ + decimal(lines as nat) + " '"@ + log_path@ + "'"@,
{
    let mut r = String::from_str("tail -");
    push_decimal(&mut r, lines as u64);
    r.append(" '");
    r.append(log_path);
    r.append("'");
    r
}

/// The command that prints the sldl version.
pub fn version_command(sldl_path: &str) -> (r: String)
    ensures
        r@ == sldl_path@ + " --version 2>&1"@,
{
    let mut r = String::from_str(sldl_path);
    r.append(" --version 2>&1");
    r
}

/// The command that prints total and free space (in GB) of a directory.
pub fn disk_space_command(path: &str) -> (r: String)
    ensures
        r@ == "df -BG '"@ + path@ + "' | tail -1 | awk '{print $2,$4}'"@,
{
    let mut r = String::from_str("df -BG '");
    r.append(path);
    r.append("' | tail -1 | awk '{print $2,$4}'");
    r
}

/// The command that creates the library's category directories.
pub fn ensure_dirs_command(output_path: &str) -> (r: String)
    ensures
        r@ == "mkdir -p "@ + output_path@ + "/playlists "@ + output_path@ + "/albums "@
            + output_path@ + "/artists "@ + output_path@ + "/tracks"@,
{
    let mut r = String::from_str("mkdir -p ");
    r.append(output_path);
    r.append("/playlists ");
    r.append(output_path);
    r.append("/albums ");
    r.append(output_path);
    r.append("/artists ");
    r.append(output_path);
    r.append("/tracks");
    r
}

/// The command that lists the library files below `base`, optionally
/// filtered case-insensitively by `search`.
pub fn list_files_command(base: &str, search: Option<&str>) -> (r: String)
    ensures
        r@ == "find '"@ + base@ + "' -maxdepth 4 -type f "@ + match search {
            Some(s) => " | grep -i '"@ + s@ + "'"@,
            None => Seq::<char>::empty(),
        } + " | sort"@,
{
    let mut r = String::from_str("find '");
    r.append(base);
    r.append("' -maxdepth 4 -type f ");
    match search {
        Some(s) => {
            r.append(" | grep -i '");
            r.append(s);
            r.append("'");
        },
        None => {},
    }
    r.append(" | sort");
    r
}

/// The command that searches the library by file name (at most 200
/// results).
pub fn search_command(output_path: &str, query: &str) -> (r: String)
    ensures
        r@ == "find '"@ + output_path@ + "' -type f -iname '*"@ + single_quote_safe(query@)
            + "*' 2>/dev/null | sort | head -200"@,
{
    let q = escape_single_quotes(query);
    let mut r = String::from_str("find '");
    r.append(output_path);
    r.append("' -type f -iname '*");
    r.append(q.as_str());
    r.append("*' 2>/dev/null | sort | head -200");
    r
}

// ---------------------------------------------------------------------
// Health checks
// ---------------------------------------------------------------------

/// The sldl version a check printed: unusable when empty or "unknown".
pub open spec fn version_result(version: Seq<char>, sldl_path: Seq<char>) -> Result<Seq<char>, Seq<char>> {
    if version.len() == 0 || version == "unknown"@ {
        Err("sldl not found at "@ + sldl_path)
    } else {
        Ok(version)
    }
}

/// Judges the version printed by sldl: the version, or the error to report.
pub fn check_sldl_version(version: String, sldl_path: &str) -> (r: Result<String, String>)
    ensures
        match (r, version_result(version@, sldl_path@)) {
            (Ok(v), Ok(w)) => v@ == w,
            (Err(m), Err(n)) => m@ == n,
            _ => false,
        },
{
    if version.as_str().is_empty() || version == String::from_str("unknown") {
        let mut m = String::from_str("sldl not found at ");
        m.append(sldl_path);
        Err(m)
    } else {
        Ok(version)
    }
}

/// The Spotify probe printed signs of a working Spotify login.
pub fn spotify_probe_ok(out: &str) -> (b: bool)
    ensures
        b == (contains(out@, "Loading Spotify"@) || contains(out@, "Downloading"@)),
{
    let o = chars_of(out);
    contains_chars(&o, &chars_of("Loading Spotify")) || contains_chars(&o, &chars_of("Downloading"))
}

/// The Soulseek probe printed no login failure and no ban.
pub fn soulseek_probe_ok(out: &str) -> (b: bool)
    ensures
        b == (!contains(out@, "Login failed"@) && !contains(out@, "banned"@)),
{
    let o = chars_of(out);
    !contains_chars(&o, &chars_of("Login failed")) && !contains_chars(&o, &chars_of("banned"))
}

} // verus!
