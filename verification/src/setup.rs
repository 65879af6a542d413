//! The decisions of the remote-host maintenance commands: what to run on
//! the host to check and install sldl, and what each answer means.

use vstd::prelude::*;

use crate::error::{error_text, AppError, AppResult};
use crate::job::string_views;
use crate::models::HealthCheck;
use crate::remote::{check_sldl_version, soulseek_probe_ok, spotify_probe_ok, version_result};
use crate::text::{
    chars_eq, chars_of, contains, parse_u64, parse_u64_chars, parse_usize, parse_usize_chars, push_chars,
    trim, trim_chars,
};

verus! {

/// The view of the outcome of a remote command: its output, or the text of
/// its error.
pub open spec fn outcome_view(o: AppResult<String>) -> Result<Seq<char>, Seq<char>> {
    match o {
        Ok(s) => Ok(s@),
        Err(e) => Err(error_text(e)),
    }
}

/// The message of a failed connection test.
pub fn connection_failed_message(e: &AppError) -> (r: String)
    ensures
        r@ == "SSH failed: "@ + error_text(*e),
{
    let mut r = String::from_str("SSH failed: ");
    r.append(e.to_string().as_str());
    r
}

/// The command that prints sldl's help.
pub fn help_command(sldl_path: &str) -> (r: String)
    ensures
        r@ == sldl_path@ + " --help"@,
{
    let mut r = String::from_str(sldl_path);
    r.append(" --help");
    r
}

/// The command that answers "ok" when `path` is an executable file.
pub fn binary_check_command(path: &str) -> (r: String)
    ensures
        r@ == "test -x '"@ + path@ + "' && echo ok || echo missing"@,
{
    let mut r = String::from_str("test -x '");
    r.append(path);
    r.append("' && echo ok || echo missing");
    r
}

/// The command that answers "ok" when `path` is a directory.
pub fn dir_check_command(path: &str) -> (r: String)
    ensures
        r@ == "test -d '"@ + path@ + "' && echo ok || echo missing"@,
{
    let mut r = String::from_str("test -d '");
    r.append(path);
    r.append("' && echo ok || echo missing");
    r
}

/// Whether a check answered "ok" (surrounding whitespace aside).
fn answered_ok(out: &str) -> (b: bool)
    ensures
        b == (trim(out@) == "ok"@),
{
    chars_eq(&trim_chars(&chars_of(out)), &chars_of("ok"))
}

/// The report line of the sldl binary check.
pub open spec fn sldl_binary_report_text(path: Seq<char>, o: Result<Seq<char>, Seq<char>>) -> Seq<char> {
    match o {
        Ok(out) => if trim(out) == "ok"@ {
            "✓ sldl binary at "@ + path
        } else {
            "✗ sldl binary NOT FOUND at "@ + path
        },
        Err(e) => "✗ Cannot check sldl: "@ + e,
    }
}

/// Reports the outcome of the sldl binary check.
pub fn sldl_binary_report(sldl_path: &str, outcome: &AppResult<String>) -> (r: String)
    ensures
        r@ == sldl_binary_report_text(sldl_path@, outcome_view(*outcome)),
{
    match outcome {
        Ok(out) => {
            let mut r = if answered_ok(out.as_str()) {
                String::from_str("✓ sldl binary at ")
            } else {
                String::from_str("✗ sldl binary NOT FOUND at ")
            };
            r.append(sldl_path);
            r
        },
        Err(e) => {
            let mut r = String::from_str("✗ Cannot check sldl: ");
            r.append(e.to_string().as_str());
            r
        },
    }
}

/// The report line of the output directory check.
pub open spec fn output_dir_report_text(path: Seq<char>, o: Result<Seq<char>, Seq<char>>) -> Seq<char> {
    match o {
        Ok(out) => if trim(out) == "ok"@ {
            "✓ Output dir at "@ + path
        } else {
            "⚠ Output dir missing at "@ + path + " (will be created)"@
        },
        Err(e) => "✗ Cannot check output dir: "@ + e,
    }
}

/// Reports the outcome of the output directory check.
pub fn output_dir_report(output_path: &str, outcome: &AppResult<String>) -> (r: String)
    ensures
        r@ == output_dir_report_text(output_path@, outcome_view(*outcome)),
{
    match outcome {
        Ok(out) => {
            if answered_ok(out.as_str()) {
                let mut r = String::from_str("✓ Output dir at ");
                r.append(output_path);
                r
            } else {
                let mut r = String::from_str("⚠ Output dir missing at ");
                r.append(output_path);
                r.append(" (will be created)");
                r
            }
        },
        Err(e) => {
            let mut r = String::from_str("✗ Cannot check output dir: ");
            r.append(e.to_string().as_str());
            r
        },
    }
}

/// Reports on the configured SSH key; `key_exists` says whether the key
/// file is there.
pub fn ssh_key_report(key_path: &str, key_exists: bool) -> (r: String)
    ensures
        key_path@.len() == 0 ==> r@ == "ℹ Using default SSH key (agent or ~/.ssh)"@,
        key_path@.len() > 0 && key_exists ==> r@ == "✓ SSH key at "@ + key_path@,
        key_path@.len() > 0 && !key_exists ==> r@ == "✗ SSH key NOT FOUND at "@ + key_path@,
{
    if key_path.is_empty() {
        return String::from_str("ℹ Using default SSH key (agent or ~/.ssh)");
    }
    let mut r = if key_exists {
        String::from_str("✓ SSH key at ")
    } else {
        String::from_str("✗ SSH key NOT FOUND at ")
    };
    r.append(key_path);
    r
}

// ---------------------------------------------------------------------
// Installing sldl
// ---------------------------------------------------------------------

/// How far the installation of sldl on the remote host has come.
#[derive(Clone, Copy, Debug, PartialEq, Eq, Structural)]
pub enum SetupStage {
    /// Waiting for the answer of the version check.
    CheckInstalled,
    /// Waiting for the download and unpacking.
    Download,
    /// Waiting for the version check of the new binary.
    Verify,
    /// Nothing left to do.
    Finished,
}

/// What the caller does next: run a command on the host, or stop.
#[derive(Debug)]
pub enum SetupAction {
    Run(String),
    Done,
}

/// The view of an action: the command to run, if any.
pub open spec fn action_view(a: SetupAction) -> Option<Seq<char>> {
    match a {
        SetupAction::Run(c) => Some(c@),
        SetupAction::Done => None,
    }
}

/// The installation in progress and the log it keeps for the user.
#[derive(Debug)]
pub struct SldlSetup {
    pub stage: SetupStage,
    pub log: Vec<String>,
}

/// `{sldl} --version 2>/dev/null || echo missing`.
pub open spec fn installed_check_text(sldl: Seq<char>) -> Seq<char> {
    sldl + " --version 2>/dev/null || echo missing"@
}

/// Downloads sldl 2.6.0 for Linux x64 and moves it to `sldl`.
pub open spec fn install_text(sldl: Seq<char>) -> Seq<char> {
    "cd /tmp && curl -sL -o sldl.zip 'https://github.com/fiso64/sldl/releases/download/v2.6.0/sldl_linux-x64.zip' && unzip -o sldl.zip && mv sldl '"@
        + sldl + "' && chmod +x '"@ + sldl + "' && rm -f sldl.zip sldl.pdb LICENSE"@
}

/// `{sldl} --version`.
pub open spec fn verify_text(sldl: Seq<char>) -> Seq<char> {
    sldl + " --version"@
}

/// The stage, log and next command after the answer `o` arrived in `stage`.
pub open spec fn setup_after(
    stage: SetupStage,
    log: Seq<Seq<char>>,
    sldl: Seq<char>,
    o: Result<Seq<char>, Seq<char>>,
) -> (SetupStage, Seq<Seq<char>>, Option<Seq<char>>) {
    match stage {
        SetupStage::CheckInstalled => match o {
            Ok(out) if trim(out) != "missing"@ => (
                SetupStage::Finished,
                log.push("sldl already installed: "@ + trim(out)),
                None,
            ),
            _ => (
                SetupStage::Download,
                log.push("sldl not found, attempting install..."@),
                Some(install_text(sldl)),
            ),
        },
        SetupStage::Download => match o {
            Ok(_) => (SetupStage::Verify, log, Some(verify_text(sldl))),
            Err(e) => (SetupStage::Finished, log.push("✗ Install failed: "@ + e), None),
        },
        SetupStage::Verify => match o {
            Ok(v) => (SetupStage::Finished, log.push("✓ Installed: "@ + trim(v)), None),
            Err(e) => (SetupStage::Finished, log.push("✗ Install verification failed: "@ + e), None),
        },
        SetupStage::Finished => (SetupStage::Finished, log, None),
    }
}

impl SldlSetup {
    /// Starts an installation: first ask whether sldl is already there.
    pub fn start(sldl_path: &str) -> (r: (SldlSetup, SetupAction))
        ensures
            r.0.stage == SetupStage::CheckInstalled,
            r.0.log@.len() == 0,
            action_view(r.1) == Some(installed_check_text(sldl_path@)),
    {
        let mut c = String::from_str(sldl_path);
        c.append(" --version 2>/dev/null || echo missing");
        (SldlSetup { stage: SetupStage::CheckInstalled, log: Vec::new() }, SetupAction::Run(c))
    }

    /// Takes the answer of the last command and says what to do next.
    pub fn step(&mut self, sldl_path: &str, outcome: &AppResult<String>) -> (a: SetupAction)
        ensures
            (final(self).stage, string_views(final(self).log@), action_view(a)) == setup_after(
                old(self).stage,
                string_views(old(self).log@),
                sldl_path@,
                outcome_view(*outcome),
            ),
    {
        let ghost log0 = self.log@;
        match self.stage {
            SetupStage::CheckInstalled => {
                let installed: Option<Vec<char>> = match outcome {
                    Ok(out) => {
                        let t = trim_chars(&chars_of(out.as_str()));
                        if chars_eq(&t, &chars_of("missing")) {
                            None
                        } else {
                            Some(t)
                        }
                    },
                    Err(_) => None,
                };
                match installed {
                    Some(t) => {
                        let mut line = String::from_str("sldl already installed: ");
                        push_chars(&mut line, &t);
                        self.log.push(line);
                        self.stage = SetupStage::Finished;
                        assert(string_views(self.log@) =~= string_views(log0).push(line@));
                        SetupAction::Done
                    },
                    None => {
                        let line = String::from_str("sldl not found, attempting install...");
                        self.log.push(line);
                        self.stage = SetupStage::Download;
                        assert(string_views(self.log@) =~= string_views(log0).push(line@));
                        let mut c = String::from_str(
                            "cd /tmp && curl -sL -o sldl.zip 'https://github.com/fiso64/sldl/releases/download/v2.6.0/sldl_linux-x64.zip' && unzip -o sldl.zip && mv sldl '",
                        );
                        c.append(sldl_path);
                        c.append("' && chmod +x '");
                        c.append(sldl_path);
                        c.append("' && rm -f sldl.zip sldl.pdb LICENSE");
                        SetupAction::Run(c)
                    },
                }
            },
            SetupStage::Download => match outcome {
                Ok(_) => {
                    self.stage = SetupStage::Verify;
                    let mut c = String::from_str(sldl_path);
                    c.append(" --version");
                    SetupAction::Run(c)
                },
                Err(e) => {
                    let mut line = String::from_str("✗ Install failed: ");
                    line.append(e.to_string().as_str());
                    self.log.push(line);
                    self.stage = SetupStage::Finished;
                    assert(string_views(self.log@) =~= string_views(log0).push(line@));
                    SetupAction::Done
                },
            },
            SetupStage::Verify => {
                let line = match outcome {
                    Ok(v) => {
                        let mut line = String::from_str("✓ Installed: ");
                        push_chars(&mut line, &trim_chars(&chars_of(v.as_str())));
                        line
                    },
                    Err(e) => {
                        let mut line = String::from_str("✗ Install verification failed: ");
                        line.append(e.to_string().as_str());
                        line
                    },
                };
                self.log.push(line);
                self.stage = SetupStage::Finished;
                assert(string_views(self.log@) =~= string_views(log0).push(line@));
                SetupAction::Done
            },
            SetupStage::Finished => SetupAction::Done,
        }
    }
}

// ---------------------------------------------------------------------
// Health checks
// ---------------------------------------------------------------------

/// The command that checks that sldl can reach Spotify.
pub fn spotify_probe_command(sldl_path: &str) -> (r: String)
    ensures
        r@ == sldl_path@ + " spotify-likes -n 1 --print tracks 2>&1 | head -3"@,
{
    let mut r = String::from_str(sldl_path);
    r.append(" spotify-likes -n 1 --print tracks 2>&1 | head -3");
    r
}

/// The command that checks that sldl can log in to Soulseek.
pub fn soulseek_probe_command(sldl_path: &str) -> (r: String)
    ensures
        r@ == sldl_path@ + " 'The Beatles - Eleanor Rigby' -n 1 --listen-port 49996 2>&1 | head -5"@,
{
    let mut r = String::from_str(sldl_path);
    r.append(" 'The Beatles - Eleanor Rigby' -n 1 --listen-port 49996 2>&1 | head -5");
    r
}

/// The CPU count reported by `nproc` (1 when the answer is no number).
pub fn cpu_count_of(out: &str) -> (n: usize)
    ensures
        n == match parse_usize(trim(out@)) {
            Some(v) => v,
            None => 1,
        },
{
    match parse_usize_chars(&trim_chars(&chars_of(out))) {
        Some(v) => v,
        None => 1,
    }
}

/// The memory in MB reported by `free -m` (0 when the answer is no number).
pub fn memory_mb_of(out: &str) -> (n: u64)
    ensures
        n == match parse_u64(trim(out@)) {
            Some(v) => v,
            None => 0,
        },
{
    match parse_u64_chars(&trim_chars(&chars_of(out))) {
        Some(v) => v,
        None => 0,
    }
}

/// What the sldl version check says: the usable version, or the error to
/// report.
pub open spec fn version_status_of(sldl_path: Seq<char>, o: Result<Seq<char>, Seq<char>>) -> Result<
    Seq<char>,
    Seq<char>,
> {
    match o {
        Ok(v) => version_result(v, sldl_path),
        Err(e) => Err("sldl check failed: "@ + e),
    }
}

/// Judges the answer of the sldl version check (its output, already
/// trimmed, or its error).
pub fn version_status(sldl_path: &str, outcome: AppResult<String>) -> (r: Result<String, String>)
    ensures
        match (r, version_status_of(sldl_path@, outcome_view(outcome))) {
            (Ok(v), Ok(w)) => v@ == w,
            (Err(m), Err(n)) => m@ == n,
            _ => false,
        },
{
    match outcome {
        Ok(v) => check_sldl_version(v, sldl_path),
        Err(e) => {
            let mut m = String::from_str("sldl check failed: ");
            m.append(e.to_string().as_str());
            Err(m)
        },
    }
}

/// The view of an optional outcome.
pub open spec fn opt_outcome(o: Option<AppResult<String>>) -> Option<Result<Seq<char>, Seq<char>>> {
    match o {
        Some(x) => Some(outcome_view(x)),
        None => None,
    }
}

/// The view of the version status.
pub open spec fn opt_status(o: Option<Result<String, String>>) -> Option<Result<Seq<char>, Seq<char>>> {
    match o {
        Some(Ok(v)) => Some(Ok(v@)),
        Some(Err(m)) => Some(Err(m@)),
        None => None,
    }
}

/// The view of the disk check: a low-space warning, nothing, or the error.
pub open spec fn opt_disk(o: Option<Result<Option<String>, AppError>>) -> Option<Result<Option<Seq<char>>, Seq<char>>> {
    match o {
        Some(Ok(Some(w))) => Some(Ok(Some(w@))),
        Some(Ok(None)) => Some(Ok(None)),
        Some(Err(e)) => Some(Err(error_text(e))),
        None => None,
    }
}

/// The Spotify probe ran and printed signs of a working Spotify login.
pub open spec fn spotify_answer_ok(o: Option<Result<Seq<char>, Seq<char>>>) -> bool {
    match o {
        Some(Ok(out)) => contains(out, "Loading Spotify"@) || contains(out, "Downloading"@),
        _ => false,
    }
}

/// The Soulseek probe ran and printed neither a login failure nor a ban.
pub open spec fn soulseek_answer_ok(o: Option<Result<Seq<char>, Seq<char>>>) -> bool {
    match o {
        Some(Ok(out)) => !contains(out, "Login failed"@) && !contains(out, "banned"@),
        _ => false,
    }
}

/// The errors a health check reports, in order: the SSH failure, the sldl
/// version problem, the disk space problem.
pub open spec fn health_errors(
    ssh_ok: bool,
    sldl: Option<Result<Seq<char>, Seq<char>>>,
    disk: Option<Result<Option<Seq<char>>, Seq<char>>>,
) -> Seq<Seq<char>> {
    if !ssh_ok {
        seq!["SSH connection failed"@]
    } else {
        let v: Seq<Seq<char>> = match sldl {
            Some(Err(m)) => seq![m],
            _ => seq![],
        };
        match disk {
            Some(Ok(Some(w))) => v.push(w),
            Some(Err(e)) => v.push("Disk check failed: "@ + e),
            _ => v,
        }
    }
}

/// Assembles a health check from what each probe answered.  `sldl` is the
/// version status, `disk` says whether space is low (with the warning to
/// show); probes that were not run are `None`, and nothing counts as
/// working without an SSH connection.  The Soulseek probe counts only
/// when sldl was found.
pub fn health_report(
    ssh_ok: bool,
    sldl: Option<Result<String, String>>,
    disk: Option<Result<Option<String>, AppError>>,
    spotify: Option<AppResult<String>>,
    soulseek: Option<AppResult<String>>,
) -> (h: HealthCheck)
    ensures
        h.ssh_ok == ssh_ok,
        h.sldl_version matches Some(v) ==> ssh_ok && opt_status(sldl) == Some(Ok::<Seq<char>, Seq<char>>(v@)),
        h.sldl_version is None <==> !(ssh_ok && opt_status(sldl) matches Some(Ok(_))),
        h.sldl_binary_ok == h.sldl_version is Some,
        h.disk_space_ok == (ssh_ok && opt_disk(disk) == Some(Ok::<Option<Seq<char>>, Seq<char>>(None))),
        h.spotify_api_ok == (ssh_ok && spotify_answer_ok(opt_outcome(spotify))),
        h.soulseek_login_ok == (ssh_ok && h.sldl_version is Some && soulseek_answer_ok(
            opt_outcome(soulseek),
        )),
        string_views(h.errors@) == health_errors(ssh_ok, opt_status(sldl), opt_disk(disk)),
{
    let mut errors: Vec<String> = Vec::new();
    if !ssh_ok {
        errors.push(String::from_str("SSH connection failed"));
        assert(string_views(errors@) =~= health_errors(ssh_ok, opt_status(sldl), opt_disk(disk)));
        return HealthCheck {
            ssh_ok,
            sldl_binary_ok: false,
            sldl_version: None,
            soulseek_login_ok: false,
            disk_space_ok: false,
            spotify_api_ok: false,
            errors,
        };
    }
    let sldl_version = match sldl {
        Some(Ok(v)) => Some(v),
        Some(Err(m)) => {
            errors.push(m);
            None
        },
        None => None,
    };
    let ghost after_sldl = errors@;
    let disk_ok = match disk {
        Some(Ok(None)) => true,
        Some(Ok(Some(w))) => {
            errors.push(w);
            false
        },
        Some(Err(e)) => {
            let mut m = String::from_str("Disk check failed: ");
            m.append(e.to_string().as_str());
            errors.push(m);
            false
        },
        None => false,
    };
    assert(string_views(errors@) =~= health_errors(ssh_ok, opt_status(sldl), opt_disk(disk)));
    let spotify_ok = match &spotify {
        Some(Ok(out)) => spotify_probe_ok(out.as_str()),
        _ => false,
    };
    let soulseek_ok = match &soulseek {
        Some(Ok(out)) => sldl_version.is_some() && soulseek_probe_ok(out.as_str()),
        _ => false,
    };
    HealthCheck {
        ssh_ok,
        sldl_binary_ok: sldl_version.is_some(),
        sldl_version,
        soulseek_login_ok: soulseek_ok,
        disk_space_ok: disk_ok,
        spotify_api_ok: spotify_ok,
        errors,
    }
}

} // verus!
