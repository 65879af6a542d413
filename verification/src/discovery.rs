//! Album discovery for Associated Album Mode: the listing command run on
//! the remote host and what its output yields.

use vstd::prelude::*;

use crate::config::AppConfig;
use crate::models::AlbumDiscoveryResult;
use crate::services::{escape_for_shell, is_shell_escape_of};
use crate::text::{chars_of, lines, split_lines};

verus! {

/// The per-run config file of a discovery.
pub open spec fn discovery_conf_text() -> Seq<char> {
    "/tmp/sldl-remote-discover.conf"@
}

/// Where the config of a discovery run is written on the remote host.
pub fn discovery_conf_path() -> (r: String)
    ensures
        r@ == discovery_conf_text(),
{
    String::from_str("/tmp/sldl-remote-discover.conf")
}

/// The command that lists the tracks of a playlist (at most 1000 lines).
pub open spec fn discovery_command_text(sldl: Seq<char>, url_escaped: Seq<char>) -> Seq<char> {
    sldl + " '"@ + url_escaped + "' --config '"@ + discovery_conf_text()
        + "' --listen-port 49990 --print tracks-full 2>&1 | head -1000"@
}

/// The listing command for a playlist URL, escaped for the remote shell.
pub fn discovery_command(config: &AppConfig, playlist_url: &str) -> (r: String)
    ensures
        exists|e: Seq<char>|
            #[trigger] is_shell_escape_of(playlist_url@, e) && r@ == discovery_command_text(
                config.sldl_path@,
                e,
            ),
{
    let escaped = escape_for_shell(playlist_url);
    let mut r = config.sldl_path.clone();
    r.append(" '");
    r.append(escaped.as_str());
    r.append("' --config '");
    r.append(discovery_conf_path().as_str());
    r.append("' --listen-port 49990 --print tracks-full 2>&1 | head -1000");
    r
}

/// What a listing yields: one track per line.  The listing names no
/// albums, so none are found yet.
pub fn discovery_result(listing: &str) -> (r: AlbumDiscoveryResult)
    ensures
        r.track_count == lines(listing@).len(),
        r.unique_albums@.len() == 0,
        r.already_have@.len() == 0,
{
    let ls = split_lines(&chars_of(listing));
    AlbumDiscoveryResult { track_count: ls.len(), unique_albums: Vec::new(), already_have: Vec::new() }
}

} // verus!
