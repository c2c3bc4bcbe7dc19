//! The free Cloudflare tunnel: the arguments `cloudflared` is started with,
//! how its log tells the tunnel's URL and readiness, and how often booting
//! it is tried.
use vstd::prelude::*;
use vstd::string::StringExecFns;
use crate::domains::string_views;
use crate::urls::{opt_view, parse_url, url_parse};

verus! {

/// The first match of the regular expression `pattern` in `haystack`, as
/// the `regex` crate finds it: `None` where the pattern does not compile,
/// `Some(None)` where nothing matches.
pub uninterp spec fn regex_find_result(pattern: Seq<char>, haystack: Seq<char>) -> Option<Option<Seq<char>>>;

/// The views of an optional optional string.
pub open spec fn opt_opt_view(o: Option<Option<String>>) -> Option<Option<Seq<char>>> {
    match o {
        Some(Some(s)) => Some(Some(s@)),
        Some(None) => Some(None),
        None => None,
    }
}

/// Compiles `pattern` with `regex::Regex::new` and returns the text of the
/// first match in `haystack` (`Regex::find`, `Match::as_str`). Which text
/// that is is left to the name `regex_find_result`.
#[verifier::external_body]
fn regex_find(pattern: &str, haystack: &str) -> (r: Option<Option<String>>)
    ensures
        opt_opt_view(r) == regex_find_result(pattern@, haystack@),
{
    match regex::Regex::new(pattern) {
        Ok(re) => match re.find(haystack) {
            Some(m) => Some(Some(m.as_str().to_string())),
            None => Some(None),
        },
        Err(_) => None,
    }
}

/// The pattern of a free tunnel's URL in `cloudflared`'s log.
pub open spec fn tunnel_url_pattern() -> Seq<char> {
    "https://[a-zA-Z0-9-]+\\.trycloudflare\\.com"@
}

/// The pattern of the log line that tells the tunnel is connected.
pub open spec fn tunnel_started_pattern() -> Seq<char> {
    "Registered tunnel connection"@
}

/// The URL of a paid tunnel of a session, before parsing.
pub open spec fn paid_tunnel_url_text(session: Seq<char>) -> Seq<char> {
    "https://tunnel-"@ + session + ".mentimeter.dev"@
}

/// The URL found in a log line, if any: for a paid tunnel, always the
/// session's URL; otherwise the first match of the free tunnel's pattern.
/// `Some(x)` means the scan's URL becomes `x`.
pub open spec fn url_in_line(line: Seq<char>, is_paid: bool, session: Seq<char>) -> Option<Option<Seq<char>>> {
    if is_paid {
        Some(url_parse(paid_tunnel_url_text(session)))
    } else {
        match regex_find_result(tunnel_url_pattern(), line) {
            Some(Some(m)) => Some(url_parse(m)),
            _ => None,
        }
    }
}

/// The line tells the tunnel is connected.
pub open spec fn line_tells_started(line: Seq<char>) -> bool {
    regex_find_result(tunnel_started_pattern(), line) matches Some(Some(_))
}

/// What the scan of `cloudflared`'s log has seen so far.
pub struct TunnelLogScan {
    pub url: Option<String>,
    pub found_started: bool,
}

impl TunnelLogScan {
    /// A scan that has seen nothing.
    pub fn new() -> (r: TunnelLogScan)
        ensures
            r.url is None,
            !r.found_started,
    {
        TunnelLogScan { url: None, found_started: false }
    }

    /// Reads one log line. Returns the tunnel's URL once both a URL and the
    /// connection line were seen.
    pub fn scan_line(&mut self, line: &str, is_paid: bool, session_name: &str) -> (r: Option<String>)
        ensures
            opt_view(final(self).url) == match url_in_line(line@, is_paid, session_name@) {
                Some(u) => u,
                None => opt_view(old(self).url),
            },
            final(self).found_started == (old(self).found_started || line_tells_started(line@)),
            opt_view(r) == if final(self).found_started { opt_view(final(self).url) } else { None },
    {
        if is_paid {
            let mut text = String::from_str("https://tunnel-");
            text.append(session_name);
            text.append(".mentimeter.dev");
            self.url = parse_url(text.as_str());
        } else {
            match regex_find("https://[a-zA-Z0-9-]+\\.trycloudflare\\.com", line) {
                Some(Some(m)) => {
                    self.url = parse_url(m.as_str());
                },
                _ => {},
            }
        }
        match regex_find("Registered tunnel connection", line) {
            Some(Some(_)) => {
                self.found_started = true;
            },
            _ => {},
        }
        if self.found_started {
            match &self.url {
                Some(u) => Some(u.clone()),
                None => None,
            }
        } else {
            None
        }
    }
}

/// The arguments `cloudflared` is run with: a paid tunnel runs the
/// session's named tunnel, a free one points at the local server's URL.
pub open spec fn tunnel_args(is_paid: bool, session: Seq<char>, local_url: Seq<char>) -> Seq<Seq<char>> {
    if is_paid {
        seq!["tunnel"@, "run"@, session]
    } else {
        seq!["tunnel"@, "--url"@, local_url]
    }
}

/// The arguments `cloudflared` is run with.
pub fn tunnel_command_args(is_paid: bool, session_name: &str, local_url: &str) -> (r: Vec<String>)
    ensures
        string_views(r@) == tunnel_args(is_paid, session_name@, local_url@),
{
    let mut r: Vec<String> = Vec::new();
    r.push(String::from_str("tunnel"));
    if is_paid {
        r.push(String::from_str("run"));
        r.push(String::from_str(session_name));
    } else {
        r.push(String::from_str("--url"));
        r.push(String::from_str(local_url));
    }
    assert(string_views(r@) =~= tunnel_args(is_paid, session_name@, local_url@));
    r
}

/// Why an attempt to boot the tunnel failed.
pub enum TunnelBootError {
    /// A tunnel that did not come up could not be stopped.
    StopErr(String),
    /// Any other failure, with its message.
    Other(String),
}

/// What follows an attempt to boot the tunnel.
pub enum BootStep {
    /// Booting is over, with the tunnel's URL or the error.
    Done(Result<String, TunnelBootError>),
    /// Tell the user the tunnel is retried, wait a second, try again.
    Retry,
    /// Tell the user the tunnel is retried, then give up with this error.
    GiveUp(TunnelBootError),
}

/// The manager of the free tunnel.
pub struct RealTunnelManager;

/// The message of a failure to stop a tunnel between attempts.
pub open spec fn stop_failure_message(e: Seq<char>) -> Seq<char> {
    "Failed to stop tunnel when retrying tunnel boot: "@ + e
}

impl RealTunnelManager {
    /// Decides what follows attempt number `attempt` (counting from 1):
    /// a URL ends booting; a failure to stop the tunnel ends it at once; any
    /// other failure is retried until three attempts were made.
    pub fn after_attempt(&self, attempt: u32, outcome: Result<String, TunnelBootError>) -> (r: BootStep)
        ensures
            match outcome {
                Ok(u) => r == BootStep::Done(Ok(u)),
                Err(TunnelBootError::StopErr(e)) => r matches BootStep::Done(Err(TunnelBootError::StopErr(m)))
                    && m@ == stop_failure_message(e@),
                Err(e) => if attempt >= 3 { r == BootStep::GiveUp(e) } else { r == BootStep::Retry },
            },
    {
        match outcome {
            Ok(u) => BootStep::Done(Ok(u)),
            Err(TunnelBootError::StopErr(e)) => {
                let mut m = String::from_str("Failed to stop tunnel when retrying tunnel boot: ");
                m.append(e.as_str());
                BootStep::Done(Err(TunnelBootError::StopErr(m)))
            },
            Err(e) => if attempt >= 3 { BootStep::GiveUp(e) } else { BootStep::Retry },
        }
    }
}


/// What the worker hands out for a session's tunnel.
pub struct TunnelData {
    pub account_id: String,
    pub name: String,
    pub url: String,
    pub id: String,
    pub secret: String,
    pub last_started: u64,
}

/// Why a check of the running services failed.
#[derive(PartialEq, Eq, Structural, Clone, Copy)]
pub enum CheckErr {
    LocalNotStarted,
    TunnelNotRunning,
}

impl RealTunnelManager {
    /// The tunnel counts as running while its pid file exists.
    pub fn is_tunnel_running(&self, pid_file_exists: bool) -> (r: Result<(), CheckErr>)
        ensures
            r == if pid_file_exists { Ok::<(), CheckErr>(()) } else { Err(CheckErr::TunnelNotRunning) },
    {
        if pid_file_exists {
            Ok(())
        } else {
            Err(CheckErr::TunnelNotRunning)
        }
    }
}

} // verus!
