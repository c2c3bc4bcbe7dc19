//! The background services linkup runs beside a session: where each keeps
//! its files, how each is found and stopped, and the configuration text
//! each is started with. Spawning processes, sending signals and touching
//! files are left to the caller, which hands the outcomes back.
pub mod cloudflared;

use vstd::prelude::*;
use vstd::string::StringExecFns;
use crate::domains::string_views;
use crate::text::{chars_of, join, join_spec, str_eq, trim, trim_spec};
use crate::update::{decimal, decimal_string, digits_value, parse_unsigned, parses_within, unsigned_digits};
use crate::urls::{opt_view, parse_url, url_parse};

verus! {

/// The name a background service is found by: its processes carry
/// `LINKUP_SERVICE_ID=<id>` in their environment.
pub struct ServiceId(pub String);

/// The environment entry that marks the processes of a service.
pub open spec fn service_env_entry_spec(id: Seq<char>) -> Seq<char> {
    "LINKUP_SERVICE_ID="@ + id
}

impl ServiceId {
    /// The environment entry that marks the processes of the service.
    pub fn env_entry(&self) -> (r: String)
        ensures
            r@ == service_env_entry_spec(self.0@),
    {
        let mut r = String::from_str("LINKUP_SERVICE_ID=");
        r.append(self.0.as_str());
        r
    }
}

/// A running process: its id and its environment entries.
pub struct ProcessInfo {
    pub pid: u32,
    pub environ: Vec<String>,
}

/// The process carries the environment entry `entry`.
pub open spec fn carries(p: ProcessInfo, entry: Seq<char>) -> bool {
    string_views(p.environ@).contains(entry)
}

fn carries_entry(p: &ProcessInfo, entry: &String) -> (r: bool)
    ensures
        r == carries(*p, entry@),
{
    let mut i: usize = 0;
    while i < p.environ.len()
        invariant
            i <= p.environ@.len(),
            forall|k: int| 0 <= k < i ==> p.environ@[k]@ != entry@,
        decreases p.environ@.len() - i,
    {
        if str_eq(p.environ[i].as_str(), entry.as_str()) {
            assert(string_views(p.environ@)[i as int] == entry@);
            return true;
        }
        i = i + 1;
    }
    assert(!string_views(p.environ@).contains(entry@)) by {
        if string_views(p.environ@).contains(entry@) {
            let k = choose|k: int| 0 <= k < string_views(p.environ@).len() && string_views(p.environ@)[k] == entry@;
            assert(p.environ@[k]@ == entry@);
        }
    }
    false
}

/// The id of the first process, in the order given, that belongs to the
/// service `id`.
pub fn find_service_pid(processes: &[ProcessInfo], id: &ServiceId) -> (r: Option<u32>)
    ensures
        match r {
            Some(pid) => exists|i: int| 0 <= i < processes@.len() && processes@[i].pid == pid
                && carries(processes@[i], service_env_entry_spec(id.0@))
                && forall|k: int| 0 <= k < i ==> !carries(#[trigger] processes@[k], service_env_entry_spec(id.0@)),
            None => forall|k: int| 0 <= k < processes@.len() ==> !carries(#[trigger] processes@[k], service_env_entry_spec(id.0@)),
        },
{
    let entry = id.env_entry();
    let mut i: usize = 0;
    while i < processes.len()
        invariant
            i <= processes@.len(),
            entry@ == service_env_entry_spec(id.0@),
            forall|k: int| 0 <= k < i ==> !carries(#[trigger] processes@[k], entry@),
        decreases processes@.len() - i,
    {
        if carries_entry(&processes[i], &entry) {
            return Some(processes[i].pid);
        }
        i = i + 1;
    }
    None
}

/// Errors of reading a pid file and signalling its process.
#[derive(Debug)]
pub enum PidError {
    NoPidFile(String),
    BadPidFile(String),
    SignalErr(String),
    NoSuchProcess(String),
}

/// The signal a service is stopped with.
#[derive(PartialEq, Eq, Structural, Clone, Copy)]
pub enum StopSignal {
    Terminate,
    Interrupt,
}

/// How a service is stopped: by signalling the process named in its pid
/// file (a file name in the linkup directory).
pub struct PidFileStop {
    pub pid_file: String,
    pub signal: StopSignal,
}

/// The next step of stopping through a pid file.
pub enum StopStep {
    /// Send the signal to this pid, then call `stop_after_signal`.
    Signal(String),
    /// Stopping is over with this result.
    Done(Result<(), PidError>),
}

/// After reading the pid file (its trimmed content, or the error): signal
/// the pid that was read; a missing pid file means there is nothing to stop;
/// any other error ends the stop.
pub fn stop_after_read(read: Result<String, PidError>) -> (r: StopStep)
    ensures
        match read {
            Ok(pid) => r == StopStep::Signal(pid),
            Err(PidError::NoPidFile(_)) => r == StopStep::Done(Ok(())),
            Err(e) => r == StopStep::Done(Err(e)),
        },
{
    match read {
        Ok(pid) => StopStep::Signal(pid),
        Err(PidError::NoPidFile(_)) => StopStep::Done(Ok(())),
        Err(e) => StopStep::Done(Err(e)),
    }
}

/// After signalling: a process that no longer exists counts as stopped.
pub fn stop_after_signal(sent: Result<(), PidError>) -> (r: Result<(), PidError>)
    ensures
        match sent {
            Ok(()) => r == Ok::<(), PidError>(()),
            Err(PidError::NoSuchProcess(_)) => r == Ok::<(), PidError>(()),
            Err(e) => r == Err::<(), PidError>(e),
        },
{
    match sent {
        Ok(()) => Ok(()),
        Err(PidError::NoSuchProcess(_)) => Ok(()),
        Err(e) => Err(e),
    }
}

/// The pid file is removed once stopping succeeded.
pub fn remove_pid_file_after(result: &Result<(), PidError>) -> (r: bool)
    ensures
        r == result is Ok,
{
    result.is_ok()
}

/// The pid a pid file names: its trimmed content read as a `u32`.
pub open spec fn pid_of_content(content: Seq<char>) -> Option<u32> {
    if parses_within(trim_spec(content), 0xffff_ffff) {
        Some(digits_value(unsigned_digits(trim_spec(content))) as u32)
    } else {
        None
    }
}

/// The pid a pid file names, if its content is one.
pub fn pid_from_content(content: &str) -> (r: Option<u32>)
    ensures
        r == pid_of_content(content@),
{
    let t = trim(content);
    let cs = chars_of(t.as_str());
    match parse_unsigned(&cs, 0xffff_ffff) {
        Some(v) => Some(v as u32),
        None => None,
    }
}

/// The pid named by a pid file, where the file was read and the process is
/// among those running.
pub open spec fn running_pid_spec(content: Option<Seq<char>>, running: Seq<u32>) -> Option<u32> {
    match content {
        Some(c) => match pid_of_content(c) {
            Some(p) => if running.contains(p) { Some(p) } else { None },
            None => None,
        },
        None => None,
    }
}

/// The running process a pid file names: `content` is the file's content
/// (`None` where it could not be read), `running` the pids of the running
/// processes.
pub fn running_pid_of(content: Option<&str>, running: &[u32]) -> (r: Option<u32>)
    ensures
        r == running_pid_spec(opt_str_view(content), running@),
{
    match content {
        None => None,
        Some(c) => match pid_from_content(c) {
            None => None,
            Some(p) => {
                let mut i: usize = 0;
                while i < running.len()
                    invariant
                        content == Some(c),
                        pid_of_content(c@) == Some(p),
                        i <= running@.len(),
                        forall|k: int| 0 <= k < i ==> running@[k] != p,
                    decreases running@.len() - i,
                {
                    if running[i] == p {
                        assert(running@.contains(p));
                        return Some(p);
                    }
                    i = i + 1;
                }
                None
            },
        },
    }
}

/// The view of an optional text.
pub open spec fn opt_str_view(o: Option<&str>) -> Option<Seq<char>> {
    match o {
        Some(s) => Some(s@),
        None => None,
    }
}

/// The local linkup server: its log files (names in the linkup directory)
/// and the port it serves HTTP on.
pub struct LocalServer {
    pub stdout_file_name: String,
    pub stderr_file_name: String,
    pub http_port: u16,
}

/// The URL of the local server on `port`, before parsing.
pub open spec fn localhost_url_text(port: u16) -> Seq<char> {
    "http://localhost:"@ + decimal(port as nat)
}

impl LocalServer {
    /// The local server on `http_port`, logging to `localserver-stdout` and
    /// `localserver-stderr`.
    pub fn new(http_port: u16) -> (r: LocalServer)
        ensures
            r.stdout_file_name@ == "localserver-stdout"@,
            r.stderr_file_name@ == "localserver-stderr"@,
            r.http_port == http_port,
    {
        LocalServer {
            stdout_file_name: String::from_str("localserver-stdout"),
            stderr_file_name: String::from_str("localserver-stderr"),
            http_port,
        }
    }

    /// The URL of the local server on `port`, as `url::Url` serializes
    /// `http://localhost:<port>`; `None` where it refuses it.
    pub fn url(port: u16) -> (r: Option<String>)
        ensures
            opt_view(r) == url_parse(localhost_url_text(port)),
    {
        let mut text = String::from_str("http://localhost:");
        text.append(decimal_string(port).as_str());
        parse_url(text.as_str())
    }

    /// The HTTPS port: the HTTP port plus 363 (80 gives 443, 9080 gives
    /// 9443), stopping at `u16::MAX`.
    pub fn https_port(&self) -> (r: u16)
        ensures
            r == if self.http_port + 363 <= u16::MAX { (self.http_port + 363) as u16 } else { u16::MAX },
    {
        self.http_port.saturating_add(363)
    }
}

/// Why Caddy cannot be checked.
#[derive(Debug)]
pub enum CaddyError {
    /// A variable Caddy needs is not set.
    MissingEnvVar(String),
    /// The resolver files could not be read.
    ResolversUnreadable,
}

/// The Caddy reverse proxy: its configuration, log and pid files.
pub struct Caddy {
    pub caddyfile_name: String,
    pub stdout_file_name: String,
    pub stderr_file_name: String,
    pub pidfile_name: String,
}

/// The environment variables Caddy needs, in the order they are checked.
pub open spec fn caddy_env_vars() -> Seq<Seq<char>> {
    seq!["LINKUP_CLOUDFLARE_API_TOKEN"@, "LINKUP_CLOUDFLARE_ACCOUNT_ID"@, "LINKUP_CLOUDFLARE_KV_NAMESPACE_ID"@]
}

/// The site address Caddy serves for a domain: the domain and its subdomains.
pub open spec fn site_address(d: Seq<char>) -> Seq<char> {
    d + ", *."@ + d
}

/// The Caddyfile: global options with the log file and the storage block,
/// then one site for the given addresses, proxied to the local server.
pub open spec fn caddyfile_text(stdout_path: Seq<char>, api_token: Seq<char>, account_id: Seq<char>,
    namespace_id: Seq<char>, addresses: Seq<Seq<char>>, port: u16) -> Seq<char> {
    "\n            {\n                http_port 80\n                https_port 443\n                log {\n                    output file "@
        + stdout_path + "\n                }\n                "@
        + "\n            storage cloudflare_kv {\n                api_token       \""@ + api_token
        + "\"\n                account_id      \""@ + account_id
        + "\"\n                namespace_id    \""@ + namespace_id
        + "\"\n            }\n            "@
        + "\n            }\n\n            "@ + join_spec(addresses, ", "@)
        + " {\n                reverse_proxy localhost:"@ + decimal(port as nat)
        + "\n                tls {\n                    dns cloudflare {env.LINKUP_CLOUDFLARE_API_TOKEN}\n                }\n            }\n            "@
}

impl Caddy {
    /// Caddy with its files `Caddyfile`, `caddy-stdout`, `caddy-stderr` and
    /// `caddy-pid`.
    pub fn new() -> (r: Caddy)
        ensures
            r.caddyfile_name@ == "Caddyfile"@,
            r.stdout_file_name@ == "caddy-stdout"@,
            r.stderr_file_name@ == "caddy-stderr"@,
            r.pidfile_name@ == "caddy-pid"@,
    {
        Caddy {
            caddyfile_name: String::from_str("Caddyfile"),
            stdout_file_name: String::from_str("caddy-stdout"),
            stderr_file_name: String::from_str("caddy-stderr"),
            pidfile_name: String::from_str("caddy-pid"),
        }
    }

    /// Caddy is stopped with SIGTERM through its pid file.
    pub fn stop(&self) -> (r: PidFileStop)
        ensures
            r.pid_file@ == self.pidfile_name@,
            r.signal == StopSignal::Terminate,
    {
        PidFileStop { pid_file: self.pidfile_name.clone(), signal: StopSignal::Terminate }
    }

    /// The pid of the running Caddy: `content` is its pid file's content,
    /// `running` the pids of the running processes.
    pub fn running_pid(&self, content: Option<&str>, running: &[u32]) -> (r: Option<String>)
        ensures
            opt_view(r) == match running_pid_spec(opt_str_view(content), running@) {
                Some(p) => Some(decimal(p as nat)),
                None => None,
            },
    {
        match running_pid_of(content, running) {
            Some(p) => Some(decimal_u32(p)),
            None => None,
        }
    }

    /// Whether Caddy should start: every variable it needs is set (else the
    /// first missing one is the error), it is installed, and local DNS
    /// resolves one of the domains (`resolved`, `None` where the resolvers
    /// could not be read; it is not consulted when Caddy is not installed).
    pub fn should_start(&self, missing_env_var: Option<String>, installed: bool, resolved: Option<bool>) -> (r: Result<bool, CaddyError>)
        ensures
            match missing_env_var {
                Some(v) => r matches Err(CaddyError::MissingEnvVar(m)) && m == v,
                None => if !installed {
                    r matches Ok(false)
                } else {
                    match resolved {
                        Some(b) => r matches Ok(x) && x == b,
                        None => r matches Err(CaddyError::ResolversUnreadable),
                    }
                },
            },
    {
        match missing_env_var {
            Some(v) => Err(CaddyError::MissingEnvVar(v)),
            None => {
                if !installed {
                    Ok(false)
                } else {
                    match resolved {
                        Some(b) => Ok(b),
                        None => Err(CaddyError::ResolversUnreadable),
                    }
                }
            },
        }
    }

    /// The environment variables Caddy needs.
    pub fn required_env_vars() -> (r: Vec<String>)
        ensures
            string_views(r@) == caddy_env_vars(),
    {
        let mut r: Vec<String> = Vec::new();
        r.push(String::from_str("LINKUP_CLOUDFLARE_API_TOKEN"));
        r.push(String::from_str("LINKUP_CLOUDFLARE_ACCOUNT_ID"));
        r.push(String::from_str("LINKUP_CLOUDFLARE_KV_NAMESPACE_ID"));
        assert(string_views(r@) =~= caddy_env_vars());
        r
    }

    /// The site addresses for the domains: each domain with its subdomains.
    pub fn site_addresses(domains: &[String]) -> (r: Vec<String>)
        ensures
            string_views(r@) == string_views(domains@).map_values(|d: Seq<char>| site_address(d)),
    {
        let mut r: Vec<String> = Vec::new();
        let mut i: usize = 0;
        while i < domains.len()
            invariant
                i <= domains@.len(),
                string_views(r@) == string_views(domains@).take(i as int).map_values(|d: Seq<char>| site_address(d)),
            decreases domains@.len() - i,
        {
            let mut a = domains[i].clone();
            a.append(", *.");
            a.append(domains[i].as_str());
            let ghost prev = string_views(r@);
            r.push(a);
            assert(string_views(r@) =~= prev.push(site_address(domains@[i as int]@)));
            assert(string_views(domains@).take(i + 1) =~= string_views(domains@).take(i as int).push(domains@[i as int]@));
            i = i + 1;
        }
        assert(string_views(domains@).take(domains@.len() as int) =~= string_views(domains@));
        r
    }

    /// The Caddyfile for the given site addresses, with the log at
    /// `stdout_path`, the Cloudflare KV storage credentials, and the local
    /// server on `port`.
    pub fn caddyfile(stdout_path: &str, api_token: &str, account_id: &str, namespace_id: &str,
        addresses: &[String], port: u16) -> (r: String)
        ensures
            r@ == caddyfile_text(stdout_path@, api_token@, account_id@, namespace_id@,
                addresses@.map_values(|a: String| a@), port),
    {
        let mut r = String::from_str("\n            {\n                http_port 80\n                https_port 443\n                log {\n                    output file ");
        r.append(stdout_path);
        r.append("\n                }\n                ");
        r.append("\n            storage cloudflare_kv {\n                api_token       \"");
        r.append(api_token);
        r.append("\"\n                account_id      \"");
        r.append(account_id);
        r.append("\"\n                namespace_id    \"");
        r.append(namespace_id);
        r.append("\"\n            }\n            ");
        r.append("\n            }\n\n            ");
        r.append(join(addresses, ", ").as_str());
        r.append(" {\n                reverse_proxy localhost:");
        r.append(decimal_string(port).as_str());
        r.append("\n                tls {\n                    dns cloudflare {env.LINKUP_CLOUDFLARE_API_TOKEN}\n                }\n            }\n            ");
        r
    }
}

/// The decimal text of a `u32`.
pub fn decimal_u32(n: u32) -> (r: String)
    ensures
        r@ == decimal(n as nat),
    decreases n,
{
    if n < 10 {
        decimal_string(n as u16)
    } else {
        let mut r = decimal_u32(n / 10);
        r.append(decimal_string((n % 10) as u16).as_str());
        proof {
            assert(decimal((n % 10) as nat) == decimal(((n % 10) as u16) as nat));
        }
        r
    }
}

/// The name of the first variable that is not set, in the order given;
/// `present[i]` tells whether `names[i]` is set.
pub fn first_missing(names: &Vec<String>, present: &Vec<bool>) -> (r: Option<String>)
    requires
        names@.len() == present@.len(),
    ensures
        match r {
            Some(n) => exists|i: int| 0 <= i < names@.len() && !present@[i] && n@ == names@[i]@
                && forall|k: int| 0 <= k < i ==> #[trigger] present@[k],
            None => forall|k: int| 0 <= k < names@.len() ==> #[trigger] present@[k],
        },
{
    let mut i: usize = 0;
    while i < names.len()
        invariant
            names@.len() == present@.len(),
            i <= names@.len(),
            forall|k: int| 0 <= k < i ==> #[trigger] present@[k],
        decreases names@.len() - i,
    {
        if !present[i] {
            return Some(names[i].clone());
        }
        i = i + 1;
    }
    None
}

/// Some domain has a resolver file of its name.
pub open spec fn any_resolved(domains: Seq<Seq<char>>, resolvers: Seq<Seq<char>>) -> bool {
    exists|i: int| 0 <= i < domains.len() && resolvers.contains(#[trigger] domains[i])
}

fn contains_str(v: &[String], x: &String) -> (r: bool)
    ensures
        r == string_views(v@).contains(x@),
{
    let mut i: usize = 0;
    while i < v.len()
        invariant
            i <= v@.len(),
            forall|k: int| 0 <= k < i ==> v@[k]@ != x@,
        decreases v@.len() - i,
    {
        if str_eq(v[i].as_str(), x.as_str()) {
            assert(string_views(v@)[i as int] == x@);
            return true;
        }
        i = i + 1;
    }
    assert(!string_views(v@).contains(x@)) by {
        if string_views(v@).contains(x@) {
            let k = choose|k: int| 0 <= k < string_views(v@).len() && string_views(v@)[k] == x@;
            assert(v@[k]@ == x@);
        }
    }
    false
}

/// Whether local DNS resolves some of the domains: whether one of them has
/// a resolver file. Caddy and dnsmasq only start then.
pub fn any_domain_resolved(domains: &[String], resolvers: &[String]) -> (r: bool)
    ensures
        r == any_resolved(string_views(domains@), string_views(resolvers@)),
{
    let mut i: usize = 0;
    while i < domains.len()
        invariant
            i <= domains@.len(),
            forall|k: int| 0 <= k < i ==> !string_views(resolvers@).contains(#[trigger] string_views(domains@)[k]),
        decreases domains@.len() - i,
    {
        if contains_str(resolvers, &domains[i]) {
            assert(string_views(resolvers@).contains(string_views(domains@)[i as int]));
            return true;
        }
        i = i + 1;
    }
    false
}

/// The dnsmasq DNS server: its port and its configuration, log and pid
/// files.
pub struct Dnsmasq {
    pub port: u16,
    pub config_file_name: String,
    pub log_file_name: String,
    pub pid_file_name: String,
}

/// The three lines dnsmasq gets for a domain of the session: the session's
/// subdomain resolves locally, over IPv4 and IPv6.
pub open spec fn dnsmasq_domain_lines(session: Seq<char>, d: Seq<char>) -> Seq<char> {
    let host = session + "."@ + d;
    "address=/"@ + host + "/127.0.0.1\naddress=/"@ + host + "/::1\nlocal=/"@ + host + "/\n"@
}

/// The lines of all the domains, in order.
pub open spec fn dnsmasq_domains_text(session: Seq<char>, domains: Seq<Seq<char>>) -> Seq<char>
    decreases domains.len(),
{
    if domains.len() == 0 {
        Seq::empty()
    } else {
        dnsmasq_domains_text(session, domains.drop_last()) + dnsmasq_domain_lines(session, domains.last())
    }
}

/// The dnsmasq configuration file.
pub open spec fn dnsmasq_config_text(session: Seq<char>, domains: Seq<Seq<char>>, port: u16,
    log_path: Seq<char>, pid_path: Seq<char>) -> Seq<char> {
    dnsmasq_domains_text(session, domains) + "\n\nport="@ + decimal(port as nat) + "\nlog-facility="@ + log_path
        + "\npid-file="@ + pid_path + "\n"@
}

impl Dnsmasq {
    /// dnsmasq on port 8053 with its files `dnsmasq-conf`, `dnsmasq-log` and
    /// `dnsmasq-pid`.
    pub fn new() -> (r: Dnsmasq)
        ensures
            r.port == 8053,
            r.config_file_name@ == "dnsmasq-conf"@,
            r.log_file_name@ == "dnsmasq-log"@,
            r.pid_file_name@ == "dnsmasq-pid"@,
    {
        Dnsmasq {
            port: 8053,
            config_file_name: String::from_str("dnsmasq-conf"),
            log_file_name: String::from_str("dnsmasq-log"),
            pid_file_name: String::from_str("dnsmasq-pid"),
        }
    }

    /// dnsmasq is stopped with SIGTERM through its pid file.
    pub fn stop(&self) -> (r: PidFileStop)
        ensures
            r.pid_file@ == self.pid_file_name@,
            r.signal == StopSignal::Terminate,
    {
        PidFileStop { pid_file: self.pid_file_name.clone(), signal: StopSignal::Terminate }
    }

    /// The configuration for the session's domains, with the log and pid
    /// files at the given paths.
    pub fn config(&self, domains: &[String], session_name: &str, log_path: &str, pid_path: &str) -> (r: String)
        ensures
            r@ == dnsmasq_config_text(session_name@, string_views(domains@), self.port, log_path@, pid_path@),
    {
        let mut r = String::new();
        let mut i: usize = 0;
        while i < domains.len()
            invariant
                i <= domains@.len(),
                r@ == dnsmasq_domains_text(session_name@, string_views(domains@).take(i as int)),
            decreases domains@.len() - i,
        {
            let mut host = String::from_str(session_name);
            host.append(".");
            host.append(domains[i].as_str());
            r.append("address=/");
            r.append(host.as_str());
            r.append("/127.0.0.1\naddress=/");
            r.append(host.as_str());
            r.append("/::1\nlocal=/");
            r.append(host.as_str());
            r.append("/\n");
            assert(string_views(domains@).take(i + 1).drop_last() =~= string_views(domains@).take(i as int));
            assert(string_views(domains@).take(i + 1).last() == domains@[i as int]@);
            i = i + 1;
        }
        assert(string_views(domains@).take(domains@.len() as int) =~= string_views(domains@));
        r.append("\n\nport=");
        r.append(decimal_string(self.port).as_str());
        r.append("\nlog-facility=");
        r.append(log_path);
        r.append("\npid-file=");
        r.append(pid_path);
        r.append("\n");
        r
    }
}

/// The local DNS server: its log and pid files.
pub struct LocalDnsServer {
    pub stdout_file_name: String,
    pub stderr_file_name: String,
    pub pidfile_name: String,
}

impl LocalDnsServer {
    /// The local DNS server with its files `localdns-stdout`,
    /// `localdns-stderr` and `localdns-pid`.
    pub fn new() -> (r: LocalDnsServer)
        ensures
            r.stdout_file_name@ == "localdns-stdout"@,
            r.stderr_file_name@ == "localdns-stderr"@,
            r.pidfile_name@ == "localdns-pid"@,
    {
        LocalDnsServer {
            stdout_file_name: String::from_str("localdns-stdout"),
            stderr_file_name: String::from_str("localdns-stderr"),
            pidfile_name: String::from_str("localdns-pid"),
        }
    }

    /// The local DNS server is stopped with an interrupt through its pid file.
    pub fn stop(&self) -> (r: PidFileStop)
        ensures
            r.pid_file@ == self.pidfile_name@,
            r.signal == StopSignal::Interrupt,
    {
        PidFileStop { pid_file: self.pidfile_name.clone(), signal: StopSignal::Interrupt }
    }

    /// The pid of the running server: `content` is its pid file's content,
    /// `running` the pids of the running processes.
    pub fn running_pid(&self, content: Option<&str>, running: &[u32]) -> (r: Option<u32>)
        ensures
            r == running_pid_spec(opt_str_view(content), running@),
    {
        running_pid_of(content, running)
    }

    /// The `--domains` argument the server is started with.
    pub fn domains_argument(domains: &[String]) -> (r: String)
        ensures
            r@ == join_spec(string_views(domains@), ","@),
    {
        join(domains, ",")
    }
}

/// The Cloudflare tunnel: its log and pid files.
pub struct CloudflareTunnel {
    pub stdout_file_name: String,
    pub stderr_file_name: String,
    pub pidfile_name: String,
}

impl CloudflareTunnel {
    /// The tunnel with its files `cloudflared-stdout`, `cloudflared-stderr`
    /// and `cloudflared-pid`.
    pub fn new() -> (r: CloudflareTunnel)
        ensures
            r.stdout_file_name@ == "cloudflared-stdout"@,
            r.stderr_file_name@ == "cloudflared-stderr"@,
            r.pidfile_name@ == "cloudflared-pid"@,
    {
        CloudflareTunnel {
            stdout_file_name: String::from_str("cloudflared-stdout"),
            stderr_file_name: String::from_str("cloudflared-stderr"),
            pidfile_name: String::from_str("cloudflared-pid"),
        }
    }
}


/// The resolver file of a domain.
pub open spec fn resolver_path_spec(domain: Seq<char>) -> Seq<char> {
    "/etc/resolver/"@ + domain
}

/// The resolver file of a domain: `/etc/resolver/<domain>`.
pub fn resolver_path(domain: &str) -> (r: String)
    ensures
        r@ == resolver_path_spec(domain@),
{
    let mut r = String::from_str("/etc/resolver/");
    r.append(domain);
    r
}

/// The shell command that writes a domain's resolver file, sending its
/// queries to the local DNS server on port 8053.
pub fn resolver_install_command(domain: &str) -> (r: String)
    ensures
        r@ == "echo \"nameserver 127.0.0.1\nport 8053\" > "@ + resolver_path_spec(domain@),
{
    let mut r = String::from_str("echo \"nameserver 127.0.0.1\nport 8053\" > ");
    r.append(resolver_path(domain).as_str());
    r
}

} // verus!
