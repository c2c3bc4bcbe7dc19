//! The `health` report: what is known of the system, the session, the
//! background services, the environment and the linkup directory, and the
//! text that shows it. Gathering the facts and colouring the text are left
//! to the caller.
use vstd::prelude::*;
use vstd::string::StringExecFns;
use crate::domains::string_views;
use crate::text::{join, join_spec, str_eq};

verus! {

/// The operating system.
pub struct SystemInfo {
    pub os_name: String,
    pub os_version: String,
}

/// The session of the state file.
pub struct Session {
    pub name: String,
}

/// Which Cloudflare variables are set.
pub struct EnvironmentVariables {
    pub cf_api_token: bool,
    pub cf_zone_id: bool,
    pub cf_account_id: bool,
}

/// The pids of the running background services.
pub struct BackgroundServices {
    pub caddy_pids: Vec<String>,
    pub dnsmasq_pids: Vec<String>,
    pub cloudflared_pids: Vec<String>,
}

/// A running process: its pid and its name.
pub struct NamedProcess {
    pub pid: String,
    pub name: String,
}

/// The pids of the processes called `name`, in the order given.
pub open spec fn pids_named(processes: Seq<NamedProcess>, name: Seq<char>) -> Seq<Seq<char>> {
    processes.filter(named(name)).map_values(|p: NamedProcess| p.pid@)
}

/// The process is called `name`.
pub open spec fn named(name: Seq<char>) -> spec_fn(NamedProcess) -> bool {
    |p: NamedProcess| p.name@ == name
}

proof fn lemma_pids_named_push(s: Seq<NamedProcess>, p: NamedProcess, name: Seq<char>)
    ensures
        pids_named(s.push(p), name) == if p.name@ == name {
            pids_named(s, name).push(p.pid@)
        } else {
            pids_named(s, name)
        },
{
    s.lemma_filter_push(p, named(name));
    if p.name@ == name {
        assert(s.push(p).filter(named(name)) == s.filter(named(name)).push(p));
        assert(pids_named(s.push(p), name) =~= pids_named(s, name).push(p.pid@));
    } else {
        assert(s.push(p).filter(named(name)) == s.filter(named(name)));
    }
}

/// The linkup directory and the files in it.
pub struct LinkupDir {
    pub location: String,
    pub content: Vec<String>,
}

/// Everything the report shows.
pub struct Health {
    pub system: SystemInfo,
    pub session: Session,
    pub environment_variables: EnvironmentVariables,
    pub background_services: BackgroundServices,
    pub linkup_dir: LinkupDir,
}

impl BackgroundServices {
    /// Sorts the running processes by name: `dnsmasq`, `caddy` and
    /// `cloudflared` are the background services.
    pub fn from_processes(processes: &[NamedProcess]) -> (r: BackgroundServices)
        ensures
            string_views(r.caddy_pids@) == pids_named(processes@, "caddy"@),
            string_views(r.dnsmasq_pids@) == pids_named(processes@, "dnsmasq"@),
            string_views(r.cloudflared_pids@) == pids_named(processes@, "cloudflared"@),
    {
        let mut caddy: Vec<String> = Vec::new();
        let mut dnsmasq: Vec<String> = Vec::new();
        let mut cloudflared: Vec<String> = Vec::new();
        let mut i: usize = 0;
        while i < processes.len()
            invariant
                i <= processes@.len(),
                string_views(caddy@) == pids_named(processes@.take(i as int), "caddy"@),
                string_views(dnsmasq@) == pids_named(processes@.take(i as int), "dnsmasq"@),
                string_views(cloudflared@) == pids_named(processes@.take(i as int), "cloudflared"@),
            decreases processes@.len() - i,
        {
            proof {
                reveal_strlit("dnsmasq");
                reveal_strlit("caddy");
                reveal_strlit("cloudflared");
                assert("dnsmasq"@.len() != "caddy"@.len());
                assert("dnsmasq"@.len() != "cloudflared"@.len());
                assert("caddy"@.len() != "cloudflared"@.len());
            }
            let p = &processes[i];
            let ghost before = processes@.take(i as int);
            assert(processes@.take(i + 1) =~= before.push(*p));
            proof {
                lemma_pids_named_push(before, *p, "caddy"@);
                lemma_pids_named_push(before, *p, "dnsmasq"@);
                lemma_pids_named_push(before, *p, "cloudflared"@);
            }
            if str_eq(p.name.as_str(), "dnsmasq") {
                let ghost prev = string_views(dnsmasq@);
                dnsmasq.push(p.pid.clone());
                assert(string_views(dnsmasq@) =~= prev.push(p.pid@));
            } else if str_eq(p.name.as_str(), "caddy") {
                let ghost prev = string_views(caddy@);
                caddy.push(p.pid.clone());
                assert(string_views(caddy@) =~= prev.push(p.pid@));
            } else if str_eq(p.name.as_str(), "cloudflared") {
                let ghost prev = string_views(cloudflared@);
                cloudflared.push(p.pid.clone());
                assert(string_views(cloudflared@) =~= prev.push(p.pid@));
            }
            i = i + 1;
        }
        assert(processes@.take(processes@.len() as int) =~= processes@);
        BackgroundServices { caddy_pids: caddy, dnsmasq_pids: dnsmasq, cloudflared_pids: cloudflared }
    }
}

impl Health {
    /// The report of the gathered facts.
    pub fn load(system: SystemInfo, session: Session, environment_variables: EnvironmentVariables,
        background_services: BackgroundServices, linkup_dir: LinkupDir) -> (r: Health)
        ensures
            r == (Health { system, session, environment_variables, background_services, linkup_dir }),
    {
        Health { system, session, environment_variables, background_services, linkup_dir }
    }
}

/// How a piece of the report is shown.
#[derive(PartialEq, Eq, Structural, Clone, Copy)]
pub enum Style {
    Plain,
    /// A section title (bold, italic).
    Heading,
    /// Bold.
    Bold,
    /// A good state (blue).
    Good,
    /// A state that needs attention (yellow).
    Warn,
}

/// A piece of a report line.
pub struct Segment {
    pub text: String,
    pub style: Style,
}

/// The contents of a line.
pub open spec fn line_view(line: Seq<Segment>) -> Seq<(Seq<char>, Style)> {
    line.map_values(|s: Segment| (s.text@, s.style))
}

/// The contents of the lines.
pub open spec fn lines_view(lines: Seq<Vec<Segment>>) -> Seq<Seq<(Seq<char>, Style)>> {
    lines.map_values(|l: Vec<Segment>| line_view(l@))
}

/// A line of one plain piece.
pub open spec fn plain(t: Seq<char>) -> Seq<(Seq<char>, Style)> {
    seq![(t, Style::Plain)]
}

/// The line of a background service: running with its pids, or not.
pub open spec fn service_line(label: Seq<char>, pids: Seq<Seq<char>>) -> Seq<(Seq<char>, Style)> {
    if pids.len() > 0 {
        seq![(label, Style::Plain), ("RUNNING"@, Style::Good), (" ("@ + join_spec(pids, ","@) + ")"@, Style::Plain)]
    } else {
        seq![(label, Style::Plain), ("NOT RUNNING"@, Style::Warn)]
    }
}

/// The line of an environment variable: set or missing.
pub open spec fn env_line(label: Seq<char>, set: bool) -> Seq<(Seq<char>, Style)> {
    if set {
        seq![(label, Style::Plain), ("OK"@, Style::Good)]
    } else {
        seq![(label, Style::Plain), ("MISSING"@, Style::Warn)]
    }
}

/// The lines of the report.
pub open spec fn health_report(h: Health) -> Seq<Seq<(Seq<char>, Style)>> {
    seq![
        seq![("System info:"@, Style::Heading)],
        plain("  OS: "@ + h.system.os_name@ + " ("@ + h.system.os_version@ + ")"@),
        seq![("Session info:"@, Style::Heading)],
        plain("  Name: "@ + h.session.name@),
        seq![("Background sevices:"@, Style::Heading)],
        service_line("  - Caddy       "@, string_views(h.background_services.caddy_pids@)),
        service_line("  - dnsmasq     "@, string_views(h.background_services.dnsmasq_pids@)),
        service_line("  - Cloudflared "@, string_views(h.background_services.cloudflared_pids@)),
        seq![("Environment variables:"@, Style::Heading)],
        env_line("  - LINKUP_CF_API_TOKEN          "@, h.environment_variables.cf_api_token),
        env_line("  - LINKUP_CLOUDFLARE_ZONE_ID    "@, h.environment_variables.cf_zone_id),
        env_line("  - LINKUP_CLOUDFLARE_ACCOUNT_ID "@, h.environment_variables.cf_account_id),
        seq![("Linkup dir:"@, Style::Heading)],
        plain("  Location: "@ + h.linkup_dir.location@),
        plain("  Content:"@)
    ] + string_views(h.linkup_dir.content@).map_values(|f: Seq<char>| plain("    - "@ + f))
}

fn seg(text: String, style: Style) -> (r: Segment)
    ensures
        r.text == text,
        r.style == style,
{
    Segment { text, style }
}

fn one(text: String, style: Style) -> (r: Vec<Segment>)
    ensures
        line_view(r@) == seq![(text@, style)],
{
    let mut v: Vec<Segment> = Vec::new();
    v.push(seg(text, style));
    assert(line_view(v@) =~= seq![(text@, style)]);
    v
}

fn service(label: &str, pids: &Vec<String>) -> (r: Vec<Segment>)
    ensures
        line_view(r@) == service_line(label@, string_views(pids@)),
{
    let mut v: Vec<Segment> = Vec::new();
    v.push(seg(String::from_str(label), Style::Plain));
    if pids.len() > 0 {
        v.push(seg(String::from_str("RUNNING"), Style::Good));
        let mut t = String::from_str(" (");
        t.append(join(pids.as_slice(), ",").as_str());
        t.append(")");
        v.push(seg(t, Style::Plain));
    } else {
        v.push(seg(String::from_str("NOT RUNNING"), Style::Warn));
    }
    assert(line_view(v@) =~= service_line(label@, string_views(pids@)));
    v
}

fn env(label: &str, set: bool) -> (r: Vec<Segment>)
    ensures
        line_view(r@) == env_line(label@, set),
{
    let mut v: Vec<Segment> = Vec::new();
    v.push(seg(String::from_str(label), Style::Plain));
    if set {
        v.push(seg(String::from_str("OK"), Style::Good));
    } else {
        v.push(seg(String::from_str("MISSING"), Style::Warn));
    }
    assert(line_view(v@) =~= env_line(label@, set));
    v
}

impl Health {
    /// The report, line by line (its `Display` form without the colours).
    pub fn report(&self) -> (r: Vec<Vec<Segment>>)
        ensures
            lines_view(r@) == health_report(*self),
    {
        let mut lines: Vec<Vec<Segment>> = Vec::new();
        lines.push(one(String::from_str("System info:"), Style::Heading));
        let mut os = String::from_str("  OS: ");
        os.append(self.system.os_name.as_str());
        os.append(" (");
        os.append(self.system.os_version.as_str());
        os.append(")");
        lines.push(one(os, Style::Plain));
        lines.push(one(String::from_str("Session info:"), Style::Heading));
        let mut name = String::from_str("  Name: ");
        name.append(self.session.name.as_str());
        lines.push(one(name, Style::Plain));
        lines.push(one(String::from_str("Background sevices:"), Style::Heading));
        lines.push(service("  - Caddy       ", &self.background_services.caddy_pids));
        lines.push(service("  - dnsmasq     ", &self.background_services.dnsmasq_pids));
        lines.push(service("  - Cloudflared ", &self.background_services.cloudflared_pids));
        lines.push(one(String::from_str("Environment variables:"), Style::Heading));
        lines.push(env("  - LINKUP_CF_API_TOKEN          ", self.environment_variables.cf_api_token));
        lines.push(env("  - LINKUP_CLOUDFLARE_ZONE_ID    ", self.environment_variables.cf_zone_id));
        lines.push(env("  - LINKUP_CLOUDFLARE_ACCOUNT_ID ", self.environment_variables.cf_account_id));
        lines.push(one(String::from_str("Linkup dir:"), Style::Heading));
        let mut loc = String::from_str("  Location: ");
        loc.append(self.linkup_dir.location.as_str());
        lines.push(one(loc, Style::Plain));
        lines.push(one(String::from_str("  Content:"), Style::Plain));
        let ghost head = lines_view(lines@);
        let ghost files = string_views(self.linkup_dir.content@);
        let mut i: usize = 0;
        while i < self.linkup_dir.content.len()
            invariant
                i <= files.len(),
                files == string_views(self.linkup_dir.content@),
                lines_view(lines@) == head + files.take(i as int).map_values(|f: Seq<char>| plain("    - "@ + f)),
            decreases files.len() - i,
        {
            let mut t = String::from_str("    - ");
            t.append(self.linkup_dir.content[i].as_str());
            let ghost prev = lines_view(lines@);
            lines.push(one(t, Style::Plain));
            assert(lines_view(lines@) =~= prev.push(plain("    - "@ + files[i as int])));
            assert(files.take(i + 1) =~= files.take(i as int).push(files[i as int]));
            assert(lines_view(lines@) =~= head + files.take(i + 1).map_values(|f: Seq<char>| plain("    - "@ + f)));
            i = i + 1;
        }
        assert(files.take(files.len() as int) =~= files);
        assert(head =~= health_report(*self).take(15));
        assert(lines_view(lines@) =~= health_report(*self));
        lines
    }
}

} // verus!
