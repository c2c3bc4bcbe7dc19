//! `linkup status` for a session of the local server: which session is
//! inspected, which services are probed, of what kind, at which URL, and
//! which responses count as healthy.
use vstd::prelude::*;
use vstd::string::StringExecFns;
use crate::domains::string_views;
use crate::sessions::SessionRow;
use crate::state::{LocalState, HealthConfig, HealthView, health_view, copy_health, copy_statuses, tunnel_url_of};
use crate::status::{ServerStatus, ServiceStatus, local_server_url_text};
use crate::text::{contains, seq_contains, str_eq};
use crate::update::decimal_string;
use crate::urls::{opt_view, parse_url, url_parse, join_url, url_join, host_of_url, url_host};

verus! {

/// `linkup status`: print JSON instead of the table; the session to
/// inspect (the tunneled session when none is named).
pub struct Args {
    pub json: bool,
    pub session: Option<String>,
}

/// Errors of `linkup status`.
#[derive(Debug)]
pub enum StatusError {
    /// The named session is not known to the local server.
    SessionNotFound(String),
}

/// The names of the sessions of a table.
pub open spec fn row_names(rows: Seq<SessionRow>) -> Seq<Seq<char>> {
    rows.map_values(|r: SessionRow| r.name@)
}

/// The session to inspect: the one named, which must be among the local
/// server's sessions, or else the session of the state.
pub fn target_session(named: Option<&str>, state_session: &str, sessions: &[SessionRow]) -> (r: Result<String, StatusError>)
    ensures
        named is None ==> (r matches Ok(s) && s@ == state_session@),
        named matches Some(n) ==> (if row_names(sessions@).contains(n@) {
            (r matches Ok(s) && s@ == n@)
        } else {
            (r matches Err(StatusError::SessionNotFound(s)) && s@ == n@)
        }),
{
    match named {
        None => Ok(String::from_str(state_session)),
        Some(n) => {
            let mut i: usize = 0;
            while i < sessions.len()
                invariant
                    i <= sessions@.len(),
                    named == Some(n),
                    forall|j: int| 0 <= j < i ==> sessions@[j].name@ != n@,
                decreases sessions@.len() - i,
            {
                if str_eq(sessions[i].name.as_str(), n) {
                    assert(row_names(sessions@)[i as int] == n@);
                    return Ok(String::from_str(n));
                }
                i = i + 1;
            }
            assert(!row_names(sessions@).contains(n@)) by {
                if row_names(sessions@).contains(n@) {
                    let j = choose|j: int| 0 <= j < row_names(sessions@).len() && row_names(sessions@)[j] == n@;
                    assert(sessions@[j].name@ == n@);
                }
            }
            Err(StatusError::SessionNotFound(String::from_str(n)))
        },
    }
}

/// A service of a session as the local server reports it.
pub struct SessionService {
    pub name: String,
    pub location: String,
}

/// A service of the config, as the status report reads it.
pub struct ConfigService {
    pub name: String,
    pub local: String,
    pub remote: String,
    pub health: Option<HealthConfig>,
}

/// A service to probe.
pub struct ServiceToCheck {
    pub name: String,
    pub url: String,
    pub component_kind: String,
    pub health: Option<HealthConfig>,
    pub priority: i8,
}

/// The contents of a service to probe.
pub type CheckView = (Seq<char>, Seq<char>, Seq<char>, Option<HealthView>, i8);

impl View for ServiceToCheck {
    type V = CheckView;

    open spec fn view(&self) -> CheckView {
        (self.name@, self.url@, self.component_kind@, health_view(self.health), self.priority)
    }
}

/// A host of this machine: its name holds `localhost`, `127.0.0.1` or
/// `0.0.0.0`.
pub open spec fn is_local_host(host: Seq<char>) -> bool {
    seq_contains(host, "localhost"@) || seq_contains(host, "127.0.0.1"@) || seq_contains(host, "0.0.0.0"@)
}

/// The index of the first configured service named `name`.
pub open spec fn config_index_from(config: Seq<ConfigService>, name: Seq<char>, i: int) -> Option<int>
    decreases config.len() - i,
{
    if i < 0 || i >= config.len() {
        None
    } else if config[i].name@ == name {
        Some(i)
    } else {
        config_index_from(config, name, i + 1)
    }
}

/// The configured service named `name`, where there is a config.
pub open spec fn config_for(config: Option<Seq<ConfigService>>, name: Seq<char>) -> Option<ConfigService> {
    match config {
        Some(c) => match config_index_from(c, name, 0) {
            Some(i) => Some(c[i]),
            None => None,
        },
        None => None,
    }
}

/// The component kind of a session's service at `location`: where its config
/// gives one URL for local and remote, by the host of that URL (`None` where
/// it has none); else `remote` or `local` as the location is the configured
/// remote or local URL; `remote` otherwise.
pub open spec fn component_kind_of(config: Option<ConfigService>, location: Seq<char>) -> Option<Seq<char>> {
    match config {
        Some(c) => if c.local@ == c.remote@ {
            match url_host(c.local@) {
                Some(h) => Some(if is_local_host(h) { "local"@ } else { "remote"@ }),
                None => None,
            }
        } else if location == c.remote@ {
            Some("remote"@)
        } else if location == c.local@ {
            Some("local"@)
        } else {
            Some("remote"@)
        },
        None => Some("remote"@),
    }
}

/// The service to probe for a session's service.
pub open spec fn user_check(s: SessionService, config: Option<Seq<ConfigService>>) -> CheckView {
    let c = config_for(config, s.name@);
    (s.name@, s.location@, component_kind_of(c, s.location@)->0, match c {
        Some(c) => health_view(c.health),
        None => None,
    }, 2)
}

/// Every service of the session has a component kind.
pub open spec fn kinds_known(services: Seq<SessionService>, config: Option<Seq<ConfigService>>) -> bool {
    forall|i: int| 0 <= i < services.len() ==>
        component_kind_of(config_for(config, (#[trigger] services[i]).name@), services[i].location@) is Some
}

/// The configs of an optional list.
pub open spec fn opt_configs(config: Option<&Vec<ConfigService>>) -> Option<Seq<ConfigService>> {
    match config {
        Some(c) => Some(c@),
        None => None,
    }
}

fn find_config(config: &Vec<ConfigService>, name: &str) -> (r: Option<usize>)
    ensures
        match r {
            Some(i) => config_index_from(config@, name@, 0) == Some(i as int) && i < config@.len(),
            None => config_index_from(config@, name@, 0) is None,
        },
{
    let mut i: usize = 0;
    while i < config.len()
        invariant
            i <= config@.len(),
            config_index_from(config@, name@, 0) == config_index_from(config@, name@, i as int),
        decreases config@.len() - i,
    {
        if str_eq(config[i].name.as_str(), name) {
            return Some(i);
        }
        i = i + 1;
    }
    None
}

fn kind_of(c: Option<&ConfigService>, location: &str) -> (r: Option<String>)
    ensures
        opt_view(r) == component_kind_of(match c {
            Some(c) => Some(*c),
            None => None,
        }, location@),
{
    proof {
        reveal_strlit("local");
        reveal_strlit("remote");
        reveal_strlit("localhost");
        reveal_strlit("127.0.0.1");
        reveal_strlit("0.0.0.0");
    }
    match c {
        None => Some(String::from_str("remote")),
        Some(c) => if str_eq(c.local.as_str(), c.remote.as_str()) {
            match host_of_url(c.local.as_str()) {
                Some(h) => {
                    let local = contains(h.as_str(), "localhost") || contains(h.as_str(), "127.0.0.1")
                        || contains(h.as_str(), "0.0.0.0");
                    if local {
                        Some(String::from_str("local"))
                    } else {
                        Some(String::from_str("remote"))
                    }
                },
                None => None,
            }
        } else if str_eq(location, c.remote.as_str()) {
            Some(String::from_str("remote"))
        } else if str_eq(location, c.local.as_str()) {
            Some(String::from_str("local"))
        } else {
            Some(String::from_str("remote"))
        },
    }
}

/// The services of the inspected session to probe, each with its component
/// kind and its config's health check. No session, no services; `None`
/// exactly where a configured service gives one URL for local and remote
/// and that URL has no host.
pub fn build_user_services(session: Option<&Vec<SessionService>>, config: Option<&Vec<ConfigService>>) -> (r: Option<Vec<ServiceToCheck>>)
    ensures
        session is None ==> (r matches Some(v) && v@.len() == 0),
        session matches Some(ss) ==> (r is Some <==> kinds_known(ss@, opt_configs(config))),
        session matches Some(ss) ==> (r matches Some(v) ==> v@.len() == ss@.len()
            && forall|i: int| 0 <= i < v@.len() ==> (#[trigger] v@[i])@ == user_check(ss@[i], opt_configs(config))),
{
    let ss = match session {
        None => return Some(Vec::new()),
        Some(ss) => ss,
    };
    let ghost cfg = opt_configs(config);
    let mut out: Vec<ServiceToCheck> = Vec::new();
    let mut i: usize = 0;
    while i < ss.len()
        invariant
            i <= ss@.len(),
            out@.len() == i,
            session == Some(ss),
            cfg == opt_configs(config),
            forall|j: int| 0 <= j < i ==> component_kind_of(config_for(cfg, (#[trigger] ss@[j]).name@), ss@[j].location@) is Some,
            forall|j: int| 0 <= j < i ==> (#[trigger] out@[j])@ == user_check(ss@[j], cfg),
        decreases ss@.len() - i,
    {
        let s = &ss[i];
        let found: Option<&ConfigService> = match config {
            Some(c) => match find_config(c, s.name.as_str()) {
                Some(k) => Some(&c[k]),
                None => None,
            },
            None => None,
        };
        assert(match found {
            Some(f) => Some(*f),
            None => None,
        } == config_for(cfg, s.name@));
        let kind = match kind_of(found, s.location.as_str()) {
            Some(k) => k,
            None => {
                assert(!kinds_known(ss@, cfg)) by {
                    assert(component_kind_of(config_for(cfg, ss@[i as int].name@), ss@[i as int].location@) is None);
                }
                return None;
            },
        };
        let health = match found {
            Some(f) => copy_health(&f.health),
            None => None,
        };
        out.push(ServiceToCheck { name: s.name.clone(), url: s.location.clone(), component_kind: kind, health, priority: 2 });
        i = i + 1;
    }
    Some(out)
}

/// The path linkup's own servers answer health probes on.
pub open spec fn check_path() -> Seq<char> {
    "/linkup/check"@
}

/// Linkup's own services as probed in a session's status: the local server
/// on `local`, the remote server at `worker`, and the tunnel at `tunnel`,
/// each at its check path (the remote server and the tunnel at their own URL
/// where that join fails).
pub open spec fn internal_checks(local: Seq<char>, worker: Seq<char>, tunnel: Seq<char>) -> Seq<CheckView> {
    seq![
        ("linkup_local_server"@, local, "local"@, None, 1i8),
        ("linkup_remote_server"@, match url_join(worker, check_path()) {
            Some(u) => u,
            None => worker,
        }, "remote"@, None, 1i8),
        ("tunnel"@, match url_join(tunnel, check_path()) {
            Some(u) => u,
            None => tunnel,
        }, "remote"@, None, 1i8),
    ]
}

fn check(name: &str, url: String, kind: &str) -> (r: ServiceToCheck)
    ensures
        r@ == (name@, url@, kind@, None::<HealthView>, 1i8),
{
    ServiceToCheck { name: String::from_str(name), url, component_kind: String::from_str(kind), health: None, priority: 1 }
}

fn joined_or_base(base: &String) -> (r: String)
    ensures
        r@ == match url_join(base@, check_path()) {
            Some(u) => u,
            None => base@,
        },
{
    proof {
        reveal_strlit("/linkup/check");
    }
    match join_url(base.as_str(), "/linkup/check") {
        Some(u) => u,
        None => base.clone(),
    }
}

/// Linkup's own services to probe: the local server on `local_port`, the
/// remote server and the tunnel, at their check path. `None` where the local
/// server's URL or its check URL does not parse, or the state gives no
/// tunnel URL.
pub fn build_internal_services(state: &LocalState, local_port: u16) -> (r: Option<Vec<ServiceToCheck>>)
    ensures
        r is Some <==> (url_parse(local_server_url_text(local_port)) matches Some(l)
            && url_join(l, check_path()) is Some && tunnel_url_of(*state) is Some),
        r matches Some(v) ==> v@.map_values(|c: ServiceToCheck| c@) == internal_checks(
            url_join(url_parse(local_server_url_text(local_port))->0, check_path())->0,
            state.linkup.worker_url@,
            tunnel_url_of(*state)->0,
        ),
{
    proof {
        reveal_strlit("http://localhost:");
        reveal_strlit("/linkup/check");
        reveal_strlit("linkup_local_server");
        reveal_strlit("linkup_remote_server");
        reveal_strlit("tunnel");
        reveal_strlit("local");
        reveal_strlit("remote");
    }
    let mut text = String::from_str("http://localhost:");
    text.append(decimal_string(local_port).as_str());
    let base = match parse_url(text.as_str()) {
        Some(u) => u,
        None => return None,
    };
    let local = match join_url(base.as_str(), "/linkup/check") {
        Some(u) => u,
        None => return None,
    };
    let tunnel = match state.get_tunnel_url() {
        Some(u) => u,
        None => return None,
    };
    let mut v: Vec<ServiceToCheck> = Vec::new();
    v.push(check("linkup_local_server", local, "local"));
    v.push(check("linkup_remote_server", joined_or_base(&state.linkup.worker_url), "remote"));
    v.push(check("tunnel", joined_or_base(&tunnel), "remote"));
    assert(v@.map_values(|c: ServiceToCheck| c@) =~= internal_checks(
        url_join(url_parse(local_server_url_text(local_port))->0, check_path())->0,
        state.linkup.worker_url@,
        tunnel_url_of(*state)->0,
    ));
    Some(v)
}

/// The URL a service is probed at: its health path joined onto its URL where
/// it has one and the join succeeds, else its URL.
pub open spec fn probe_url(s: CheckView) -> Seq<char> {
    match s.3 {
        Some(h) => match h.0 {
            Some(p) => match url_join(s.1, p) {
                Some(u) => u,
                None => s.1,
            },
            None => s.1,
        },
        None => s.1,
    }
}

/// The status codes that count as healthy for a service, where its health
/// check lists them.
pub open spec fn probe_statuses(s: CheckView) -> Option<Seq<u16>> {
    match s.3 {
        Some(h) => h.1,
        None => None,
    }
}

/// What a service is probed with: the URL to request and the status codes
/// that count as healthy (see `status::server_status`).
pub fn probe_target(service: &ServiceToCheck) -> (r: (String, Option<Vec<u16>>))
    ensures
        r.0@ == probe_url(service@),
        match r.1 {
            Some(v) => probe_statuses(service@) == Some(v@),
            None => probe_statuses(service@) is None,
        },
{
    match &service.health {
        None => (service.url.clone(), None),
        Some(h) => {
            let url = match &h.path {
                Some(p) => match join_url(service.url.as_str(), p.as_str()) {
                    Some(u) => u,
                    None => service.url.clone(),
                },
                None => service.url.clone(),
            };
            let statuses = match &h.statuses {
                Some(v) => Some(copy_statuses(v)),
                None => None,
            };
            (url, statuses)
        },
    }
}

/// `r` is the row of the service `s` before it was probed.
pub open spec fn check_row(s: CheckView, r: ServiceStatus) -> bool {
    &&& r.name@ == s.0
    &&& r.status == ServerStatus::Loading
    &&& r.component_kind@ == s.2
    &&& r.location@ == s.1
    &&& r.priority == s.4
}

/// The rows of the services to probe, all still loading, in the order given.
pub fn prepare_check_rows(services: &Vec<ServiceToCheck>) -> (r: Vec<ServiceStatus>)
    ensures
        r@.len() == services@.len(),
        forall|i: int| 0 <= i < r@.len() ==> check_row(services@[i]@, #[trigger] r@[i]),
{
    let mut out: Vec<ServiceStatus> = Vec::new();
    let mut i: usize = 0;
    while i < services.len()
        invariant
            i <= services@.len(),
            out@.len() == i,
            forall|j: int| 0 <= j < i ==> check_row(services@[j]@, #[trigger] out@[j]),
        decreases services@.len() - i,
    {
        let s = &services[i];
        out.push(ServiceStatus {
            name: s.name.clone(),
            status: ServerStatus::Loading,
            component_kind: s.component_kind.clone(),
            location: s.url.clone(),
            priority: s.priority,
        });
        i = i + 1;
    }
    out
}

} // verus!
