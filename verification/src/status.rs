//! The `status` command: what is reported of the session and of each
//! service, and in which order. Probing the services and drawing the table
//! are left to the caller.
use vstd::prelude::*;
use vstd::string::StringExecFns;
use vstd::multiset::Multiset;
use crate::domains::{session_urls, string_views, format_state_domains};
use crate::state::{LocalService, LocalState, ServiceTarget, tunnel_url_of};
use crate::text::{str_eq, str_less, str_lt, lemma_str_less_order};
use crate::update::{decimal, decimal_string};
use crate::urls::{opt_view, parse_url, url_parse};

verus! {

broadcast use vstd::seq_lib::group_to_multiset_ensures;

/// The health of a probed server.
#[derive(PartialEq, Eq, Structural, Clone, Copy)]
pub enum ServerStatus {
    Healthy,
    Error,
    Timeout,
    Loading,
}

/// The word shown for a status.
pub open spec fn status_label(s: ServerStatus) -> Seq<char> {
    match s {
        ServerStatus::Healthy => "ok"@,
        ServerStatus::Error => "error"@,
        ServerStatus::Timeout => "timeout"@,
        ServerStatus::Loading => "loading"@,
    }
}

impl ServerStatus {
    /// The word shown for the status (the caller colours it).
    pub fn label(&self) -> (r: String)
        ensures
            r@ == status_label(*self),
    {
        match self {
            ServerStatus::Healthy => String::from_str("ok"),
            ServerStatus::Error => String::from_str("error"),
            ServerStatus::Timeout => String::from_str("timeout"),
            ServerStatus::Loading => String::from_str("loading"),
        }
    }
}

/// An HTTP status code of the 5xx class.
pub open spec fn is_server_error(code: u16) -> bool {
    500 <= code < 600
}

/// A server error is a response in the 500s: 499 and 600 are not, 500 and
/// 599 are; so a probe answered with a client error or a redirect is healthy.
pub proof fn lemma_server_errors_are_5xx(c: u16)
    ensures
        is_server_error(c) <==> (500 <= c && c <= 599),
        c < 500 ==> !is_server_error(c),
{
}

/// The status of a probe: `code` is the HTTP status of the response, `None`
/// where the request failed. A failed request counts as a timeout, a server
/// error as an error, any other response as healthy.
pub fn status_of_response(code: Option<u16>) -> (r: ServerStatus)
    ensures
        r == match code {
            None => ServerStatus::Timeout,
            Some(c) => if is_server_error(c) { ServerStatus::Error } else { ServerStatus::Healthy },
        },
{
    match code {
        None => ServerStatus::Timeout,
        Some(c) => if 500 <= c && c < 600 { ServerStatus::Error } else { ServerStatus::Healthy },
    }
}

/// The status of a probe when the service may list the status codes it
/// accepts: with such a list, exactly those codes are healthy; without it,
/// every code but a server error. A failed request is an error.
pub fn server_status(acceptable_statuses: Option<&Vec<u16>>, code: Option<u16>) -> (r: ServerStatus)
    ensures
        r == match code {
            None => ServerStatus::Error,
            Some(c) => match acceptable_statuses {
                None => if is_server_error(c) { ServerStatus::Error } else { ServerStatus::Healthy },
                Some(v) => if v@.contains(c) { ServerStatus::Healthy } else { ServerStatus::Error },
            },
        },
{
    match code {
        None => ServerStatus::Error,
        Some(c) => match acceptable_statuses {
            None => if 500 <= c && c < 600 { ServerStatus::Error } else { ServerStatus::Healthy },
            Some(v) => {
                let mut i: usize = 0;
                while i < v.len()
                    invariant
                        acceptable_statuses == Some(v),
                        code == Some(c),
                        i <= v@.len(),
                        forall|k: int| 0 <= k < i ==> v@[k] != c,
                    decreases v@.len() - i,
                {
                    if v[i] == c {
                        assert(v@.contains(c));
                        return ServerStatus::Healthy;
                    }
                    i = i + 1;
                }
                ServerStatus::Error
            },
        },
    }
}

/// The session part of the status report.
pub struct SessionStatus {
    pub name: String,
    pub domains: Vec<String>,
}

/// The lines printed for a session: its name, then its domains indented,
/// then an empty line.
pub open spec fn session_lines(name: Seq<char>, domains: Seq<Seq<char>>) -> Seq<Seq<char>> {
    seq!["Session Name: "@ + name, "Domains: "@] + domains.map_values(|d: Seq<char>| "    "@ + d) + seq![Seq::<char>::empty()]
}

impl SessionStatus {
    /// The session of a state: its name and the URLs of its top-level domains.
    pub fn from_state(state: &LocalState) -> (r: SessionStatus)
        ensures
            r.name@ == state.linkup.session_name@,
            string_views(r.domains@) == session_urls(state.linkup.session_name@, state.domains@),
    {
        SessionStatus {
            name: state.linkup.session_name.clone(),
            domains: format_state_domains(state.linkup.session_name.as_str(), state.domains.as_slice()),
        }
    }

    /// The lines that report the session.
    pub fn lines(&self) -> (r: Vec<String>)
        ensures
            string_views(r@) == session_lines(self.name@, string_views(self.domains@)),
    {
        let mut r: Vec<String> = Vec::new();
        let mut first = String::from_str("Session Name: ");
        first.append(self.name.as_str());
        r.push(first);
        r.push(String::from_str("Domains: "));
        let ghost head = seq!["Session Name: "@ + self.name@, "Domains: "@];
        assert(string_views(r@) =~= head);
        let mut i: usize = 0;
        while i < self.domains.len()
            invariant
                i <= self.domains@.len(),
                string_views(r@) == head + string_views(self.domains@).take(i as int).map_values(|d: Seq<char>| "    "@ + d),
            decreases self.domains@.len() - i,
        {
            let mut line = String::from_str("    ");
            line.append(self.domains[i].as_str());
            let ghost prev = string_views(r@);
            r.push(line);
            assert(string_views(r@) =~= prev.push("    "@ + self.domains@[i as int]@));
            assert(string_views(self.domains@).take(i + 1) =~= string_views(self.domains@).take(i as int).push(self.domains@[i as int]@));
            assert(string_views(r@) =~= head + string_views(self.domains@).take(i + 1).map_values(|d: Seq<char>| "    "@ + d));
            i = i + 1;
        }
        assert(string_views(self.domains@).take(self.domains@.len() as int) =~= string_views(self.domains@));
        let ghost prev = string_views(r@);
        r.push(String::new());
        assert(string_views(r@) =~= prev.push(Seq::<char>::empty()));
        r
    }
}

/// A row of the services table.
pub struct ServiceStatus {
    pub name: String,
    pub status: ServerStatus,
    pub component_kind: String,
    pub location: String,
    pub priority: i8,
}

/// The services linkup runs itself.
pub open spec fn is_internal_name(name: Seq<char>) -> bool {
    name == "linkup_local_server"@ || name == "linkup_remote_server"@ || name == "tunnel"@
}

/// Whether the service is one linkup runs itself.
pub fn is_internal_service(service: &LocalService) -> (r: bool)
    ensures
        r == is_internal_name(service.name@),
{
    str_eq(service.name.as_str(), "linkup_local_server") || str_eq(service.name.as_str(), "linkup_remote_server")
        || str_eq(service.name.as_str(), "tunnel")
}

/// Linkup's own services are listed first.
pub open spec fn priority_of(name: Seq<char>) -> i8 {
    if is_internal_name(name) { 1 } else { 2 }
}

/// The rank of a service in the table: 1 for linkup's own, 2 for the others.
pub fn service_priority(service: &LocalService) -> (r: i8)
    ensures
        r == priority_of(service.name@),
{
    if is_internal_service(service) { 1 } else { 2 }
}

/// The name shown for a target (its `Display` form).
pub open spec fn target_label(t: ServiceTarget) -> Seq<char> {
    match t {
        ServiceTarget::Local => "local"@,
        ServiceTarget::Remote => "remote"@,
    }
}

/// The name shown for a target.
pub fn target_name(t: ServiceTarget) -> (r: String)
    ensures
        r@ == target_label(t),
{
    match t {
        ServiceTarget::Local => String::from_str("local"),
        ServiceTarget::Remote => String::from_str("remote"),
    }
}

/// The location a service's traffic goes to.
pub open spec fn current_location(s: LocalService) -> Seq<char> {
    if s.current == ServiceTarget::Local { s.local@ } else { s.remote@ }
}

/// `r` is the row of `s` before it was probed.
pub open spec fn initial_row(s: LocalService, r: ServiceStatus) -> bool {
    &&& r.name@ == s.name@
    &&& r.status == ServerStatus::Loading
    &&& r.component_kind@ == target_label(s.current)
    &&& r.location@ == current_location(s)
    &&& r.priority == priority_of(s.name@)
}

/// The rows of the services, all still loading, in the order given.
pub fn prepare_service_statuses(services: Vec<LocalService>) -> (r: Vec<ServiceStatus>)
    ensures
        r@.len() == services@.len(),
        forall|i: int| 0 <= i < r@.len() ==> initial_row(services@[i], #[trigger] r@[i]),
{
    let ghost orig = services@;
    let mut rest = services;
    let mut out: Vec<ServiceStatus> = Vec::new();
    while rest.len() > 0
        invariant
            out@.len() + rest@.len() == orig.len(),
            rest@ == orig.skip(out@.len() as int),
            forall|i: int| 0 <= i < out@.len() ==> initial_row(orig[i], #[trigger] out@[i]),
        decreases rest@.len(),
    {
        let ghost k: int = out@.len() as int;
        let s = rest.remove(0);
        assert(s == orig[k]);
        let location = s.current_url();
        let priority = service_priority(&s);
        let row = ServiceStatus {
            name: s.name.clone(),
            status: ServerStatus::Loading,
            component_kind: target_name(s.current),
            location,
            priority,
        };
        out.push(row);
        assert(rest@ =~= orig.skip(k + 1));
    }
    out
}

/// The URL of the local linkup server on `port`.
pub open spec fn local_server_url_text(port: u16) -> Seq<char> {
    "http://localhost:"@ + decimal(port as nat)
}

/// Linkup's own services as status rows probe them: the local server on
/// `local_port`, the remote server, and the tunnel.
pub open spec fn linkup_services_of(state: LocalState, local_url: Seq<char>, tunnel: Seq<char>, r: Seq<LocalService>) -> bool {
    &&& r.len() == 3
    &&& r[0].name@ == "linkup_local_server"@ && r[0].remote@ == local_url && r[0].local@ == local_url
    &&& r[0].current == ServiceTarget::Local
    &&& r[1].name@ == "linkup_remote_server"@ && r[1].remote@ == state.linkup.worker_url@
    &&& r[1].local@ == state.linkup.worker_url@ && r[1].current == ServiceTarget::Remote
    &&& r[2].name@ == "tunnel"@ && r[2].remote@ == tunnel && r[2].local@ == tunnel
    &&& r[2].current == ServiceTarget::Remote
    &&& forall|i: int| 0 <= i < 3 ==> (#[trigger] r[i]).directory is None && r[i].rewrites@.len() == 0 && r[i].health is None
}

fn internal_service(name: &str, url: &String, current: ServiceTarget) -> (s: LocalService)
    ensures
        s.name@ == name@,
        s.remote@ == url@,
        s.local@ == url@,
        s.current == current,
        s.directory is None,
        s.rewrites@.len() == 0,
        s.health is None,
{
    LocalService {
        name: String::from_str(name),
        remote: url.clone(),
        local: url.clone(),
        current,
        directory: None,
        rewrites: Vec::new(),
        health: None,
    }
}

/// Linkup's own services, to be probed beside the session's. `None` where a
/// URL does not parse: the local server's, or the tunnel's.
pub fn linkup_services(state: &LocalState, local_port: u16) -> (r: Option<Vec<LocalService>>)
    ensures
        r is None <==> (url_parse(local_server_url_text(local_port)) is None || tunnel_url_of(*state) is None),
        r matches Some(v) ==> linkup_services_of(*state, url_parse(local_server_url_text(local_port))->0,
            tunnel_url_of(*state)->0, v@),
{
    let mut text = String::from_str("http://localhost:");
    text.append(decimal_string(local_port).as_str());
    let local_url = match parse_url(text.as_str()) {
        Some(u) => u,
        None => return None,
    };
    let tunnel = match state.get_tunnel_url() {
        Some(u) => u,
        None => return None,
    };
    let mut v: Vec<LocalService> = Vec::new();
    v.push(internal_service("linkup_local_server", &local_url, ServiceTarget::Local));
    v.push(internal_service("linkup_remote_server", &state.linkup.worker_url, ServiceTarget::Remote));
    v.push(internal_service("tunnel", &tunnel, ServiceTarget::Remote));
    assert(opt_view(Some(local_url)) == url_parse(local_server_url_text(local_port)));
    Some(v)
}

/// The order of the table: by rank, then kind, then name.
pub open spec fn row_less(a: ServiceStatus, b: ServiceStatus) -> bool {
    ||| a.priority < b.priority
    ||| a.priority == b.priority && str_less(a.component_kind@, b.component_kind@)
    ||| a.priority == b.priority && a.component_kind@ == b.component_kind@ && str_less(a.name@, b.name@)
}

/// No row comes before one that precedes it.
pub open spec fn rows_sorted(s: Seq<ServiceStatus>) -> bool {
    forall|i: int, j: int| 0 <= i < j < s.len() ==> !row_less(#[trigger] s[j], #[trigger] s[i])
}

/// In a sorted table, rows come by priority (1 before 2); rows of equal
/// priority by component kind in `String` order; rows of equal priority and
/// kind by name in `String` order.
pub proof fn lemma_sorted_rows_order(s: Seq<ServiceStatus>, i: int, j: int)
    requires
        rows_sorted(s),
        0 <= i < j < s.len(),
    ensures
        s[i].priority <= s[j].priority,
        s[i].priority == s[j].priority ==> !str_less(s[j].component_kind@, s[i].component_kind@),
        s[i].priority == s[j].priority && s[i].component_kind@ == s[j].component_kind@
            ==> !str_less(s[j].name@, s[i].name@),
{
    assert(!row_less(s[j], s[i]));
}

proof fn lemma_row_order(a: ServiceStatus, b: ServiceStatus, c: ServiceStatus)
    ensures
        !row_less(a, a),
        row_less(a, b) && row_less(b, c) ==> row_less(a, c),
        !row_less(a, b) && !row_less(b, c) ==> !row_less(a, c),
{
    lemma_str_less_order(a.component_kind@, b.component_kind@, c.component_kind@);
    lemma_str_less_order(a.name@, b.name@, c.name@);
    lemma_str_less_order(b.component_kind@, c.component_kind@, a.component_kind@);
    lemma_str_less_order(b.name@, c.name@, a.name@);
    lemma_str_less_order(c.component_kind@, a.component_kind@, b.component_kind@);
    lemma_str_less_order(c.name@, a.name@, b.name@);
    lemma_str_less_order(a.component_kind@, c.component_kind@, b.component_kind@);
    lemma_str_less_order(a.name@, c.name@, b.name@);
    lemma_str_less_order(b.component_kind@, a.component_kind@, c.component_kind@);
    lemma_str_less_order(b.name@, a.name@, c.name@);
    lemma_str_less_order(c.component_kind@, b.component_kind@, a.component_kind@);
    lemma_str_less_order(c.name@, b.name@, a.name@);
}

fn row_lt(a: &ServiceStatus, b: &ServiceStatus) -> (r: bool)
    ensures
        r == row_less(*a, *b),
{
    if a.priority != b.priority {
        return a.priority < b.priority;
    }
    if str_lt(a.component_kind.as_str(), b.component_kind.as_str()) {
        return true;
    }
    if !str_eq(a.component_kind.as_str(), b.component_kind.as_str()) {
        return false;
    }
    str_lt(a.name.as_str(), b.name.as_str())
}

/// `r` is `orig` rearranged: row `i` of `r` is row `p[i]` of `orig`, no row
/// of `orig` is taken twice, and rows that the table order does not tell
/// apart keep their order.
pub open spec fn stable_arrangement(orig: Seq<ServiceStatus>, r: Seq<ServiceStatus>, p: Seq<int>) -> bool {
    &&& p.len() == r.len()
    &&& r.len() == orig.len()
    &&& forall|i: int| 0 <= i < r.len() ==> 0 <= #[trigger] p[i] < orig.len() && r[i] == orig[p[i]]
    &&& forall|i: int, j: int| 0 <= i < j < r.len() ==> #[trigger] p[i] != #[trigger] p[j]
    &&& forall|i: int, j: int| 0 <= i < j < r.len() && !row_less(#[trigger] r[i], #[trigger] r[j]) ==> p[i] < p[j]
}

/// The rows in table order: by rank, then component kind, then name, with
/// every row kept; rows equal in all three keep their order (a stable sort).
pub fn sort_service_statuses(rows: Vec<ServiceStatus>) -> (r: Vec<ServiceStatus>)
    ensures
        r@.to_multiset() == rows@.to_multiset(),
        rows_sorted(r@),
        exists|p: Seq<int>| stable_arrangement(rows@, r@, p),
{
    let ghost orig = rows@;
    let mut rest = rows;
    let mut out: Vec<ServiceStatus> = Vec::new();
    let ghost mut idx: Seq<int> = Seq::empty();
    while rest.len() > 0
        invariant
            out@.to_multiset().add(rest@.to_multiset()) == orig.to_multiset(),
            rows_sorted(out@),
            out@.len() + rest@.len() == orig.len(),
            rest@ == orig.skip(out@.len() as int),
            idx.len() == out@.len(),
            forall|i: int| 0 <= i < out@.len() ==> 0 <= #[trigger] idx[i] < out@.len() && out@[i] == orig[idx[i]],
            forall|i: int, j: int| 0 <= i < j < out@.len() ==> #[trigger] idx[i] != #[trigger] idx[j],
            forall|i: int, j: int| 0 <= i < j < out@.len() && !row_less(#[trigger] out@[i], #[trigger] out@[j]) ==> idx[i] < idx[j],
        decreases rest@.len(),
    {
        let ghost rest0 = rest@;
        let ghost n: int = out@.len() as int;
        let x = rest.remove(0);
        proof {
            vstd::seq_lib::to_multiset_remove(rest0, 0);
            assert(x == orig[n]);
            assert(rest@ =~= orig.skip(n + 1));
        }
        let mut j: usize = out.len();
        while j > 0 && row_lt(&x, &out[j - 1])
            invariant
                j <= out@.len(),
                forall|k: int| j <= k < out@.len() ==> row_less(x, #[trigger] out@[k]),
            decreases j,
        {
            j = j - 1;
        }
        let ghost before = out@;
        let ghost idx0 = idx;
        proof {
            assert forall|i: int| 0 <= i < j implies !row_less(x, #[trigger] before[i]) by {
                if i < j - 1 {
                    lemma_row_order(x, before[j - 1], before[i]);
                    lemma_row_order(before[i], before[j - 1], x);
                    lemma_row_order(x, before[i], before[j - 1]);
                }
            }
            assert forall|k: int| j <= k < before.len() implies !row_less(#[trigger] before[k], x) by {
                lemma_row_order(x, before[k], x);
            }
        }
        out.insert(j, x);
        proof {
            idx = idx0.insert(j as int, n);
            vstd::seq_lib::to_multiset_insert(before, j as int, x);
            assert forall|a: int, b: int| 0 <= a < b < out@.len() implies !row_less(#[trigger] out@[b], #[trigger] out@[a]) by {
                if a < j && b == j {
                } else if a < j && b > j {
                    assert(out@[a] == before[a]);
                    assert(out@[b] == before[b - 1]);
                } else if a == j {
                    assert(out@[b] == before[b - 1]);
                } else if b < j {
                    assert(out@[a] == before[a]);
                    assert(out@[b] == before[b]);
                } else {
                    assert(out@[a] == before[a - 1]);
                    assert(out@[b] == before[b - 1]);
                }
            }
            assert forall|i: int| 0 <= i < out@.len() implies 0 <= #[trigger] idx[i] < out@.len() && out@[i] == orig[idx[i]] by {
                if i < j {
                    assert(idx[i] == idx0[i]);
                } else if i > j {
                    assert(idx[i] == idx0[i - 1]);
                    assert(out@[i] == before[i - 1]);
                }
            }
            assert forall|a: int, b: int| 0 <= a < b < out@.len() implies #[trigger] idx[a] != #[trigger] idx[b] by {
                if a < j && b == j {
                    assert(idx[a] == idx0[a]);
                } else if a < j && b > j {
                    assert(idx[a] == idx0[a]);
                    assert(idx[b] == idx0[b - 1]);
                } else if a == j {
                    assert(idx[b] == idx0[b - 1]);
                } else if b < j {
                    assert(idx[a] == idx0[a]);
                    assert(idx[b] == idx0[b]);
                } else {
                    assert(idx[a] == idx0[a - 1]);
                    assert(idx[b] == idx0[b - 1]);
                }
            }
            assert forall|a: int, b: int| 0 <= a < b < out@.len() && !row_less(#[trigger] out@[a], #[trigger] out@[b]) implies idx[a] < idx[b] by {
                if a < j && b == j {
                    assert(idx[a] == idx0[a]);
                } else if a < j && b > j {
                    assert(idx[a] == idx0[a]);
                    assert(idx[b] == idx0[b - 1]);
                    assert(out@[a] == before[a]);
                    assert(out@[b] == before[b - 1]);
                } else if a == j {
                    assert(out@[b] == before[b - 1]);
                    assert(row_less(x, before[b - 1]));
                } else if b < j {
                    assert(idx[a] == idx0[a]);
                    assert(idx[b] == idx0[b]);
                    assert(out@[a] == before[a]);
                    assert(out@[b] == before[b]);
                } else {
                    assert(idx[a] == idx0[a - 1]);
                    assert(idx[b] == idx0[b - 1]);
                    assert(out@[a] == before[a - 1]);
                    assert(out@[b] == before[b - 1]);
                }
            }
            assert(out@.to_multiset().add(rest@.to_multiset()) =~= orig.to_multiset());
        }
    }
    assert(rest@.to_multiset() =~= Multiset::empty());
    assert(out@.to_multiset() =~= orig.to_multiset());
    assert(stable_arrangement(orig, out@, idx));
    out
}

/// Records the probe result of the service `name` in every row of that name;
/// returns how many rows it changed.
pub fn apply_status_update(rows: &mut Vec<ServiceStatus>, name: &str, status: ServerStatus) -> (n: usize)
    ensures
        final(rows)@.len() == old(rows)@.len(),
        forall|i: int| 0 <= i < old(rows)@.len() ==> {
            let before = #[trigger] old(rows)@[i];
            final(rows)@[i] == if before.name@ == name@ {
                ServiceStatus { status, ..before }
            } else {
                before
            }
        },
        n == old(rows)@.filter(|r: ServiceStatus| r.name@ == name@).len(),
{
    let ghost orig = rows@;
    let mut n: usize = 0;
    let mut i: usize = 0;
    while i < rows.len()
        invariant
            rows@.len() == orig.len(),
            i <= orig.len(),
            n == orig.take(i as int).filter(|r: ServiceStatus| r.name@ == name@).len(),
            n <= i,
            forall|k: int| 0 <= k < orig.len() ==> {
                let before = #[trigger] orig[k];
                rows@[k] == if k < i && before.name@ == name@ {
                    ServiceStatus { status, ..before }
                } else {
                    before
                }
            },
        decreases orig.len() - i,
    {
        assert(orig.take(i + 1) =~= orig.take(i as int).push(orig[i as int]));
        proof {
            orig.take(i as int).lemma_filter_push(orig[i as int], |r: ServiceStatus| r.name@ == name@);
        }
        if str_eq(rows[i].name.as_str(), name) {
            rows[i].status = status;
            n = n + 1;
        }
        i = i + 1;
    }
    assert(orig.take(orig.len() as int) =~= orig);
    n
}

} // verus!
