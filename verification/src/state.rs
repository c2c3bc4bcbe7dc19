//! The local state of a linkup session: which services run where, and what
//! is uploaded to the local and the remote linkup server.
use vstd::prelude::*;
use vstd::string::StringExecFns;
use crate::domains::{Domain, DomainView, domain_views, string_views, copy_domains, copy_strings};
use crate::text::{join, join_spec, str_eq};
use crate::urls::{opt_view, set_url_path, url_set_path};
use rand::Rng;

verus! {

/// Where a service's traffic goes.
#[derive(PartialEq, Eq, Structural, Clone, Copy)]
pub enum ServiceTarget {
    Local,
    Remote,
}

/// A path rewrite of a service.
pub struct Rewrite {
    pub source: String,
    pub target: String,
}

impl View for Rewrite {
    type V = (Seq<char>, Seq<char>);

    open spec fn view(&self) -> (Seq<char>, Seq<char>) {
        (self.source@, self.target@)
    }
}

/// The contents of a list of rewrites.
pub open spec fn rewrite_views(s: Seq<Rewrite>) -> Seq<(Seq<char>, Seq<char>)> {
    s.map_values(|r: Rewrite| r@)
}

/// A copy of a list of rewrites.
pub fn copy_rewrites(v: &Vec<Rewrite>) -> (r: Vec<Rewrite>)
    ensures
        rewrite_views(r@) == rewrite_views(v@),
{
    let mut out: Vec<Rewrite> = Vec::new();
    let mut i: usize = 0;
    while i < v.len()
        invariant
            i <= v@.len(),
            rewrite_views(out@) == rewrite_views(v@.take(i as int)),
        decreases v@.len() - i,
    {
        let ghost prev = rewrite_views(out@);
        out.push(Rewrite { source: v[i].source.clone(), target: v[i].target.clone() });
        assert(rewrite_views(out@) =~= prev.push(v@[i as int]@));
        assert(v@.take(i + 1) =~= v@.take(i as int).push(v@[i as int]));
        i = i + 1;
    }
    assert(v@.take(v@.len() as int) =~= v@);
    out
}

/// The health check a service's config asks for: a path to probe, and the
/// status codes that count as healthy.
pub struct HealthConfig {
    pub path: Option<String>,
    pub statuses: Option<Vec<u16>>,
}

/// The contents of a health check.
pub type HealthView = (Option<Seq<char>>, Option<Seq<u16>>);

impl View for HealthConfig {
    type V = HealthView;

    open spec fn view(&self) -> HealthView {
        (opt_view(self.path), match self.statuses {
            Some(v) => Some(v@),
            None => None,
        })
    }
}

/// The contents of an optional health check.
pub open spec fn health_view(h: Option<HealthConfig>) -> Option<HealthView> {
    match h {
        Some(c) => Some(c@),
        None => None,
    }
}

pub(crate) fn copy_statuses(v: &Vec<u16>) -> (r: Vec<u16>)
    ensures
        r@ == v@,
{
    let mut out: Vec<u16> = Vec::new();
    let mut i: usize = 0;
    while i < v.len()
        invariant
            i <= v@.len(),
            out@ == v@.take(i as int),
        decreases v@.len() - i,
    {
        out.push(v[i]);
        assert(v@.take(i + 1) =~= v@.take(i as int).push(v@[i as int]));
        i = i + 1;
    }
    assert(v@.take(v@.len() as int) =~= v@);
    out
}

pub(crate) fn copy_health(h: &Option<HealthConfig>) -> (r: Option<HealthConfig>)
    ensures
        health_view(r) == health_view(*h),
{
    match h {
        None => None,
        Some(c) => {
            let path = match &c.path {
                Some(p) => Some(p.clone()),
                None => None,
            };
            let statuses = match &c.statuses {
                Some(v) => Some(copy_statuses(v)),
                None => None,
            };
            Some(HealthConfig { path, statuses })
        },
    }
}

/// A service of the session as the state file records it.
pub struct LocalService {
    pub name: String,
    pub remote: String,
    pub local: String,
    pub current: ServiceTarget,
    pub directory: Option<String>,
    pub rewrites: Vec<Rewrite>,
    pub health: Option<HealthConfig>,
}

/// The session fields of the state file.
pub struct LinkupState {
    pub session_name: String,
    pub session_token: String,
    pub worker_url: String,
    pub worker_token: String,
    pub config_path: String,
    pub tunnel: Option<String>,
    pub cache_routes: Option<Vec<String>>,
}

/// The state file of a linkup session.
pub struct LocalState {
    pub linkup: LinkupState,
    pub domains: Vec<Domain>,
    pub services: Vec<LocalService>,
}

/// Errors of the state operations.
#[derive(Debug)]
pub enum StateError {
    /// A named service is not part of the session.
    NoSuchService(String),
}

/// `s` pointing at `target`.
pub open spec fn retarget(s: LocalService, target: ServiceTarget) -> LocalService {
    LocalService { current: target, ..s }
}

/// The index of the first service named `name`.
pub open spec fn service_index_from(services: Seq<LocalService>, name: Seq<char>, i: int) -> Option<int>
    decreases services.len() - i,
{
    if i < 0 || i >= services.len() {
        None
    } else if services[i].name@ == name {
        Some(i)
    } else {
        service_index_from(services, name, i + 1)
    }
}

pub open spec fn service_index(services: Seq<LocalService>, name: Seq<char>) -> Option<int> {
    service_index_from(services, name, 0)
}

/// The service at `k` is switched: all services are, or `k` is the first
/// service with one of the given names.
pub open spec fn is_routed(services: Seq<LocalService>, names: Seq<Seq<char>>, all: bool, k: int) -> bool {
    all || exists|j: int| 0 <= j < names.len() && service_index(services, #[trigger] names[j]) == Some(k)
}

/// The services once the routed ones point at `target`.
pub open spec fn routed_services(services: Seq<LocalService>, names: Seq<Seq<char>>, all: bool, target: ServiceTarget) -> Seq<LocalService> {
    Seq::new(
        services.len(),
        |k: int|
            if is_routed(services, names, all, k) {
                retarget(services[k], target)
            } else {
                services[k]
            },
    )
}

/// The index of the first name at or after `j` that names no service.
pub open spec fn first_missing_from(services: Seq<LocalService>, names: Seq<Seq<char>>, j: int) -> Option<int>
    decreases names.len() - j,
{
    if j < 0 || j >= names.len() {
        None
    } else if service_index(services, names[j]) is None {
        Some(j)
    } else {
        first_missing_from(services, names, j + 1)
    }
}

/// The message of the error that routing reports, if any.
pub open spec fn route_error(services: Seq<LocalService>, names: Seq<Seq<char>>, all: bool) -> Option<Seq<char>> {
    if names.len() == 0 && !all {
        Some("No service names provided"@)
    } else if all {
        None
    } else {
        match first_missing_from(services, names, 0) {
            Some(j) => Some(names[j]),
            None => None,
        }
    }
}

fn find_service(services: &Vec<LocalService>, name: &String) -> (r: Option<usize>)
    ensures
        match r {
            Some(k) => service_index(services@, name@) == Some(k as int),
            None => service_index(services@, name@) is None,
        },
{
    let mut i: usize = 0;
    while i < services.len()
        invariant
            i <= services@.len(),
            service_index(services@, name@) == service_index_from(services@, name@, i as int),
        decreases services@.len() - i,
    {
        if services[i].name == *name {
            return Some(i);
        }
        i = i + 1;
    }
    None
}

impl LocalState {
    /// Points the named services (or all of them) at `target`, as `linkup
    /// local` and `linkup remote` do. Nothing changes when a name is unknown or
    /// no name is given without `all`.
    pub fn route_services(&mut self, names: &[String], all: bool, target: ServiceTarget) -> (r: Result<(), StateError>)
        ensures
            match route_error(old(self).services@, string_views(names@), all) {
                Some(m) => (r matches Err(StateError::NoSuchService(x)) && x@ == m) && *final(self) == *old(self),
                None => r is Ok && final(self).services@ == routed_services(old(self).services@, string_views(names@), all, target)
                    && final(self).linkup == old(self).linkup && final(self).domains == old(self).domains,
            },
    {
        let ghost names_v = string_views(names@);
        let ghost orig = self.services@;
        if names.len() == 0 && !all {
            return Err(StateError::NoSuchService(String::from_str("No service names provided")));
        }
        let mut indices: Vec<usize> = Vec::new();
        if !all {
            let mut j: usize = 0;
            while j < names.len()
                invariant
                    j <= names@.len(),
                    !all,
                    names@.len() > 0,
                    *self == *old(self),
                    names_v == string_views(names@),
                    orig == self.services@,
                    first_missing_from(orig, names_v, 0) == first_missing_from(orig, names_v, j as int),
                    indices@.len() == j,
                    forall|t: int| 0 <= t < j ==> service_index(orig, names_v[t]) == Some(#[trigger] indices@[t] as int),
                decreases names@.len() - j,
            {
                assert(names_v[j as int] == names@[j as int]@);
                match find_service(&self.services, &names[j]) {
                    Some(k) => indices.push(k),
                    None => {
                        return Err(StateError::NoSuchService(names[j].clone()));
                    },
                }
                j = j + 1;
            }
            assert(first_missing_from(orig, names_v, names@.len() as int) is None);
        }
        let n = self.services.len();
        if all {
            let mut k: usize = 0;
            while k < n
                invariant
                    n == self.services@.len() == orig.len(),
                    self.linkup == old(self).linkup,
                    self.domains == old(self).domains,
                    k <= n,
                    all,
                    forall|t: int| 0 <= t < k ==> self.services@[t] == retarget(orig[t], target),
                    forall|t: int| k <= t < n ==> self.services@[t] == orig[t],
                decreases n - k,
            {
                self.services[k].current = target;
                k = k + 1;
            }
        } else {
            let mut t: usize = 0;
            while t < indices.len()
                invariant
                    n == self.services@.len() == orig.len(),
                    self.linkup == old(self).linkup,
                    self.domains == old(self).domains,
                    t <= indices@.len(),
                    indices@.len() == names@.len(),
                    names_v == string_views(names@),
                    forall|u: int| 0 <= u < indices@.len() ==> service_index(orig, names_v[u]) == Some(#[trigger] indices@[u] as int),
                    forall|k: int| 0 <= k < n ==> self.services@[k] == if exists|u: int| 0 <= u < t && #[trigger] indices@[u] == k {
                        retarget(orig[k], target)
                    } else {
                        orig[k]
                    },
                decreases indices@.len() - t,
            {
                let k = indices[t];
                assert(service_index_from(orig, names_v[t as int], 0) == Some(k as int));
                proof {
                    lemma_service_index_bounds(orig, names_v[t as int], 0);
                }
                self.services[k].current = target;
                assert forall|k2: int| 0 <= k2 < n implies self.services@[k2] == if exists|u: int| 0 <= u < t + 1 && #[trigger] indices@[u] == k2 {
                    retarget(orig[k2], target)
                } else {
                    orig[k2]
                } by {
                    if k2 == k {
                        assert(indices@[t as int] == k2);
                    } else if exists|u: int| 0 <= u < t + 1 && #[trigger] indices@[u] == k2 {
                        let u = choose|u: int| 0 <= u < t + 1 && #[trigger] indices@[u] == k2;
                        assert(u < t);
                    }
                }
                t = t + 1;
            }
            assert forall|k: int| 0 <= k < n implies (exists|u: int| 0 <= u < indices@.len() && #[trigger] indices@[u] == k) == is_routed(orig, names_v, all, k) by {
                if is_routed(orig, names_v, all, k) {
                    let j = choose|j: int| 0 <= j < names_v.len() && service_index(orig, #[trigger] names_v[j]) == Some(k);
                    assert(indices@[j] == k);
                }
            }
        }
        assert(self.services@ =~= routed_services(orig, names_v, all, target));
        Ok(())
    }
}

proof fn lemma_service_index_bounds(services: Seq<LocalService>, name: Seq<char>, i: int)
    ensures
        service_index_from(services, name, i) matches Some(k) ==> 0 <= k < services.len() && services[k].name@ == name,
    decreases services.len() - i,
{
    if !(i < 0 || i >= services.len()) && services[i].name@ != name {
        lemma_service_index_bounds(services, name, i + 1);
    }
}


proof fn lemma_routed_keeps_index(services: Seq<LocalService>, names: Seq<Seq<char>>, all: bool, target: ServiceTarget, name: Seq<char>, i: int)
    ensures
        service_index_from(routed_services(services, names, all, target), name, i) == service_index_from(services, name, i),
    decreases services.len() - i,
{
    if !(i < 0 || i >= services.len()) {
        lemma_routed_keeps_index(services, names, all, target, name, i + 1);
    }
}

proof fn lemma_routed_keeps_missing(services: Seq<LocalService>, names: Seq<Seq<char>>, all: bool, target: ServiceTarget, j: int)
    ensures
        first_missing_from(routed_services(services, names, all, target), names, j) == first_missing_from(services, names, j),
    decreases names.len() - j,
{
    if !(j < 0 || j >= names.len()) {
        lemma_routed_keeps_index(services, names, all, target, names[j], 0);
        lemma_routed_keeps_missing(services, names, all, target, j + 1);
    }
}

/// Routing the same services twice is the same as routing them once to the
/// second target: `linkup local web` then `linkup remote web` leaves every
/// service as `linkup remote web` alone would, and repeating a command
/// changes nothing. The second command fails exactly when the first one does.
pub proof fn lemma_route_twice(services: Seq<LocalService>, names: Seq<Seq<char>>, all: bool, first: ServiceTarget, second: ServiceTarget)
    ensures
        route_error(routed_services(services, names, all, first), names, all) == route_error(services, names, all),
        routed_services(routed_services(services, names, all, first), names, all, second) == routed_services(services, names, all, second),
{
    let once = routed_services(services, names, all, first);
    lemma_routed_keeps_missing(services, names, all, first, 0);
    assert forall|k: int| 0 <= k < services.len() implies is_routed(once, names, all, k) == is_routed(services, names, all, k) by {
        assert forall|j: int| 0 <= j < names.len() implies service_index(once, #[trigger] names[j]) == service_index(services, names[j]) by {
            lemma_routed_keeps_index(services, names, all, first, names[j], 0);
        }
    }
    assert(routed_services(once, names, all, second) =~= routed_services(services, names, all, second));
}

proof fn lemma_index_names_service(services: Seq<LocalService>, name: Seq<char>, i: int, k: int)
    requires
        service_index_from(services, name, i) == Some(k),
    ensures
        0 <= k < services.len(),
        services[k].name@ == name,
    decreases services.len() - i,
{
    if i >= 0 && i < services.len() && services[i].name@ != name {
        lemma_index_names_service(services, name, i + 1, k);
    }
}

proof fn lemma_first_of_name(services: Seq<LocalService>, name: Seq<char>, i: int, k: int)
    requires
        0 <= i <= k < services.len(),
        services[k].name@ == name,
        forall|m: int| 0 <= m < k ==> services[m].name@ != name,
    ensures
        service_index_from(services, name, i) == Some(k),
    decreases k - i,
{
    if i < k {
        lemma_first_of_name(services, name, i + 1, k);
    }
}

/// Routing named services (without `--all`) changes nothing but the target
/// of the first service of each given name, which then points at `target`;
/// every service whose name is not given stays exactly as it was, and no
/// service is added or dropped.
pub proof fn lemma_route_named_only(services: Seq<LocalService>, names: Seq<Seq<char>>, target: ServiceTarget, k: int)
    requires
        0 <= k < services.len(),
    ensures
        routed_services(services, names, false, target).len() == services.len(),
        !names.contains(services[k].name@) ==> routed_services(services, names, false, target)[k] == services[k],
        names.contains(services[k].name@) && (forall|m: int| 0 <= m < k ==> services[m].name@ != services[k].name@)
            ==> routed_services(services, names, false, target)[k] == (LocalService { current: target, ..services[k] }),
{
    if !names.contains(services[k].name@) {
        if is_routed(services, names, false, k) {
            let j = choose|j: int| 0 <= j < names.len() && service_index(services, #[trigger] names[j]) == Some(k);
            lemma_index_names_service(services, names[j], 0, k);
            assert(names[j] == services[k].name@);
        }
    }
    if names.contains(services[k].name@) && (forall|m: int| 0 <= m < k ==> services[m].name@ != services[k].name@) {
        let j = choose|j: int| 0 <= j < names.len() && names[j] == services[k].name@;
        lemma_first_of_name(services, names[j], 0, k);
        assert(service_index(services, names[j]) == Some(k));
    }
}

/// Routing is refused exactly when no name is given without `--all`, or,
/// without `--all`, some given name names no service; the refusal names the
/// first such name.
pub proof fn lemma_route_refusals(services: Seq<LocalService>, names: Seq<Seq<char>>, all: bool)
    ensures
        all ==> route_error(services, names, all) is None,
        !all && names.len() == 0 ==> route_error(services, names, all) == Some("No service names provided"@),
        !all && names.len() > 0 && (forall|j: int| 0 <= j < names.len() ==>
            exists|k: int| 0 <= k < services.len() && services[k].name@ == #[trigger] names[j])
            ==> route_error(services, names, all) is None,
        !all && (exists|j: int| 0 <= j < names.len() && forall|k: int| 0 <= k < services.len() ==> services[k].name@ != #[trigger] names[j])
            ==> route_error(services, names, all) is Some,
{
    if !all && names.len() > 0 {
        if forall|j: int| 0 <= j < names.len() ==>
            exists|k: int| 0 <= k < services.len() && services[k].name@ == #[trigger] names[j] {
            lemma_all_named_no_missing(services, names, 0);
        }
        if exists|j: int| 0 <= j < names.len() && forall|k: int| 0 <= k < services.len() ==> services[k].name@ != #[trigger] names[j] {
            let j = choose|j: int| 0 <= j < names.len() && forall|k: int| 0 <= k < services.len() ==> services[k].name@ != #[trigger] names[j];
            lemma_missing_found(services, names, 0, j);
        }
    }
}

proof fn lemma_unnamed_has_no_index(services: Seq<LocalService>, name: Seq<char>, i: int)
    requires
        forall|k: int| 0 <= k < services.len() ==> services[k].name@ != name,
    ensures
        service_index_from(services, name, i) is None,
    decreases services.len() - i,
{
    if 0 <= i < services.len() {
        lemma_unnamed_has_no_index(services, name, i + 1);
    }
}

proof fn lemma_named_has_index(services: Seq<LocalService>, name: Seq<char>, i: int, k: int)
    requires
        0 <= i <= k < services.len(),
        services[k].name@ == name,
    ensures
        service_index_from(services, name, i) is Some,
    decreases k - i,
{
    if i < k && services[i].name@ != name {
        lemma_named_has_index(services, name, i + 1, k);
    }
}

proof fn lemma_all_named_no_missing(services: Seq<LocalService>, names: Seq<Seq<char>>, j: int)
    requires
        0 <= j,
        forall|m: int| 0 <= m < names.len() ==>
            exists|k: int| 0 <= k < services.len() && services[k].name@ == #[trigger] names[m],
    ensures
        first_missing_from(services, names, j) is None,
    decreases names.len() - j,
{
    if j < names.len() {
        let k = choose|k: int| 0 <= k < services.len() && services[k].name@ == names[j];
        lemma_named_has_index(services, names[j], 0, k);
        lemma_all_named_no_missing(services, names, j + 1);
    }
}

proof fn lemma_missing_found(services: Seq<LocalService>, names: Seq<Seq<char>>, j: int, m: int)
    requires
        0 <= j <= m < names.len(),
        forall|k: int| 0 <= k < services.len() ==> services[k].name@ != names[m],
    ensures
        first_missing_from(services, names, j) is Some,
    decreases m - j,
{
    if j == m {
        lemma_unnamed_has_no_index(services, names[m], 0);
    } else if service_index(services, names[j]) is Some {
        lemma_missing_found(services, names, j + 1, m);
    }
}

/// With `--all`, every service points at `target` and keeps everything else.
pub proof fn lemma_route_all_targets(services: Seq<LocalService>, names: Seq<Seq<char>>, target: ServiceTarget, k: int)
    requires
        0 <= k < services.len(),
    ensures
        routed_services(services, names, true, target).len() == services.len(),
        routed_services(services, names, true, target)[k] == (LocalService { current: target, ..services[k] }),
{
}

/// `linkup local --all` and `linkup remote --all` point every service at the
/// target, and change nothing else of the services.
pub proof fn lemma_route_all(services: Seq<LocalService>, names: Seq<Seq<char>>, target: ServiceTarget)
    ensures
        route_error(services, names, true) is None,
        forall|k: int| 0 <= k < services.len() ==> #[trigger] routed_services(services, names, true, target)[k] == retarget(services[k], target),
{
}

/// Where a target sends traffic, in the routing message.
pub open spec fn place_of(target: ServiceTarget) -> Seq<char> {
    match target {
        ServiceTarget::Local => "local"@,
        ServiceTarget::Remote => "remote"@,
    }
}

/// The line printed once the services are routed.
pub open spec fn routing_message_text(names: Seq<Seq<char>>, all: bool, target: ServiceTarget) -> Seq<char> {
    if all {
        "Linkup is routing all traffic to the "@ + place_of(target) + " servers"@
    } else {
        "Linkup is routing "@ + join_spec(names, ", "@) + " traffic to the "@ + place_of(target) + " server"@
    }
}

/// The line printed once the named services (or all) are routed to `target`.
pub fn routing_message(names: &[String], all: bool, target: ServiceTarget) -> (r: String)
    ensures
        r@ == routing_message_text(string_views(names@), all, target),
{
    let place = match target {
        ServiceTarget::Local => "local",
        ServiceTarget::Remote => "remote",
    };
    proof {
        reveal_strlit("local");
        reveal_strlit("remote");
    }
    if all {
        let mut s = String::from_str("Linkup is routing all traffic to the ");
        s.append(place);
        s.append(" servers");
        s
    } else {
        let mut s = String::from_str("Linkup is routing ");
        let joined = join(names, ", ");
        assert(names@.map_values(|p: String| p@) =~= string_views(names@));
        s.append(joined.as_str());
        s.append(" traffic to the ");
        s.append(place);
        s.append(" server");
        s
    }
}

/// The contents of an optional list of strings.
pub open spec fn opt_string_views(o: Option<Vec<String>>) -> Option<Seq<Seq<char>>> {
    match o {
        Some(v) => Some(string_views(v@)),
        None => None,
    }
}

impl LocalState {
    /// Keeps the session of the previous state when there is one: its name and
    /// token, and its tunnel unless no tunnel is wanted or it had none.
    pub fn keep_previous_session(&mut self, previous: Option<LocalState>, no_tunnel: bool)
        ensures
            match previous {
                Some(p) => final(self).linkup == (LinkupState {
                    session_name: p.linkup.session_name,
                    session_token: p.linkup.session_token,
                    tunnel: if !no_tunnel && p.linkup.tunnel is Some {
                        p.linkup.tunnel
                    } else {
                        old(self).linkup.tunnel
                    },
                    ..old(self).linkup
                }),
                None => final(self).linkup == old(self).linkup,
            },
            final(self).domains == old(self).domains,
            final(self).services == old(self).services,
    {
        if let Some(ps) = previous {
            self.linkup.session_name = ps.linkup.session_name;
            self.linkup.session_token = ps.linkup.session_token;
            if !no_tunnel && ps.linkup.tunnel.is_some() {
                self.linkup.tunnel = ps.linkup.tunnel;
            }
        }
    }

    /// Whether traffic to local services goes through a tunnel.
    pub fn should_use_tunnel(&self) -> (r: bool)
        ensures
            r == self.linkup.tunnel is Some,
    {
        self.linkup.tunnel.is_some()
    }

    /// The names of the session's domains.
    pub fn domain_strings(&self) -> (r: Vec<String>)
        ensures
            string_views(r@) == self.domains@.map_values(|d: Domain| d.domain@),
    {
        let mut out: Vec<String> = Vec::new();
        let mut i: usize = 0;
        while i < self.domains.len()
            invariant
                i <= self.domains@.len(),
                string_views(out@) == self.domains@.take(i as int).map_values(|d: Domain| d.domain@),
            decreases self.domains@.len() - i,
        {
            let ghost prev = string_views(out@);
            out.push(self.domains[i].domain.clone());
            assert(string_views(out@) =~= prev.push(self.domains@[i as int].domain@));
            assert(self.domains@.take(i + 1) =~= self.domains@.take(i as int).push(self.domains@[i as int]));
            assert(string_views(out@) =~= self.domains@.take(i + 1).map_values(|d: Domain| d.domain@));
            i = i + 1;
        }
        assert(self.domains@.take(self.domains@.len() as int) =~= self.domains@);
        out
    }
}

impl LocalService {
    /// The URL the service's traffic currently goes to.
    pub fn current_url(&self) -> (r: String)
        ensures
            r@ == if self.current == ServiceTarget::Local {
                self.local@
            } else {
                self.remote@
            },
    {
        match self.current {
            ServiceTarget::Local => self.local.clone(),
            ServiceTarget::Remote => self.remote.clone(),
        }
    }
}


/// The `linkup` section of the config file.
pub struct LinkupConfig {
    pub worker_url: String,
    pub worker_token: String,
    pub cache_routes: Option<Vec<String>>,
}

/// A service of the config file.
pub struct YamlLocalService {
    pub name: String,
    pub remote: String,
    pub local: String,
    pub directory: Option<String>,
    pub rewrites: Option<Vec<Rewrite>>,
    pub health: Option<HealthConfig>,
}

/// The config file.
pub struct YamlLocalConfig {
    pub linkup: LinkupConfig,
    pub services: Vec<YamlLocalService>,
    pub domains: Vec<Domain>,
}

/// The serialized URL a new state's tunnel points at until the tunnel is up.
pub open spec fn tunnel_placeholder() -> Seq<char> {
    "http://tunnel-not-yet-set/"@
}

/// `s` is the state entry of the configured service `y`: same fields (its
/// health check included), routed to the remote, no rewrites when none are
/// configured.
pub open spec fn service_from_config(y: YamlLocalService, s: LocalService) -> bool {
    &&& s.name == y.name
    &&& s.remote == y.remote
    &&& s.local == y.local
    &&& s.current == ServiceTarget::Remote
    &&& s.directory == y.directory
    &&& s.health == y.health
    &&& match y.rewrites {
        Some(v) => s.rewrites == v,
        None => s.rewrites@.len() == 0,
    }
}

/// `r` is the state a session starts from with this config, config path,
/// tunnel choice and session token.
pub open spec fn state_from_config(r: LocalState, config: YamlLocalConfig, config_path: String, no_tunnel: bool, token: String) -> bool {
    &&& r.linkup.session_name@.len() == 0
    &&& r.linkup.session_token == token
    &&& r.linkup.worker_token == config.linkup.worker_token
    &&& r.linkup.worker_url == config.linkup.worker_url
    &&& r.linkup.config_path == config_path
    &&& r.linkup.cache_routes == config.linkup.cache_routes
    &&& (if no_tunnel {
        r.linkup.tunnel is None
    } else {
        r.linkup.tunnel matches Some(t) && t@ == tunnel_placeholder()
    })
    &&& r.domains == config.domains
    &&& r.services@.len() == config.services@.len()
    &&& forall|i: int| 0 <= i < r.services@.len() ==> service_from_config(config.services@[i], #[trigger] r.services@[i])
}

fn service_of(y: YamlLocalService) -> (s: LocalService)
    ensures
        service_from_config(y, s),
{
    let rewrites = match y.rewrites {
        Some(v) => v,
        None => Vec::new(),
    };
    LocalService {
        name: y.name,
        remote: y.remote,
        local: y.local,
        current: ServiceTarget::Remote,
        directory: y.directory,
        rewrites,
        health: y.health,
    }
}

/// The state a new session starts from: every service routed to its remote,
/// an empty session name, the given session token, and a placeholder tunnel
/// unless no tunnel is wanted.
pub fn config_to_state_with_token(config: YamlLocalConfig, config_path: String, no_tunnel: bool, token: String) -> (r: LocalState)
    ensures
        state_from_config(r, config, config_path, no_tunnel, token),
{
    let ghost orig = config;
    let tunnel = if no_tunnel {
        None
    } else {
        Some(String::from_str("http://tunnel-not-yet-set/"))
    };
    let YamlLocalConfig { linkup, services, domains } = config;
    let mut rest = services;
    let mut out: Vec<LocalService> = Vec::new();
    let n = rest.len();
    while rest.len() > 0
        invariant
            out@.len() + rest@.len() == n == orig.services@.len(),
            rest@ == orig.services@.skip(out@.len() as int),
            forall|i: int| 0 <= i < out@.len() ==> service_from_config(orig.services@[i], #[trigger] out@[i]),
        decreases rest@.len(),
    {
        let ghost k: int = out@.len() as int;
        let y = rest.remove(0);
        assert(y == orig.services@[k]);
        out.push(service_of(y));
        assert(rest@ =~= orig.services@.skip(k + 1));
    }
    LocalState {
        linkup: LinkupState {
            session_name: String::new(),
            session_token: token,
            worker_url: linkup.worker_url,
            worker_token: linkup.worker_token,
            config_path,
            tunnel,
            cache_routes: linkup.cache_routes,
        },
        domains,
        services: out,
    }
}

/// A new session starts with every configured service, in the config's
/// order, pointing at its remote URL, with the config's name, URLs,
/// directory and health check; with no session name; and with the tunnel
/// left unset only when no tunnel is wanted.
pub proof fn lemma_new_state_routes_remote(r: LocalState, config: YamlLocalConfig, config_path: String,
    no_tunnel: bool, token: String, i: int)
    requires
        state_from_config(r, config, config_path, no_tunnel, token),
        0 <= i < config.services@.len(),
    ensures
        r.services@.len() == config.services@.len(),
        r.services@[i].current == ServiceTarget::Remote,
        r.services@[i].name == config.services@[i].name,
        r.services@[i].remote == config.services@[i].remote,
        r.services@[i].local == config.services@[i].local,
        r.services@[i].directory == config.services@[i].directory,
        r.services@[i].health == config.services@[i].health,
        r.linkup.session_name@.len() == 0,
        r.linkup.session_token == token,
        r.linkup.tunnel is None <==> no_tunnel,
{
    assert(service_from_config(config.services@[i], r.services@[i]));
}

/// ASCII letters and digits.
pub open spec fn is_ascii_alphanumeric(c: char) -> bool {
    ('a' <= c <= 'z') || ('A' <= c <= 'Z') || ('0' <= c <= '9')
}

/// A fresh session token: sixteen characters drawn with `rand::rng()` from
/// `rand::distr::Alphanumeric`, which the rand documentation describes as
/// ASCII letters and digits. Nothing is claimed of which ones are drawn.
#[verifier::external_body]
fn random_session_token() -> (r: String)
    ensures
        r@.len() == 16,
        forall|i: int| 0 <= i < 16 ==> is_ascii_alphanumeric(#[trigger] r@[i]),
{
    rand::rng().sample_iter(rand::distr::Alphanumeric).take(16).map(char::from).collect()
}

/// The state a new session starts from, with a fresh random session token.
pub fn config_to_state(config: YamlLocalConfig, config_path: String, no_tunnel: bool) -> (r: LocalState)
    ensures
        state_from_config(r, config, config_path, no_tunnel, r.linkup.session_token),
        r.linkup.session_token@.len() == 16,
        forall|i: int| 0 <= i < 16 ==> is_ascii_alphanumeric(#[trigger] r.linkup.session_token@[i]),
{
    let token = random_session_token();
    config_to_state_with_token(config, config_path, no_tunnel, token)
}


/// The URL traffic to local services is sent to from the remote server: the
/// tunnel, or the worker's `/linkup/no-tunnel` page when there is none.
pub open spec fn tunnel_url_of(state: LocalState) -> Option<Seq<char>> {
    match state.linkup.tunnel {
        Some(t) => Some(t@),
        None => url_set_path(state.linkup.worker_url@, "/linkup/no-tunnel"@),
    }
}

impl LocalState {
    /// The URL the remote server sends traffic of local services to. `None`
    /// only where there is no tunnel and the worker URL does not parse.
    pub fn get_tunnel_url(&self) -> (r: Option<String>)
        ensures
            opt_view(r) == tunnel_url_of(*self),
    {
        match &self.linkup.tunnel {
            Some(url) => Some(url.clone()),
            None => set_url_path(self.linkup.worker_url.as_str(), "/linkup/no-tunnel"),
        }
    }
}

/// A service as a linkup server stores it.
pub struct StorableService {
    pub name: String,
    pub location: String,
    pub rewrites: Option<Vec<Rewrite>>,
}

/// The contents of a stored service: name, location and rewrites.
pub type StorableServiceView = (Seq<char>, Seq<char>, Option<Seq<(Seq<char>, Seq<char>)>>);

impl View for StorableService {
    type V = StorableServiceView;

    open spec fn view(&self) -> StorableServiceView {
        (self.name@, self.location@, match self.rewrites {
            Some(v) => Some(rewrite_views(v@)),
            None => None,
        })
    }
}

/// A session as a linkup server stores it.
pub struct StorableSession {
    pub session_token: String,
    pub services: Vec<StorableService>,
    pub domains: Vec<Domain>,
    pub cache_routes: Option<Vec<String>>,
}

/// The contents of a stored session.
pub struct StorableSessionView {
    pub session_token: Seq<char>,
    pub services: Seq<StorableServiceView>,
    pub domains: Seq<DomainView>,
    pub cache_routes: Option<Seq<Seq<char>>>,
}

impl View for StorableSession {
    type V = StorableSessionView;

    open spec fn view(&self) -> StorableSessionView {
        StorableSessionView {
            session_token: self.session_token@,
            services: self.services@.map_values(|s: StorableService| s@),
            domains: domain_views(self.domains@),
            cache_routes: opt_string_views(self.cache_routes),
        }
    }
}

/// What is uploaded to the local and to the remote linkup server.
pub struct ServerConfig {
    pub local: StorableSession,
    pub remote: StorableSession,
}

/// How the local server stores a service: at its current target.
pub open spec fn local_entry(s: LocalService) -> StorableServiceView {
    (s.name@, if s.current == ServiceTarget::Remote { s.remote@ } else { s.local@ }, Some(rewrite_views(s.rewrites@)))
}

/// How the remote server stores a service: at its remote, or at the tunnel
/// when it runs locally.
pub open spec fn remote_entry(s: LocalService, tunnel: Seq<char>) -> StorableServiceView {
    (s.name@, if s.current == ServiceTarget::Remote { s.remote@ } else { tunnel }, Some(rewrite_views(s.rewrites@)))
}

/// The stored session of `state` with the given services.
pub open spec fn session_view(state: LocalState, services: Seq<StorableServiceView>) -> StorableSessionView {
    StorableSessionView {
        session_token: state.linkup.session_token@,
        services,
        domains: domain_views(state.domains@),
        cache_routes: opt_string_views(state.linkup.cache_routes),
    }
}

/// Some service of the state runs locally.
pub open spec fn has_local_service(state: LocalState) -> bool {
    exists|i: int| 0 <= i < state.services@.len() && (#[trigger] state.services@[i]).current == ServiceTarget::Local
}

/// The tunnel URL used for the remote entries (unused where it is `None`).
pub open spec fn tunnel_or_empty(state: LocalState) -> Seq<char> {
    match tunnel_url_of(state) {
        Some(t) => t,
        None => Seq::empty(),
    }
}

fn copy_opt_strings(o: &Option<Vec<String>>) -> (r: Option<Vec<String>>)
    ensures
        opt_string_views(r) == opt_string_views(*o),
{
    match o {
        Some(v) => Some(copy_strings(v)),
        None => None,
    }
}

fn stored_session(state: &LocalState, services: Vec<StorableService>) -> (r: StorableSession)
    ensures
        r@ == session_view(*state, services@.map_values(|s: StorableService| s@)),
{
    StorableSession {
        session_token: state.linkup.session_token.clone(),
        services,
        domains: copy_domains(&state.domains),
        cache_routes: copy_opt_strings(&state.linkup.cache_routes),
    }
}

impl ServerConfig {
    /// The sessions uploaded to the local and the remote server. The local
    /// server sends each service to its current target; the remote server
    /// sends local services to the tunnel. `None` where a service runs
    /// locally and there is no tunnel URL.
    pub fn from_state(state: &LocalState) -> (r: Option<ServerConfig>)
        ensures
            r is None <==> (tunnel_url_of(*state) is None && has_local_service(*state)),
            r matches Some(c) ==> {
                &&& c.local@ == session_view(*state, state.services@.map_values(|s: LocalService| local_entry(s)))
                &&& c.remote@ == session_view(*state, state.services@.map_values(|s: LocalService| remote_entry(s, tunnel_or_empty(*state))))
            },
    {
        let tunnel = state.get_tunnel_url();
        let ghost t = tunnel_or_empty(*state);
        let mut local: Vec<StorableService> = Vec::new();
        let mut remote: Vec<StorableService> = Vec::new();
        let mut i: usize = 0;
        while i < state.services.len()
            invariant
                i <= state.services@.len(),
                opt_view(tunnel) == tunnel_url_of(*state),
                t == tunnel_or_empty(*state),
                tunnel is None ==> forall|j: int| 0 <= j < i ==> (#[trigger] state.services@[j]).current == ServiceTarget::Remote,
                local@.map_values(|s: StorableService| s@) == state.services@.take(i as int).map_values(|s: LocalService| local_entry(s)),
                remote@.map_values(|s: StorableService| s@) == state.services@.take(i as int).map_values(|s: LocalService| remote_entry(s, t)),
            decreases state.services@.len() - i,
        {
            let s = &state.services[i];
            let remote_location = if s.current == ServiceTarget::Remote {
                s.remote.clone()
            } else {
                match &tunnel {
                    Some(u) => u.clone(),
                    None => {
                        assert(state.services@[i as int].current == ServiceTarget::Local);
                        return None;
                    },
                }
            };
            let local_location = if s.current == ServiceTarget::Remote {
                s.remote.clone()
            } else {
                s.local.clone()
            };
            let ghost lprev = local@.map_values(|x: StorableService| x@);
            let ghost rprev = remote@.map_values(|x: StorableService| x@);
            local.push(StorableService { name: s.name.clone(), location: local_location, rewrites: Some(copy_rewrites(&s.rewrites)) });
            remote.push(StorableService { name: s.name.clone(), location: remote_location, rewrites: Some(copy_rewrites(&s.rewrites)) });
            assert(local@.map_values(|x: StorableService| x@) =~= lprev.push(local_entry(state.services@[i as int])));
            assert(remote@.map_values(|x: StorableService| x@) =~= rprev.push(remote_entry(state.services@[i as int], t)));
            assert(state.services@.take(i + 1) =~= state.services@.take(i as int).push(state.services@[i as int]));
            i = i + 1;
        }
        assert(state.services@.take(state.services@.len() as int) =~= state.services@);
        Some(ServerConfig { local: stored_session(state, local), remote: stored_session(state, remote) })
    }
}


/// What the servers are told of a service: both keep its name and rewrites;
/// the local server sends it to the URL of its current target; the remote
/// server sends a remote service to its remote URL and a local one to the
/// session's tunnel.
pub proof fn lemma_server_entries(state: LocalState, i: int, t: Seq<char>)
    requires
        0 <= i < state.services@.len(),
        tunnel_url_of(state) == Some(t),
    ensures
        local_entry(state.services@[i]).0 == state.services@[i].name@,
        remote_entry(state.services@[i], tunnel_or_empty(state)).0 == state.services@[i].name@,
        local_entry(state.services@[i]).2 == Some(state.services@[i].rewrites@.map_values(|r: Rewrite| (r.source@, r.target@))),
        state.services@[i].current == ServiceTarget::Remote ==> local_entry(state.services@[i]).1 == state.services@[i].remote@,
        state.services@[i].current == ServiceTarget::Local ==> local_entry(state.services@[i]).1 == state.services@[i].local@,
        state.services@[i].current == ServiceTarget::Remote
            ==> remote_entry(state.services@[i], tunnel_or_empty(state)).1 == state.services@[i].remote@,
        state.services@[i].current == ServiceTarget::Local
            ==> remote_entry(state.services@[i], tunnel_or_empty(state)).1 == t,
{
    assert(rewrite_views(state.services@[i].rewrites@) =~= state.services@[i].rewrites@.map_values(|r: Rewrite| (r.source@, r.target@)));
}

/// The local and the remote server get the same services in the same order,
/// with the same rewrites; they differ only in where a service running
/// locally is sent (its local URL, or the tunnel).
pub proof fn lemma_server_sessions_agree(state: LocalState, tunnel: Seq<char>, i: int)
    requires
        0 <= i < state.services@.len(),
    ensures
        local_entry(state.services@[i]).0 == remote_entry(state.services@[i], tunnel).0,
        local_entry(state.services@[i]).2 == remote_entry(state.services@[i], tunnel).2,
        state.services@[i].current == ServiceTarget::Remote ==> local_entry(state.services@[i]) == remote_entry(state.services@[i], tunnel),
        state.services@[i].current == ServiceTarget::Local ==> remote_entry(state.services@[i], tunnel).1 == tunnel
            && local_entry(state.services@[i]).1 == state.services@[i].local@,
{
}

} // verus!
