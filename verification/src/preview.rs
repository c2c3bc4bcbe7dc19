//! Preview sessions: a session of the configured services in which some of
//! them point at URLs given on the command line.
use vstd::prelude::*;
use vstd::string::StringExecFns;
use crate::domains::{Domain, DomainView, domain_views, copy_domains, copy_strings, string_views};
use crate::state::{
    YamlLocalConfig, YamlLocalService, StorableService, StorableServiceView, Rewrite,
    rewrite_views, copy_rewrites, opt_string_views,
};
use crate::text::str_eq;
use crate::urls::{opt_view, parse_url, url_parse, join_url, url_join};

verus! {

/// The index of the first `c` in `s` at or after `i`.
pub open spec fn index_of_from(s: Seq<char>, c: char, i: int) -> Option<int>
    decreases s.len() - i,
{
    if i < 0 || i >= s.len() {
        None
    } else if s[i] == c {
        Some(i)
    } else {
        index_of_from(s, c, i + 1)
    }
}

/// `s` split at its first `c` (`str::split_once`), or `None` where it has none.
pub open spec fn split_once_spec(s: Seq<char>, c: char) -> Option<(Seq<char>, Seq<char>)> {
    match index_of_from(s, c, 0) {
        Some(p) => Some((s.take(p), s.skip(p + 1))),
        None => None,
    }
}

proof fn lemma_first_separator(s: Seq<char>, c: char, p: int, k: int)
    requires
        0 <= k <= p < s.len(),
        s[p] == c,
        forall|i: int| 0 <= i < p ==> s[i] != c,
    ensures
        index_of_from(s, c, k) == Some(p),
    decreases p - k,
{
    if k < p {
        lemma_first_separator(s, c, p, k + 1);
    }
}

/// A parameter written `name=url`, where the name holds no `=`, splits back
/// into that name and that URL.
pub proof fn lemma_param_roundtrip(name: Seq<char>, url: Seq<char>)
    requires
        forall|i: int| 0 <= i < name.len() ==> name[i] != '=',
    ensures
        split_once_spec(name + "="@ + url, '=') == Some((name, url)),
{
    reveal_strlit("=");
    let s = name + "="@ + url;
    assert(s[name.len() as int] == '=');
    assert forall|i: int| 0 <= i < name.len() implies s[i] != '=' by {
        assert(s[i] == name[i]);
    }
    lemma_first_separator(s, '=', name.len() as int, 0);
    assert(s.take(name.len() as int) =~= name);
    assert(s.skip(name.len() as int + 1) =~= url);
}

/// The contents of a list of string pairs.
pub open spec fn pair_views(s: Seq<(String, String)>) -> Seq<(Seq<char>, Seq<char>)> {
    s.map_values(|p: (String, String)| (p.0@, p.1@))
}

/// The `name=url` parameters of a preview, in order; an item without `=` is
/// left out.
pub open spec fn preview_params_spec(items: Seq<Seq<char>>) -> Seq<(Seq<char>, Seq<char>)>
    decreases items.len(),
{
    if items.len() == 0 {
        Seq::empty()
    } else {
        let rest = preview_params_spec(items.drop_last());
        match split_once_spec(items.last(), '=') {
            Some(p) => rest.push(p),
            None => rest,
        }
    }
}

/// `s` split at its first `c`.
pub fn split_once(s: &str, c: char) -> (r: Option<(String, String)>)
    ensures
        match r {
            Some(p) => split_once_spec(s@, c) == Some((p.0@, p.1@)),
            None => split_once_spec(s@, c) is None,
        },
{
    let n = s.unicode_len();
    let mut i: usize = 0;
    while i < n
        invariant
            n == s@.len(),
            i <= n,
            index_of_from(s@, c, 0) == index_of_from(s@, c, i as int),
        decreases n - i,
    {
        if s.get_char(i) == c {
            let head = String::from_str(s.substring_char(0, i));
            let tail = String::from_str(s.substring_char(i + 1, n));
            assert(head@ =~= s@.take(i as int));
            assert(tail@ =~= s@.skip(i + 1));
            return Some((head, tail));
        }
        i = i + 1;
    }
    None
}

/// The `name=url` parameters of a preview, each split at its first `=`; an
/// item without `=` is left out.
pub fn preview_params(items: &[String]) -> (r: Vec<(String, String)>)
    ensures
        pair_views(r@) == preview_params_spec(string_views(items@)),
{
    let mut out: Vec<(String, String)> = Vec::new();
    let mut i: usize = 0;
    while i < items.len()
        invariant
            i <= items@.len(),
            pair_views(out@) == preview_params_spec(string_views(items@.take(i as int))),
        decreases items@.len() - i,
    {
        let ghost prev = pair_views(out@);
        let ghost sv = string_views(items@.take(i + 1));
        assert(sv.drop_last() =~= string_views(items@.take(i as int)));
        assert(sv.last() == items@[i as int]@);
        match split_once(items[i].as_str(), '=') {
            Some(p) => {
                out.push(p);
                assert(pair_views(out@) =~= prev.push(pair_views(out@).last()));
            },
            None => {},
        }
        i = i + 1;
    }
    assert(items@.take(items@.len() as int) =~= items@);
    out
}

/// The index of the last parameter below `n` that names `name`.
pub open spec fn last_param_for(params: Seq<(Seq<char>, Seq<char>)>, name: Seq<char>, n: int) -> Option<int>
    decreases n,
{
    if n <= 0 {
        None
    } else if params[n - 1].0 == name {
        Some(n - 1)
    } else {
        last_param_for(params, name, n - 1)
    }
}

/// Every parameter below `n` that names `name` holds a URL that parses.
pub open spec fn params_parse(params: Seq<(Seq<char>, Seq<char>)>, name: Seq<char>, n: int) -> bool {
    forall|j: int| 0 <= j < n && #[trigger] params[j].0 == name ==> url_parse(params[j].1) is Some
}

/// Where the preview sends a service: the URL of the last parameter that
/// names it, or else its remote.
pub open spec fn preview_location(remote: Seq<char>, params: Seq<(Seq<char>, Seq<char>)>, name: Seq<char>) -> Seq<char> {
    match last_param_for(params, name, params.len() as int) {
        Some(j) => url_parse(params[j].1).unwrap(),
        None => remote,
    }
}

proof fn lemma_last_param_for(params: Seq<(Seq<char>, Seq<char>)>, name: Seq<char>, n: int, j: int)
    requires
        0 <= j < n <= params.len(),
        params[j].0 == name,
        forall|m: int| j < m < n ==> params[m].0 != name,
    ensures
        last_param_for(params, name, n) == Some(j),
    decreases n,
{
    if n - 1 > j {
        lemma_last_param_for(params, name, n - 1, j);
    }
}

proof fn lemma_no_param_for(params: Seq<(Seq<char>, Seq<char>)>, name: Seq<char>, n: int)
    requires
        0 <= n <= params.len(),
        forall|m: int| 0 <= m < n ==> params[m].0 != name,
    ensures
        last_param_for(params, name, n) is None,
    decreases n,
{
    if n > 0 {
        lemma_no_param_for(params, name, n - 1);
    }
}

/// A preview sends a service to the URL of the last parameter that names it,
/// as `url::Url` serializes it, and to its remote URL when no parameter names
/// it.
pub proof fn lemma_preview_location_last_wins(remote: Seq<char>, params: Seq<(Seq<char>, Seq<char>)>, name: Seq<char>, j: int)
    ensures
        (0 <= j < params.len() && params[j].0 == name && forall|m: int| j < m < params.len() ==> params[m].0 != name)
            ==> preview_location(remote, params, name) == url_parse(params[j].1).unwrap(),
        (forall|m: int| 0 <= m < params.len() ==> params[m].0 != name) ==> preview_location(remote, params, name) == remote,
{
    if 0 <= j < params.len() && params[j].0 == name && forall|m: int| j < m < params.len() ==> params[m].0 != name {
        lemma_last_param_for(params, name, params.len() as int, j);
    }
    if forall|m: int| 0 <= m < params.len() ==> params[m].0 != name {
        lemma_no_param_for(params, name, params.len() as int);
    }
}

/// The stored service a preview makes of a configured one.
pub open spec fn preview_service(y: YamlLocalService, params: Seq<(Seq<char>, Seq<char>)>) -> StorableServiceView {
    (y.name@, preview_location(y.remote@, params, y.name@), match y.rewrites {
        Some(v) => Some(rewrite_views(v@)),
        None => None,
    })
}

/// Every parameter that names a configured service holds a URL that parses.
pub open spec fn preview_params_parse(config: YamlLocalConfig, params: Seq<(Seq<char>, Seq<char>)>) -> bool {
    forall|k: int| 0 <= k < config.services@.len() ==> params_parse(params, #[trigger] config.services@[k].name@, params.len() as int)
}

/// What is sent to the remote server to create a preview.
pub struct CreatePreviewRequest {
    pub services: Vec<StorableService>,
    pub domains: Vec<Domain>,
    pub cache_routes: Option<Vec<String>>,
}

/// The contents of a preview request.
pub struct CreatePreviewRequestView {
    pub services: Seq<StorableServiceView>,
    pub domains: Seq<DomainView>,
    pub cache_routes: Option<Seq<Seq<char>>>,
}

impl View for CreatePreviewRequest {
    type V = CreatePreviewRequestView;

    open spec fn view(&self) -> CreatePreviewRequestView {
        CreatePreviewRequestView {
            services: self.services@.map_values(|s: StorableService| s@),
            domains: domain_views(self.domains@),
            cache_routes: opt_string_views(self.cache_routes),
        }
    }
}

/// The preview request of a config with the given parameters.
pub open spec fn preview_request_spec(config: YamlLocalConfig, params: Seq<(Seq<char>, Seq<char>)>) -> CreatePreviewRequestView {
    CreatePreviewRequestView {
        services: config.services@.map_values(|y: YamlLocalService| preview_service(y, params)),
        domains: domain_views(config.domains@),
        cache_routes: opt_string_views(config.linkup.cache_routes),
    }
}

fn copy_opt_rewrites(o: &Option<Vec<Rewrite>>) -> (r: Option<Vec<Rewrite>>)
    ensures
        match (r, *o) {
            (Some(a), Some(b)) => rewrite_views(a@) == rewrite_views(b@),
            (None, None) => true,
            _ => false,
        },
{
    match o {
        Some(v) => Some(copy_rewrites(v)),
        None => None,
    }
}

fn copy_opt_strings(o: &Option<Vec<String>>) -> (r: Option<Vec<String>>)
    ensures
        opt_string_views(r) == opt_string_views(*o),
{
    match o {
        Some(v) => Some(copy_strings(v)),
        None => None,
    }
}

/// The location of the service `name` with remote `remote`, or `None` where a
/// parameter that names it holds a URL that does not parse.
fn location_of(name: &String, remote: &String, params: &[(String, String)]) -> (r: Option<String>)
    ensures
        r is Some <==> params_parse(pair_views(params@), name@, params@.len() as int),
        r matches Some(l) ==> l@ == preview_location(remote@, pair_views(params@), name@),
{
    let ghost pv = pair_views(params@);
    let mut location = remote.clone();
    let mut i: usize = 0;
    while i < params.len()
        invariant
            i <= params@.len(),
            pv == pair_views(params@),
            params_parse(pv, name@, i as int),
            location@ == match last_param_for(pv, name@, i as int) {
                Some(j) => url_parse(pv[j].1).unwrap(),
                None => remote@,
            },
        decreases params@.len() - i,
    {
        assert(pv[i as int] == (params@[i as int].0@, params@[i as int].1@));
        if str_eq(params[i].0.as_str(), name.as_str()) {
            match parse_url(params[i].1.as_str()) {
                Some(u) => {
                    location = u;
                },
                None => {
                    assert(pv[i as int].0 == name@ && url_parse(pv[i as int].1) is None);
                    return None;
                },
            }
        }
        assert(params_parse(pv, name@, i + 1)) by {
            assert forall|j: int| 0 <= j < i + 1 && #[trigger] pv[j].0 == name@ implies url_parse(pv[j].1) is Some by {
                if j < i {
                    assert(params_parse(pv, name@, i as int));
                }
            }
        }
        i = i + 1;
    }
    Some(location)
}

impl YamlLocalConfig {
    /// The request that creates a preview of this config in which each
    /// service named by a parameter points at the URL of the last such
    /// parameter. `None` exactly where a parameter that names a configured
    /// service holds a URL that does not parse.
    pub fn create_preview_request(&self, services: &[(String, String)]) -> (r: Option<CreatePreviewRequest>)
        ensures
            r is Some <==> preview_params_parse(*self, pair_views(services@)),
            r matches Some(req) ==> req@ == preview_request_spec(*self, pair_views(services@)),
    {
        let ghost pv = pair_views(services@);
        let mut out: Vec<StorableService> = Vec::new();
        let mut k: usize = 0;
        while k < self.services.len()
            invariant
                k <= self.services@.len(),
                pv == pair_views(services@),
                forall|m: int| 0 <= m < k ==> params_parse(pv, #[trigger] self.services@[m].name@, pv.len() as int),
                out@.map_values(|s: StorableService| s@)
                    == self.services@.take(k as int).map_values(|y: YamlLocalService| preview_service(y, pv)),
            decreases self.services@.len() - k,
        {
            let y = &self.services[k];
            let location = match location_of(&y.name, &y.remote, services) {
                Some(l) => l,
                None => {
                    assert(!params_parse(pv, self.services@[k as int].name@, pv.len() as int));
                    return None;
                },
            };
            let ghost prev = out@.map_values(|s: StorableService| s@);
            out.push(StorableService { name: y.name.clone(), location, rewrites: copy_opt_rewrites(&y.rewrites) });
            assert(out@.map_values(|s: StorableService| s@) =~= prev.push(preview_service(self.services@[k as int], pv)));
            assert(self.services@.take(k + 1) =~= self.services@.take(k as int).push(self.services@[k as int]));
            k = k + 1;
        }
        assert(self.services@.take(self.services@.len() as int) =~= self.services@);
        Some(CreatePreviewRequest {
            services: out,
            domains: copy_domains(&self.domains),
            cache_routes: copy_opt_strings(&self.linkup.cache_routes),
        })
    }
}

/// The endpoint of the remote server that creates previews: `/preview`
/// joined onto its URL; `None` where that URL does not parse.
pub fn preview_endpoint(worker_url: &str) -> (r: Option<String>)
    ensures
        opt_view(r) == url_join(worker_url@, "/preview"@),
{
    join_url(worker_url, "/preview")
}

} // verus!
