//! The domains a linkup session serves, and the URLs a session is reached at.
use vstd::prelude::*;
use vstd::string::StringExecFns;
use crate::text::{ends_with, seq_ends_with, seq_starts_with, strip_prefix};

verus! {

broadcast use vstd::seq_lib::group_seq_properties;

/// A path rule of a domain: requests whose path matches `path` go to `service`.
pub struct Route {
    pub path: String,
    pub service: String,
}

/// A domain of the configured system and the services that serve it.
pub struct Domain {
    pub domain: String,
    pub default_service: String,
    pub routes: Option<Vec<Route>>,
}

impl View for Route {
    type V = (Seq<char>, Seq<char>);

    open spec fn view(&self) -> (Seq<char>, Seq<char>) {
        (self.path@, self.service@)
    }
}

/// The content of a domain entry.
pub struct DomainView {
    pub domain: Seq<char>,
    pub default_service: Seq<char>,
    pub routes: Option<Seq<(Seq<char>, Seq<char>)>>,
}

impl View for Domain {
    type V = DomainView;

    open spec fn view(&self) -> DomainView {
        DomainView {
            domain: self.domain@,
            default_service: self.default_service@,
            routes: match self.routes {
                Some(r) => Some(r@.map_values(|x: Route| x@)),
                None => None,
            },
        }
    }
}

/// The contents of a list of domains.
pub open spec fn domain_views(s: Seq<Domain>) -> Seq<DomainView> {
    s.map_values(|d: Domain| d@)
}

impl Route {
    /// A copy of the route.
    pub fn duplicate(&self) -> (r: Route)
        ensures
            r@ == self@,
    {
        Route { path: self.path.clone(), service: self.service.clone() }
    }
}

impl Domain {
    /// A copy of the domain entry.
    pub fn duplicate(&self) -> (r: Domain)
        ensures
            r@ == self@,
    {
        let routes = match &self.routes {
            Some(rs) => {
                let mut out: Vec<Route> = Vec::new();
                let mut i: usize = 0;
                while i < rs.len()
                    invariant
                        i <= rs@.len(),
                        out@.map_values(|x: Route| x@) == rs@.take(i as int).map_values(|x: Route| x@),
                    decreases rs@.len() - i,
                {
                    let ghost prev = out@.map_values(|x: Route| x@);
                    out.push(rs[i].duplicate());
                    assert(out@.map_values(|x: Route| x@) =~= prev.push(rs@[i as int]@));
                    assert(rs@.take(i + 1) =~= rs@.take(i as int).push(rs@[i as int]));
                    assert(out@.map_values(|x: Route| x@) =~= rs@.take(i + 1).map_values(|x: Route| x@));
                    i = i + 1;
                }
                assert(rs@.take(rs@.len() as int) =~= rs@);
                Some(out)
            },
            None => None,
        };
        Domain { domain: self.domain.clone(), default_service: self.default_service.clone(), routes }
    }
}

/// A copy of a list of domains.
pub fn copy_domains(domains: &Vec<Domain>) -> (r: Vec<Domain>)
    ensures
        domain_views(r@) == domain_views(domains@),
{
    let mut out: Vec<Domain> = Vec::new();
    let mut i: usize = 0;
    while i < domains.len()
        invariant
            i <= domains@.len(),
            domain_views(out@) == domain_views(domains@.take(i as int)),
        decreases domains@.len() - i,
    {
        let ghost prev = domain_views(out@);
        out.push(domains[i].duplicate());
        assert(domain_views(out@) =~= prev.push(domains@[i as int]@));
        assert(domains@.take(i + 1) =~= domains@.take(i as int).push(domains@[i as int]));
        assert(domain_views(out@) =~= domain_views(domains@.take(i + 1)));
        i = i + 1;
    }
    assert(domains@.take(domains@.len() as int) =~= domains@);
    out
}

/// A copy of a list of strings.
pub fn copy_strings(v: &Vec<String>) -> (r: Vec<String>)
    ensures
        string_views(r@) == string_views(v@),
{
    let mut out: Vec<String> = Vec::new();
    let mut i: usize = 0;
    while i < v.len()
        invariant
            i <= v@.len(),
            string_views(out@) == string_views(v@.take(i as int)),
        decreases v@.len() - i,
    {
        let ghost prev = string_views(out@);
        out.push(v[i].clone());
        assert(string_views(out@) =~= prev.push(v@[i as int]@));
        assert(v@.take(i + 1) =~= v@.take(i as int).push(v@[i as int]));
        assert(string_views(out@) =~= string_views(v@.take(i + 1)));
        i = i + 1;
    }
    assert(v@.take(v@.len() as int) =~= v@);
    out
}

/// The character sequences of a sequence of strings.
pub open spec fn string_views(s: Seq<String>) -> Seq<Seq<char>> {
    s.map_values(|x: String| x@)
}

/// The domain names of a sequence of domains.
pub open spec fn domain_names(s: Seq<Domain>) -> Seq<Seq<char>> {
    s.map_values(|d: Domain| d.domain@)
}

/// `d` is a subdomain of `o`: it ends with a dot followed by `o`.
pub open spec fn is_subdomain_of(d: Seq<char>, o: Seq<char>) -> bool {
    seq_ends_with(d, "."@ + o)
}

/// `d` is no subdomain of another domain in `domains`: no entry of `domains`
/// other than `d` itself is `d` with labels cut off its front.
pub open spec fn is_top_level(domains: Seq<Seq<char>>, d: Seq<char>) -> bool {
    forall|j: int| 0 <= j < domains.len() ==> !(domains[j] != d && is_subdomain_of(d, #[trigger] domains[j]))
}

/// The entries of `domains` that are no subdomain of another entry, in order.
pub open spec fn top_level_spec(domains: Seq<Seq<char>>) -> Seq<Seq<char>> {
    domains.filter(|d: Seq<char>| is_top_level(domains, d))
}

fn is_top_level_at(domains: &[String], i: usize) -> (r: bool)
    requires
        i < domains@.len(),
    ensures
        r == is_top_level(string_views(domains@), domains@[i as int]@),
{
    let ghost names = string_views(domains@);
    let d = &domains[i];
    assert(d@ == names[i as int]);
    let mut j: usize = 0;
    while j < domains.len()
        invariant
            names == string_views(domains@),
            i < domains@.len(),
            d@ == names[i as int],
            j <= domains@.len(),
            forall|k: int| 0 <= k < j ==> !(names[k] != d@ && is_subdomain_of(d@, #[trigger] names[k])),
        decreases domains@.len() - j,
    {
        let other = &domains[j];
        let mut dotted = String::from_str(".");
        dotted.append(other.as_str());
        proof {
            reveal_strlit(".");
        }
        assert(dotted@ =~= "."@ + other@);
        if !(*other == *d) && ends_with(d.as_str(), dotted.as_str()) {
            assert(names[j as int] != d@ && is_subdomain_of(d@, names[j as int]));
            assert(!is_top_level(names, d@));
            assert(d@ == domains@[i as int]@);
            return false;
        }
        j = j + 1;
    }
    true
}

/// The domains that are no subdomain of another domain in the list, in the
/// order given (`local-dns` installs one resolver per such domain).
pub fn top_level_domains(domains: &[String]) -> (r: Vec<String>)
    ensures
        string_views(r@) == top_level_spec(string_views(domains@)),
{
    let ghost names = string_views(domains@);
    let ghost pred = |d: Seq<char>| is_top_level(names, d);
    let mut r: Vec<String> = Vec::new();
    let mut i: usize = 0;
    while i < domains.len()
        invariant
            names == string_views(domains@),
            pred == (|d: Seq<char>| is_top_level(names, d)),
            i <= domains@.len(),
            string_views(r@) == names.take(i as int).filter(pred),
        decreases domains@.len() - i,
    {
        assert(names.take(i + 1) =~= names.take(i as int).push(names[i as int]));
        proof {
            names.take(i as int).lemma_filter_push(names[i as int], pred);
        }
        if is_top_level_at(domains, i) {
            let d = domains[i].clone();
            r.push(d);
            assert(string_views(r@) =~= names.take(i as int).filter(pred).push(names[i as int]));
        }
        i = i + 1;
    }
    assert(names.take(domains@.len() as int) =~= names);
    r
}


proof fn lemma_ends_with_trans(a: Seq<char>, b: Seq<char>, c: Seq<char>)
    requires
        seq_ends_with(a, b),
        seq_ends_with(b, c),
    ensures
        seq_ends_with(a, c),
{
    assert forall|k: int| 0 <= k < c.len() implies a.subrange(a.len() - c.len(), a.len() as int)[k] == c[k] by {
        assert(b.subrange(b.len() - c.len(), b.len() as int)[k] == c[k]);
        assert(a.subrange(a.len() - b.len(), a.len() as int)[b.len() - c.len() + k] == b[b.len() - c.len() + k]);
    }
    assert(a.subrange(a.len() - c.len(), a.len() as int) =~= c);
}

proof fn lemma_subdomain_shorter(a: Seq<char>, b: Seq<char>)
    requires
        is_subdomain_of(a, b),
    ensures
        b.len() < a.len(),
{
    reveal_strlit(".");
}

proof fn lemma_subdomain_trans(a: Seq<char>, b: Seq<char>, c: Seq<char>)
    requires
        is_subdomain_of(a, b),
        is_subdomain_of(b, c),
    ensures
        is_subdomain_of(a, c),
{
    let dc = "."@ + c;
    let db = "."@ + b;
    assert(seq_ends_with(db, dc)) by {
        assert forall|k: int| 0 <= k < dc.len() implies db.subrange(db.len() - dc.len(), db.len() as int)[k] == dc[k] by {
            assert(b.subrange(b.len() - dc.len(), b.len() as int)[k] == dc[k]);
            assert(db[db.len() - dc.len() + k] == b[b.len() - dc.len() + k]);
        }
        assert(db.subrange(db.len() - dc.len(), db.len() as int) =~= dc);
    }
    lemma_ends_with_trans(a, db, dc);
}

/// Every domain of the list is one of the top-level domains or a subdomain
/// of one.
pub proof fn lemma_top_level_covers(domains: Seq<Seq<char>>, i: int)
    requires
        0 <= i < domains.len(),
    ensures
        exists|t: Seq<char>| #[trigger] top_level_spec(domains).contains(t)
            && (domains[i] == t || is_subdomain_of(domains[i], t)),
    decreases domains[i].len(),
{
    let d = domains[i];
    let pred = |x: Seq<char>| is_top_level(domains, x);
    if is_top_level(domains, d) {
        domains.lemma_filter_contains(pred, i);
        assert(top_level_spec(domains).contains(d));
    } else {
        let j = choose|j: int| 0 <= j < domains.len() && domains[j] != d && is_subdomain_of(d, #[trigger] domains[j]);
        lemma_subdomain_shorter(d, domains[j]);
        lemma_top_level_covers(domains, j);
        let t = choose|t: Seq<char>| #[trigger] top_level_spec(domains).contains(t)
            && (domains[j] == t || is_subdomain_of(domains[j], t));
        if domains[j] != t {
            lemma_subdomain_trans(d, domains[j], t);
        }
    }
}

/// The top-level domains are entries of the list.
pub proof fn lemma_top_level_subset(domains: Seq<Seq<char>>, t: Seq<char>)
    requires
        top_level_spec(domains).contains(t),
    ensures
        domains.contains(t),
        is_top_level(domains, t),
{
    let pred = |x: Seq<char>| is_top_level(domains, x);
    domains.lemma_filter_contains_rev(pred, t);
    let k = choose|k: int| 0 <= k < top_level_spec(domains).len() && top_level_spec(domains)[k] == t;
    domains.lemma_filter_pred(pred, k);
}

proof fn lemma_filter_keeps_all(s: Seq<Seq<char>>, p: spec_fn(Seq<char>) -> bool)
    requires
        forall|i: int| 0 <= i < s.len() ==> p(#[trigger] s[i]),
    ensures
        s.filter(p) == s,
    decreases s.len(),
{
    reveal(Seq::filter);
    if s.len() > 0 {
        lemma_filter_keeps_all(s.drop_last(), p);
        assert(s.drop_last().push(s.last()) =~= s);
    }
}

/// Taking the top-level domains twice changes nothing more.
pub proof fn lemma_top_level_idempotent(domains: Seq<Seq<char>>)
    ensures
        top_level_spec(top_level_spec(domains)) == top_level_spec(domains),
{
    let r = top_level_spec(domains);
    assert forall|i: int| 0 <= i < r.len() implies is_top_level(r, #[trigger] r[i]) by {
        assert(r.contains(r[i]));
        lemma_top_level_subset(domains, r[i]);
        assert forall|j: int| 0 <= j < r.len() implies !(r[j] != r[i] && is_subdomain_of(r[i], #[trigger] r[j])) by {
            assert(r.contains(r[j]));
            lemma_top_level_subset(domains, r[j]);
            let k = choose|k: int| 0 <= k < domains.len() && domains[k] == r[j];
            assert(!(domains[k] != r[i] && is_subdomain_of(r[i], domains[k])));
        }
    }
    lemma_filter_keeps_all(r, |x: Seq<char>| is_top_level(r, x));
}


/// A domain of the list is kept exactly when no other domain of the list is
/// the part of it after one of its dots: `api.example.com` goes when
/// `example.com` is listed, `myexample.com` stays.
pub proof fn lemma_top_level_keeps_non_subdomains(domains: Seq<Seq<char>>, d: Seq<char>)
    ensures
        top_level_spec(domains).contains(d) <==> (domains.contains(d)
            && forall|j: int| 0 <= j < domains.len() && domains[j] != d ==> !seq_ends_with(d, "."@ + #[trigger] domains[j])),
{
    let pred = |x: Seq<char>| is_top_level(domains, x);
    if top_level_spec(domains).contains(d) {
        lemma_top_level_subset(domains, d);
    }
    if domains.contains(d) && forall|j: int| 0 <= j < domains.len() && domains[j] != d ==> !seq_ends_with(d, "."@ + #[trigger] domains[j]) {
        let i = choose|i: int| 0 <= i < domains.len() && domains[i] == d;
        assert(is_top_level(domains, d));
        domains.lemma_filter_contains(pred, i);
    }
}

/// The session is reached under each kept domain at
/// `https://<session>.<domain>`, in the order of the domains.
pub proof fn lemma_session_urls_form(session_name: Seq<char>, domains: Seq<Domain>, k: int)
    requires
        0 <= k < session_urls(session_name, domains).len(),
    ensures
        session_urls(session_name, domains).len() == top_level_spec(domain_names(domains)).len(),
        session_urls(session_name, domains)[k] == "https://"@ + session_name + "."@ + top_level_spec(domain_names(domains))[k],
{
}

/// The URL a session is reached at under `domain`.
pub open spec fn session_url(session_name: Seq<char>, domain: Seq<char>) -> Seq<char> {
    "https://"@ + session_name + "."@ + domain
}

/// The URLs of a session: one per top-level domain, in the order of the domains.
pub open spec fn session_urls(session_name: Seq<char>, domains: Seq<Domain>) -> Seq<Seq<char>> {
    top_level_spec(domain_names(domains)).map_values(|d: Seq<char>| session_url(session_name, d))
}

/// The URLs `status` prints for a session: `https://<session>.<domain>` for
/// every domain that is no subdomain of another configured domain.
pub fn format_state_domains(session_name: &str, domains: &[Domain]) -> (r: Vec<String>)
    ensures
        string_views(r@) == session_urls(session_name@, domains@),
{
    let mut names: Vec<String> = Vec::new();
    let mut i: usize = 0;
    while i < domains.len()
        invariant
            i <= domains@.len(),
            string_views(names@) == domain_names(domains@).take(i as int),
        decreases domains@.len() - i,
    {
        let ghost prev = string_views(names@);
        names.push(domains[i].domain.clone());
        assert(string_views(names@) =~= prev.push(domains@[i as int].domain@));
        assert(domain_names(domains@).take(i + 1) =~= domain_names(domains@).take(i as int).push(domains@[i as int].domain@));
        assert(string_views(names@) =~= domain_names(domains@).take(i + 1));
        i = i + 1;
    }
    assert(domain_names(domains@).take(domains@.len() as int) =~= domain_names(domains@));
    let top = top_level_domains(names.as_slice());
    let ghost tops = string_views(top@);
    let mut r: Vec<String> = Vec::new();
    let mut k: usize = 0;
    while k < top.len()
        invariant
            tops == string_views(top@),
            k <= top@.len(),
            string_views(r@) == tops.take(k as int).map_values(|d: Seq<char>| session_url(session_name@, d)),
        decreases top@.len() - k,
    {
        let mut url = String::from_str("https://");
        url.append(session_name);
        url.append(".");
        url.append(top[k].as_str());
        let ghost prev = string_views(r@);
        r.push(url);
        assert(string_views(r@) =~= prev.push(session_url(session_name@, tops[k as int])));
        assert(tops.take(k + 1) =~= tops.take(k as int).push(tops[k as int]));
        assert(string_views(r@) =~= tops.take(k + 1).map_values(|d: Seq<char>| session_url(session_name@, d)));
        k = k + 1;
    }
    assert(tops.take(top@.len() as int) =~= tops);
    r
}

/// `s` holds no entry twice.
pub open spec fn no_duplicates(s: Seq<Seq<char>>) -> bool {
    forall|i: int, j: int| 0 <= i < j < s.len() ==> s[i] != s[j]
}

/// `x` is an entry of an optional list of names.
pub open spec fn opt_contains(o: Option<Vec<String>>, x: Seq<char>) -> bool {
    match o {
        Some(v) => string_views(v@).contains(x),
        None => false,
    }
}

fn contains_string(r: &Vec<String>, x: &String) -> (b: bool)
    ensures
        b == string_views(r@).contains(x@),
{
    let mut j: usize = 0;
    while j < r.len()
        invariant
            j <= r@.len(),
            forall|k: int| 0 <= k < j ==> string_views(r@)[k] != x@,
        decreases r@.len() - j,
    {
        if r[j] == *x {
            assert(string_views(r@)[j as int] == x@);
            return true;
        }
        j = j + 1;
    }
    false
}

fn push_new(r: &mut Vec<String>, names: &Vec<String>)
    requires
        no_duplicates(string_views(old(r)@)),
    ensures
        no_duplicates(string_views(final(r)@)),
        forall|x: Seq<char>| #[trigger] string_views(final(r)@).contains(x) <==> string_views(old(r)@).contains(x) || string_views(names@).contains(x),
{
    let ghost old_views = string_views(r@);
    let mut i: usize = 0;
    while i < names.len()
        invariant
            i <= names@.len(),
            old_views == string_views(old(r)@),
            no_duplicates(string_views(r@)),
            forall|x: Seq<char>| #[trigger] string_views(r@).contains(x) <==> old_views.contains(x) || string_views(names@).take(i as int).contains(x),
        decreases names@.len() - i,
    {
        let ghost before = string_views(r@);
        let ghost taken = string_views(names@).take(i as int);
        let found = contains_string(r, &names[i]);
        if !found {
            r.push(names[i].clone());
            assert(string_views(r@) =~= before.push(names@[i as int]@));
        }
        assert(string_views(names@).take(i + 1) =~= taken.push(names@[i as int]@));
        assert forall|x: Seq<char>| #[trigger] string_views(r@).contains(x) <==> old_views.contains(x) || string_views(names@).take(i + 1).contains(x) by {
            if x == names@[i as int]@ {
                assert(string_views(names@).take(i + 1)[i as int] == x);
                if !found {
                    assert(string_views(r@)[before.len() as int] == x);
                }
            } else {
                if !found {
                    if string_views(r@).contains(x) {
                        let a = choose|a: int| 0 <= a < string_views(r@).len() && #[trigger] string_views(r@)[a] == x;
                        assert(before[a] == x);
                    }
                    if before.contains(x) {
                        let a = choose|a: int| 0 <= a < before.len() && #[trigger] before[a] == x;
                        assert(string_views(r@)[a] == x);
                    }
                }
                if string_views(names@).take(i + 1).contains(x) {
                    let a = choose|a: int| 0 <= a < i + 1 && #[trigger] string_views(names@).take(i + 1)[a] == x;
                    assert(taken[a] == x);
                }
                if taken.contains(x) {
                    let a = choose|a: int| 0 <= a < i && #[trigger] taken[a] == x;
                    assert(string_views(names@).take(i + 1)[a] == x);
                }
            }
        }
        i = i + 1;
    }
    assert(string_views(names@).take(names@.len() as int) =~= string_views(names@));
}

/// The domains linkup manages: those of the config and those of the saved
/// state, each once. Their order is left open.
pub fn managed_domains(config_domains: Option<Vec<String>>, state_domains: Option<Vec<String>>) -> (r: Vec<String>)
    ensures
        no_duplicates(string_views(r@)),
        forall|x: Seq<char>| #[trigger] string_views(r@).contains(x) <==> opt_contains(config_domains, x) || opt_contains(state_domains, x),
{
    let mut r: Vec<String> = Vec::new();
    if let Some(c) = &config_domains {
        push_new(&mut r, c);
    }
    if let Some(st) = &state_domains {
        push_new(&mut r, st);
    }
    r
}

/// A state file of an isolated instance: `state-<suffix>`.
pub open spec fn is_isolated_state_file(name: Seq<char>) -> bool {
    name != "state"@ && seq_starts_with(name, "state-"@)
}

/// The instance suffixes named by the state files in the linkup directory.
pub open spec fn isolated_suffixes(names: Seq<Seq<char>>) -> Seq<Seq<char>> {
    names.filter(|n: Seq<char>| is_isolated_state_file(n)).map_values(
        |n: Seq<char>| n.subrange("state-"@.len() as int, n.len() as int),
    )
}

/// The suffixes of the isolated instances whose state files are among
/// `file_names` (the entries of the linkup directory that start with `state`).
pub fn find_isolated_suffixes(file_names: &[String]) -> (r: Vec<String>)
    ensures
        string_views(r@) == isolated_suffixes(string_views(file_names@)),
{
    let ghost names = string_views(file_names@);
    let ghost pred = |n: Seq<char>| is_isolated_state_file(n);
    let ghost strip = |n: Seq<char>| n.subrange("state-"@.len() as int, n.len() as int);
    let mut r: Vec<String> = Vec::new();
    let mut i: usize = 0;
    while i < file_names.len()
        invariant
            names == string_views(file_names@),
            pred == (|n: Seq<char>| is_isolated_state_file(n)),
            strip == (|n: Seq<char>| n.subrange("state-"@.len() as int, n.len() as int)),
            i <= file_names@.len(),
            string_views(r@) == names.take(i as int).filter(pred).map_values(strip),
        decreases file_names@.len() - i,
    {
        assert(names.take(i + 1) =~= names.take(i as int).push(names[i as int]));
        proof {
            names.take(i as int).lemma_filter_push(names[i as int], pred);
        }
        let name = file_names[i].as_str();
        if !(file_names[i] == String::from_str("state")) {
            if let Some(suffix) = strip_prefix(name, "state-") {
                let ghost prev = string_views(r@);
                r.push(suffix);
                assert(string_views(r@) =~= prev.push(strip(names[i as int])));
                assert(string_views(r@) =~= names.take(i + 1).filter(pred).map_values(strip));
            }
        }
        i = i + 1;
    }
    assert(names.take(file_names@.len() as int) =~= names);
    r
}

} // verus!
