//! The Cloudflare API as the deployment uses it: the endpoints, how a
//! response is judged, and how the wanted entry is picked out of a listing.
//! Sending the requests and decoding the JSON are left to the caller, which
//! hands over the decoded fields.
use vstd::prelude::*;
use vstd::string::StringExecFns;
use crate::deploy::{DNSRecord, DNSRecordView, WorkerScriptInfo};
use crate::text::str_eq;

verus! {

/// Why a Cloudflare call failed.
#[derive(Debug)]
pub enum DeployError {
    /// The request itself failed, with the client's message.
    CloudflareApiError(String),
    /// An unexpected answer: `<status>: <body>`, or a description.
    UnexpectedResponse(String),
    /// Cloudflare reported the call as unsuccessful.
    OtherError,
}

/// The API's base URL.
pub open spec fn api_base() -> Seq<char> {
    "https://api.cloudflare.com/client/v4/"@
}

/// The URL of a resource of an account: `accounts/<account>/<rest>`.
pub open spec fn account_url(account: Seq<char>, rest: Seq<char>) -> Seq<char> {
    api_base() + "accounts/"@ + account + rest
}

/// The URL of a resource of a zone: `zones/<zone><rest>`.
pub open spec fn zone_url(zone: Seq<char>, rest: Seq<char>) -> Seq<char> {
    api_base() + "zones/"@ + zone + rest
}

/// An endpoint of the API.
pub enum Endpoint {
    /// The workers of the account.
    Scripts,
    /// One worker script.
    Script(String),
    /// The KV namespaces of the account.
    KvNamespaces,
    /// One KV namespace.
    KvNamespace(String),
    /// The account's workers subdomain.
    Subdomain,
    /// A zone.
    Zone(String),
    /// The DNS records of a zone.
    DnsRecords(String),
    /// One DNS record of a zone.
    DnsRecord(String, String),
    /// The worker routes of a zone.
    WorkerRoutes(String),
    /// One worker route of a zone.
    WorkerRoute(String, String),
}

/// The URL of an endpoint for the account.
pub open spec fn endpoint_url(account: Seq<char>, e: Endpoint) -> Seq<char> {
    match e {
        Endpoint::Scripts => account_url(account, "/workers/scripts"@),
        Endpoint::Script(s) => account_url(account, "/workers/scripts/"@ + s@),
        Endpoint::KvNamespaces => account_url(account, "/storage/kv/namespaces"@),
        Endpoint::KvNamespace(n) => account_url(account, "/storage/kv/namespaces/"@ + n@),
        Endpoint::Subdomain => account_url(account, "/workers/subdomain"@),
        Endpoint::Zone(z) => zone_url(z@, Seq::empty()),
        Endpoint::DnsRecords(z) => zone_url(z@, "/dns_records"@),
        Endpoint::DnsRecord(z, r) => zone_url(z@, "/dns_records/"@ + r@),
        Endpoint::WorkerRoutes(z) => zone_url(z@, "/workers/routes"@),
        Endpoint::WorkerRoute(z, r) => zone_url(z@, "/workers/routes/"@ + r@),
    }
}

/// The URL of an endpoint for the account `account`.
pub fn url_of(account: &str, e: &Endpoint) -> (r: String)
    ensures
        r@ == endpoint_url(account@, *e),
{
    let mut r = String::from_str("https://api.cloudflare.com/client/v4/");
    match e {
        Endpoint::Zone(z) | Endpoint::DnsRecords(z) | Endpoint::DnsRecord(z, _) | Endpoint::WorkerRoutes(z)
        | Endpoint::WorkerRoute(z, _) => {
            r.append("zones/");
            r.append(z.as_str());
        },
        _ => {
            r.append("accounts/");
            r.append(account);
        },
    }
    match e {
        Endpoint::Scripts => r.append("/workers/scripts"),
        Endpoint::Script(s) => {
            r.append("/workers/scripts/");
            r.append(s.as_str());
        },
        Endpoint::KvNamespaces => r.append("/storage/kv/namespaces"),
        Endpoint::KvNamespace(n) => {
            r.append("/storage/kv/namespaces/");
            r.append(n.as_str());
        },
        Endpoint::Subdomain => r.append("/workers/subdomain"),
        Endpoint::Zone(z) => {
            assert(r@ =~= zone_url(z@, Seq::empty()));
        },
        Endpoint::DnsRecords(_) => r.append("/dns_records"),
        Endpoint::DnsRecord(_, id) => {
            r.append("/dns_records/");
            r.append(id.as_str());
        },
        Endpoint::WorkerRoutes(_) => r.append("/workers/routes"),
        Endpoint::WorkerRoute(_, id) => {
            r.append("/workers/routes/");
            r.append(id.as_str());
        },
    }
    r
}

/// The message of an answer whose HTTP status is not a success.
pub open spec fn unexpected_message(status: Seq<char>, body: Seq<char>) -> Seq<char> {
    status + ": "@ + body
}

/// How an answer is judged: a failing HTTP status gives its status line and
/// body; an answer that is not `success` is an error; otherwise it stands.
pub fn check_response(status_ok: bool, status: &str, body: &str, success: bool) -> (r: Result<(), DeployError>)
    ensures
        !status_ok ==> (r matches Err(DeployError::UnexpectedResponse(m)) && m@ == unexpected_message(status@, body@)),
        status_ok && !success ==> r matches Err(DeployError::OtherError),
        status_ok && success ==> r is Ok,
{
    if !status_ok {
        let mut m = String::from_str(status);
        m.append(": ");
        m.append(body);
        return Err(DeployError::UnexpectedResponse(m));
    }
    if !success {
        return Err(DeployError::OtherError);
    }
    Ok(())
}

/// The script of the listing whose id is `name`.
pub fn find_script(ids: &[String], name: &str) -> (r: Option<WorkerScriptInfo>)
    ensures
        match r {
            Some(info) => info.id@ == name@ && exists|i: int| 0 <= i < ids@.len() && ids@[i]@ == name@,
            None => forall|i: int| 0 <= i < ids@.len() ==> ids@[i]@ != name@,
        },
{
    let mut i: usize = 0;
    while i < ids.len()
        invariant
            i <= ids@.len(),
            forall|k: int| 0 <= k < i ==> ids@[k]@ != name@,
        decreases ids@.len() - i,
    {
        if str_eq(ids[i].as_str(), name) {
            return Some(WorkerScriptInfo { id: ids[i].clone() });
        }
        i = i + 1;
    }
    None
}

/// A KV namespace of a listing.
pub struct KvNamespace {
    pub id: String,
    pub title: String,
}

/// The id of the first namespace titled `name`.
pub fn find_namespace(namespaces: &[KvNamespace], name: &str) -> (r: Option<String>)
    ensures
        match r {
            Some(id) => exists|i: int| 0 <= i < namespaces@.len() && namespaces@[i].title@ == name@
                && namespaces@[i].id@ == id@ && forall|k: int| 0 <= k < i ==> (#[trigger] namespaces@[k]).title@ != name@,
            None => forall|k: int| 0 <= k < namespaces@.len() ==> (#[trigger] namespaces@[k]).title@ != name@,
        },
{
    let mut i: usize = 0;
    while i < namespaces.len()
        invariant
            i <= namespaces@.len(),
            forall|k: int| 0 <= k < i ==> (#[trigger] namespaces@[k]).title@ != name@,
        decreases namespaces@.len() - i,
    {
        if str_eq(namespaces[i].title.as_str(), name) {
            return Some(namespaces[i].id.clone());
        }
        i = i + 1;
    }
    None
}

/// A DNS record of a listing, as Cloudflare returns it.
pub struct ApiDnsRecord {
    pub id: String,
    pub name: String,
    pub record_type: String,
    pub content: String,
    pub proxied: Option<bool>,
    pub comment: Option<String>,
}

/// The record carries the comment `c`.
pub open spec fn has_comment(r: ApiDnsRecord, c: Seq<char>) -> bool {
    r.comment matches Some(x) && x@ == c
}

/// The record found for a comment: its fields, the comment searched for,
/// and not proxied where Cloudflare does not say.
pub open spec fn found_record(r: ApiDnsRecord, c: Seq<char>) -> DNSRecordView {
    DNSRecordView {
        id: r.id@,
        name: r.name@,
        record_type: r.record_type@,
        content: r.content@,
        comment: c,
        proxied: match r.proxied {
            Some(p) => p,
            None => false,
        },
    }
}

/// The first record of the listing with the comment `comment`.
pub fn find_dns_record(records: &[ApiDnsRecord], comment: &str) -> (r: Option<DNSRecord>)
    ensures
        match r {
            Some(rec) => exists|i: int| 0 <= i < records@.len() && has_comment(records@[i], comment@)
                && rec@ == found_record(records@[i], comment@)
                && forall|k: int| 0 <= k < i ==> !has_comment(#[trigger] records@[k], comment@),
            None => forall|k: int| 0 <= k < records@.len() ==> !has_comment(#[trigger] records@[k], comment@),
        },
{
    let mut i: usize = 0;
    while i < records.len()
        invariant
            i <= records@.len(),
            forall|k: int| 0 <= k < i ==> !has_comment(#[trigger] records@[k], comment@),
        decreases records@.len() - i,
    {
        let rec = &records[i];
        let matches = match &rec.comment {
            Some(c) => str_eq(c.as_str(), comment),
            None => false,
        };
        if matches {
            let proxied = match rec.proxied {
                Some(p) => p,
                None => false,
            };
            return Some(DNSRecord {
                id: rec.id.clone(),
                name: rec.name.clone(),
                record_type: rec.record_type.clone(),
                content: rec.content.clone(),
                comment: String::from_str(comment),
                proxied,
            });
        }
        i = i + 1;
    }
    None
}

/// A worker route of a listing.
pub struct ApiWorkerRoute {
    pub id: String,
    pub pattern: String,
    pub script: Option<String>,
}

/// The route has this pattern and runs this script.
pub open spec fn route_is(r: ApiWorkerRoute, pattern: Seq<char>, script: Seq<char>) -> bool {
    r.pattern@ == pattern && (r.script matches Some(s) && s@ == script)
}

/// The id of the first route with the pattern and script.
pub fn find_worker_route(routes: &[ApiWorkerRoute], pattern: &str, script: &str) -> (r: Option<String>)
    ensures
        match r {
            Some(id) => exists|i: int| 0 <= i < routes@.len() && route_is(routes@[i], pattern@, script@)
                && routes@[i].id@ == id@ && forall|k: int| 0 <= k < i ==> !route_is(#[trigger] routes@[k], pattern@, script@),
            None => forall|k: int| 0 <= k < routes@.len() ==> !route_is(#[trigger] routes@[k], pattern@, script@),
        },
{
    let mut i: usize = 0;
    while i < routes.len()
        invariant
            i <= routes@.len(),
            forall|k: int| 0 <= k < i ==> !route_is(#[trigger] routes@[k], pattern@, script@),
        decreases routes@.len() - i,
    {
        let r = &routes[i];
        let script_matches = match &r.script {
            Some(s) => str_eq(s.as_str(), script),
            None => false,
        };
        if str_eq(r.pattern.as_str(), pattern) && script_matches {
            return Some(r.id.clone());
        }
        i = i + 1;
    }
    None
}

/// The id of a created namespace; an answer without one is unexpected.
pub fn created_namespace_id(result: Option<KvNamespace>) -> (r: Result<String, DeployError>)
    ensures
        match result {
            Some(ns) => r matches Ok(id) && id == ns.id,
            None => r matches Err(DeployError::UnexpectedResponse(m)) && m@ == "No namespace ID returned"@,
        },
{
    match result {
        Some(ns) => Ok(ns.id),
        None => Err(DeployError::UnexpectedResponse(String::from_str("No namespace ID returned"))),
    }
}

/// The name of a zone; an answer without one is unexpected.
pub fn zone_name_of(success: bool, name: Option<String>) -> (r: Result<String, DeployError>)
    ensures
        !success ==> (r matches Err(DeployError::UnexpectedResponse(m)) && m@ == "Failed to retrieve zone name from Cloudflare"@),
        success && name is None ==> (r matches Err(DeployError::UnexpectedResponse(m)) && m@ == "Zone name not found in response"@),
        success && name is Some ==> (r matches Ok(n) && n == name->0),
{
    if !success {
        return Err(DeployError::UnexpectedResponse(String::from_str("Failed to retrieve zone name from Cloudflare")));
    }
    match name {
        Some(n) => Ok(n),
        None => Err(DeployError::UnexpectedResponse(String::from_str("Zone name not found in response"))),
    }
}

} // verus!
