//! Deploying linkup's worker to Cloudflare and removing it again. Each is a
//! state machine: the caller performs the Cloudflare API call or the
//! question to the user it is handed, reports the answer as the next event,
//! and shows the notices; the machine decides what comes next.
use vstd::prelude::*;
use vstd::string::StringExecFns;
use crate::domains::string_views;

verus! {

/// A file of a worker script.
pub struct WorkerScriptPart {
    pub name: String,
    pub data: Vec<u8>,
}

/// A binding of a worker script.
pub struct WorkerBinding {
    pub type_: String,
    pub name: String,
    pub text: String,
}

/// The metadata a worker script is uploaded with.
pub struct WorkerMetadata {
    pub main_module: String,
    pub bindings: Vec<WorkerBinding>,
    pub compatibility_date: String,
}

/// What Cloudflare tells of an existing worker script.
pub struct WorkerScriptInfo {
    pub id: String,
}

/// A route of a zone to a worker script.
pub struct TargectCfRoutes {
    pub route: String,
    pub script: String,
}

/// What is deployed in each zone.
pub struct TargectCfZoneResources {
    pub routes: Vec<TargectCfRoutes>,
}

/// Everything that is deployed.
pub struct TargetCfResources {
    pub worker_script_name: String,
    pub worker_script_parts: Vec<WorkerScriptPart>,
    pub kv_name: String,
    pub zone_resources: TargectCfZoneResources,
}

/// A DNS record of a zone.
pub struct DNSRecord {
    pub id: String,
    pub name: String,
    pub record_type: String,
    pub content: String,
    pub comment: String,
    pub proxied: bool,
}

/// The contents of a DNS record.
pub struct DNSRecordView {
    pub id: Seq<char>,
    pub name: Seq<char>,
    pub record_type: Seq<char>,
    pub content: Seq<char>,
    pub comment: Seq<char>,
    pub proxied: bool,
}

impl View for DNSRecord {
    type V = DNSRecordView;

    open spec fn view(&self) -> DNSRecordView {
        DNSRecordView {
            id: self.id@,
            name: self.name@,
            record_type: self.record_type@,
            content: self.content@,
            comment: self.comment@,
            proxied: self.proxied,
        }
    }
}

/// Asking the user and telling them what happens. The caller implements it.
pub trait DeployNotifier {
    fn ask_confirmation(&self) -> bool;
    fn notify(&self, message: &str);
}

/// The routes of the resources as (route, script) pairs.
pub open spec fn route_views(routes: Seq<TargectCfRoutes>) -> Seq<(Seq<char>, Seq<char>)> {
    routes.map_values(|r: TargectCfRoutes| (r.route@, r.script@))
}

// ---------------------------------------------------------------------------
// Notices.

/// What the user is told.
pub enum DeployNotice {
    ScriptDiffers,
    ScriptUploaded,
    Canceled,
    UpToDate,
    KvMissing(String),
    KvCreated(String, String),
    KvExists(String),
    DnsMissing(String, String),
    DnsCreated(String, String),
    DnsExists(String, String),
    RouteMissing(String, String, String),
    RouteCreated(String, String),
    RouteExists(String, String, String),
    RemovingRoute(String, String, String),
    RouteRemoved(String, String),
    NoRoute(String, String, String),
    RemovingDns(String, String),
    DnsRemoved(String),
    NoDns(String, String),
    RemovingKv(String),
    KvRemoved(String),
    NoKv(String),
    RemovingScript(String),
    ScriptRemoved,
    NoScript(String),
}

/// The contents of a notice.
pub enum NoticeView {
    ScriptDiffers,
    ScriptUploaded,
    Canceled,
    UpToDate,
    KvMissing(Seq<char>),
    KvCreated(Seq<char>, Seq<char>),
    KvExists(Seq<char>),
    DnsMissing(Seq<char>, Seq<char>),
    DnsCreated(Seq<char>, Seq<char>),
    DnsExists(Seq<char>, Seq<char>),
    RouteMissing(Seq<char>, Seq<char>, Seq<char>),
    RouteCreated(Seq<char>, Seq<char>),
    RouteExists(Seq<char>, Seq<char>, Seq<char>),
    RemovingRoute(Seq<char>, Seq<char>, Seq<char>),
    RouteRemoved(Seq<char>, Seq<char>),
    NoRoute(Seq<char>, Seq<char>, Seq<char>),
    RemovingDns(Seq<char>, Seq<char>),
    DnsRemoved(Seq<char>),
    NoDns(Seq<char>, Seq<char>),
    RemovingKv(Seq<char>),
    KvRemoved(Seq<char>),
    NoKv(Seq<char>),
    RemovingScript(Seq<char>),
    ScriptRemoved,
    NoScript(Seq<char>),
}

impl View for DeployNotice {
    type V = NoticeView;

    open spec fn view(&self) -> NoticeView {
        match self {
            DeployNotice::ScriptDiffers => NoticeView::ScriptDiffers,
            DeployNotice::ScriptUploaded => NoticeView::ScriptUploaded,
            DeployNotice::Canceled => NoticeView::Canceled,
            DeployNotice::UpToDate => NoticeView::UpToDate,
            DeployNotice::KvMissing(a) => NoticeView::KvMissing(a@),
            DeployNotice::KvCreated(a, b) => NoticeView::KvCreated(a@, b@),
            DeployNotice::KvExists(a) => NoticeView::KvExists(a@),
            DeployNotice::DnsMissing(a, b) => NoticeView::DnsMissing(a@, b@),
            DeployNotice::DnsCreated(a, b) => NoticeView::DnsCreated(a@, b@),
            DeployNotice::DnsExists(a, b) => NoticeView::DnsExists(a@, b@),
            DeployNotice::RouteMissing(a, b, c) => NoticeView::RouteMissing(a@, b@, c@),
            DeployNotice::RouteCreated(a, b) => NoticeView::RouteCreated(a@, b@),
            DeployNotice::RouteExists(a, b, c) => NoticeView::RouteExists(a@, b@, c@),
            DeployNotice::RemovingRoute(a, b, c) => NoticeView::RemovingRoute(a@, b@, c@),
            DeployNotice::RouteRemoved(a, b) => NoticeView::RouteRemoved(a@, b@),
            DeployNotice::NoRoute(a, b, c) => NoticeView::NoRoute(a@, b@, c@),
            DeployNotice::RemovingDns(a, b) => NoticeView::RemovingDns(a@, b@),
            DeployNotice::DnsRemoved(a) => NoticeView::DnsRemoved(a@),
            DeployNotice::NoDns(a, b) => NoticeView::NoDns(a@, b@),
            DeployNotice::RemovingKv(a) => NoticeView::RemovingKv(a@),
            DeployNotice::KvRemoved(a) => NoticeView::KvRemoved(a@),
            DeployNotice::NoKv(a) => NoticeView::NoKv(a@),
            DeployNotice::RemovingScript(a) => NoticeView::RemovingScript(a@),
            DeployNotice::ScriptRemoved => NoticeView::ScriptRemoved,
            DeployNotice::NoScript(a) => NoticeView::NoScript(a@),
        }
    }
}

/// `'x'`.
pub open spec fn quoted(x: Seq<char>) -> Seq<char> {
    "'"@ + x + "'"@
}

/// The message of a notice.
pub open spec fn notice_text(n: NoticeView) -> Seq<char> {
    match n {
        NoticeView::ScriptDiffers => "Worker script differs or does not exist."@,
        NoticeView::ScriptUploaded => "Worker script uploaded successfully."@,
        NoticeView::Canceled => "Deployment canceled by user."@,
        NoticeView::UpToDate => "No changes needed. Worker script is already up to date."@,
        NoticeView::KvMissing(kv) => "KV namespace "@ + quoted(kv) + " does not exist. Creating..."@,
        NoticeView::KvCreated(kv, id) => "KV namespace "@ + quoted(kv) + " created with ID: "@ + id,
        NoticeView::KvExists(kv) => "KV namespace "@ + quoted(kv) + " already exists."@,
        NoticeView::DnsMissing(d, z) => "DNS record for "@ + quoted(d) + " not found in zone "@ + quoted(z) + ". Creating..."@,
        NoticeView::DnsCreated(d, t) => "DNS record for "@ + quoted(d) + " created pointing to "@ + quoted(t),
        NoticeView::DnsExists(d, z) => "DNS record for "@ + quoted(d) + " already exists in zone "@ + quoted(z) + "."@,
        NoticeView::RouteMissing(d, s, z) => "Worker route for pattern "@ + quoted(d) + " and script "@ + quoted(s)
            + " not found in zone "@ + quoted(z) + ". Creating..."@,
        NoticeView::RouteCreated(d, s) => "Worker route for pattern "@ + quoted(d) + " and script "@ + quoted(s) + " created"@,
        NoticeView::RouteExists(d, s, z) => "Worker route for pattern "@ + quoted(d) + " and script "@ + quoted(s)
            + " already exists in zone "@ + quoted(z) + "."@,
        NoticeView::RemovingRoute(d, s, z) => "Removing worker route for pattern "@ + quoted(d) + " and script "@ + quoted(s)
            + " in zone "@ + quoted(z) + "."@,
        NoticeView::RouteRemoved(d, s) => "Worker route for pattern "@ + quoted(d) + " and script "@ + quoted(s) + " removed."@,
        NoticeView::NoRoute(d, s, z) => "No worker route for pattern "@ + quoted(d) + " and script "@ + quoted(s)
            + " found in zone "@ + quoted(z) + ", nothing to remove."@,
        NoticeView::RemovingDns(n, z) => "Removing DNS record "@ + quoted(n) + " in zone "@ + quoted(z) + "."@,
        NoticeView::DnsRemoved(n) => "DNS record "@ + quoted(n) + " removed."@,
        NoticeView::NoDns(d, z) => "No DNS record for "@ + quoted(d) + " found in zone "@ + quoted(z) + ", nothing to remove."@,
        NoticeView::RemovingKv(kv) => "Removing KV namespace "@ + quoted(kv) + "..."@,
        NoticeView::KvRemoved(kv) => "KV namespace "@ + quoted(kv) + " removed successfully."@,
        NoticeView::NoKv(kv) => "KV namespace "@ + quoted(kv) + " does not exist, nothing to remove."@,
        NoticeView::RemovingScript(s) => "Removing worker script "@ + quoted(s) + "..."@,
        NoticeView::ScriptRemoved => "Worker script removed successfully."@,
        NoticeView::NoScript(s) => "Worker script "@ + quoted(s) + " does not exist, nothing to remove."@,
    }
}

fn push_quoted(r: &mut String, x: &String)
    ensures
        final(r)@ == old(r)@ + quoted(x@),
{
    r.append("'");
    r.append(x.as_str());
    r.append("'");
}

impl DeployNotice {
    /// The message shown for the notice.
    pub fn text(&self) -> (r: String)
        ensures
            r@ == notice_text(self@),
    {
        match self {
            DeployNotice::ScriptDiffers => String::from_str("Worker script differs or does not exist."),
            DeployNotice::ScriptUploaded => String::from_str("Worker script uploaded successfully."),
            DeployNotice::Canceled => String::from_str("Deployment canceled by user."),
            DeployNotice::UpToDate => String::from_str("No changes needed. Worker script is already up to date."),
            DeployNotice::KvMissing(kv) => {
                let mut r = String::from_str("KV namespace ");
                push_quoted(&mut r, kv);
                r.append(" does not exist. Creating...");
                r
            },
            DeployNotice::KvCreated(kv, id) => {
                let mut r = String::from_str("KV namespace ");
                push_quoted(&mut r, kv);
                r.append(" created with ID: ");
                r.append(id.as_str());
                r
            },
            DeployNotice::KvExists(kv) => {
                let mut r = String::from_str("KV namespace ");
                push_quoted(&mut r, kv);
                r.append(" already exists.");
                r
            },
            DeployNotice::DnsMissing(d, z) => {
                let mut r = String::from_str("DNS record for ");
                push_quoted(&mut r, d);
                r.append(" not found in zone ");
                push_quoted(&mut r, z);
                r.append(". Creating...");
                r
            },
            DeployNotice::DnsCreated(d, t) => {
                let mut r = String::from_str("DNS record for ");
                push_quoted(&mut r, d);
                r.append(" created pointing to ");
                push_quoted(&mut r, t);
                r
            },
            DeployNotice::DnsExists(d, z) => {
                let mut r = String::from_str("DNS record for ");
                push_quoted(&mut r, d);
                r.append(" already exists in zone ");
                push_quoted(&mut r, z);
                r.append(".");
                r
            },
            DeployNotice::RouteMissing(d, s, z) => {
                let mut r = String::from_str("Worker route for pattern ");
                push_quoted(&mut r, d);
                r.append(" and script ");
                push_quoted(&mut r, s);
                r.append(" not found in zone ");
                push_quoted(&mut r, z);
                r.append(". Creating...");
                r
            },
            DeployNotice::RouteCreated(d, s) => {
                let mut r = String::from_str("Worker route for pattern ");
                push_quoted(&mut r, d);
                r.append(" and script ");
                push_quoted(&mut r, s);
                r.append(" created");
                r
            },
            DeployNotice::RouteExists(d, s, z) => {
                let mut r = String::from_str("Worker route for pattern ");
                push_quoted(&mut r, d);
                r.append(" and script ");
                push_quoted(&mut r, s);
                r.append(" already exists in zone ");
                push_quoted(&mut r, z);
                r.append(".");
                r
            },
            DeployNotice::RemovingRoute(d, s, z) => {
                let mut r = String::from_str("Removing worker route for pattern ");
                push_quoted(&mut r, d);
                r.append(" and script ");
                push_quoted(&mut r, s);
                r.append(" in zone ");
                push_quoted(&mut r, z);
                r.append(".");
                r
            },
            DeployNotice::RouteRemoved(d, s) => {
                let mut r = String::from_str("Worker route for pattern ");
                push_quoted(&mut r, d);
                r.append(" and script ");
                push_quoted(&mut r, s);
                r.append(" removed.");
                r
            },
            DeployNotice::NoRoute(d, s, z) => {
                let mut r = String::from_str("No worker route for pattern ");
                push_quoted(&mut r, d);
                r.append(" and script ");
                push_quoted(&mut r, s);
                r.append(" found in zone ");
                push_quoted(&mut r, z);
                r.append(", nothing to remove.");
                r
            },
            DeployNotice::RemovingDns(n, z) => {
                let mut r = String::from_str("Removing DNS record ");
                push_quoted(&mut r, n);
                r.append(" in zone ");
                push_quoted(&mut r, z);
                r.append(".");
                r
            },
            DeployNotice::DnsRemoved(n) => {
                let mut r = String::from_str("DNS record ");
                push_quoted(&mut r, n);
                r.append(" removed.");
                r
            },
            DeployNotice::NoDns(d, z) => {
                let mut r = String::from_str("No DNS record for ");
                push_quoted(&mut r, d);
                r.append(" found in zone ");
                push_quoted(&mut r, z);
                r.append(", nothing to remove.");
                r
            },
            DeployNotice::RemovingKv(kv) => {
                let mut r = String::from_str("Removing KV namespace ");
                push_quoted(&mut r, kv);
                r.append("...");
                r
            },
            DeployNotice::KvRemoved(kv) => {
                let mut r = String::from_str("KV namespace ");
                push_quoted(&mut r, kv);
                r.append(" removed successfully.");
                r
            },
            DeployNotice::NoKv(kv) => {
                let mut r = String::from_str("KV namespace ");
                push_quoted(&mut r, kv);
                r.append(" does not exist, nothing to remove.");
                r
            },
            DeployNotice::RemovingScript(s) => {
                let mut r = String::from_str("Removing worker script ");
                push_quoted(&mut r, s);
                r.append("...");
                r
            },
            DeployNotice::ScriptRemoved => String::from_str("Worker script removed successfully."),
            DeployNotice::NoScript(s) => {
                let mut r = String::from_str("Worker script ");
                push_quoted(&mut r, s);
                r.append(" does not exist, nothing to remove.");
                r
            },
        }
    }
}


// ---------------------------------------------------------------------------
// The resources deployed.

/// The worker script linkup deploys.
pub open spec fn local_script_content() -> Seq<char> {
    "\nexport default {\n\tasync fetch(request, env, ctx) {\n\t\treturn new Response('Hello World!');\n\t},\n};\n"@
}

/// The worker script linkup deploys.
pub fn local_script() -> (r: String)
    ensures
        r@ == local_script_content(),
{
    String::from_str("\nexport default {\n\tasync fetch(request, env, ctx) {\n\t\treturn new Response('Hello World!');\n\t},\n};\n")
}

/// The metadata the worker script is uploaded with: main module `index.js`,
/// no bindings, compatibility date 2024-12-18.
pub fn deploy_metadata() -> (r: WorkerMetadata)
    ensures
        r.main_module@ == "index.js"@,
        r.bindings@.len() == 0,
        r.compatibility_date@ == "2024-12-18"@,
{
    WorkerMetadata {
        main_module: String::from_str("index.js"),
        bindings: Vec::new(),
        compatibility_date: String::from_str("2024-12-18"),
    }
}

/// The resources `linkup deploy` sets up: the script
/// `linkup-integration-test-script` with one part `index.js` holding the
/// given script bytes, the KV namespace `linkup-integration-test-kv`, and one
/// route `linkup-integraton-test` to the script.
pub fn deploy_resources(script_bytes: Vec<u8>) -> (r: TargetCfResources)
    ensures
        r.worker_script_name@ == "linkup-integration-test-script"@,
        r.worker_script_parts@.len() == 1,
        r.worker_script_parts@[0].name@ == "index.js"@,
        r.worker_script_parts@[0].data@ == script_bytes@,
        r.kv_name@ == "linkup-integration-test-kv"@,
        route_views(r.zone_resources.routes@) == seq![("linkup-integraton-test"@, "linkup-integration-test-script"@)],
{
    let mut parts: Vec<WorkerScriptPart> = Vec::new();
    parts.push(WorkerScriptPart { name: String::from_str("index.js"), data: script_bytes });
    let mut routes: Vec<TargectCfRoutes> = Vec::new();
    routes.push(TargectCfRoutes {
        route: String::from_str("linkup-integraton-test"),
        script: String::from_str("linkup-integration-test-script"),
    });
    assert(route_views(routes@) =~= seq![("linkup-integraton-test"@, "linkup-integration-test-script"@)]);
    TargetCfResources {
        worker_script_name: String::from_str("linkup-integration-test-script"),
        worker_script_parts: parts,
        kv_name: String::from_str("linkup-integration-test-kv"),
        zone_resources: TargectCfZoneResources { routes },
    }
}

fn copy_routes(v: &Vec<TargectCfRoutes>) -> (r: Vec<TargectCfRoutes>)
    ensures
        route_views(r@) == route_views(v@),
{
    let mut out: Vec<TargectCfRoutes> = Vec::new();
    let mut i: usize = 0;
    while i < v.len()
        invariant
            i <= v@.len(),
            route_views(out@) == route_views(v@.take(i as int)),
        decreases v@.len() - i,
    {
        let ghost prev = route_views(out@);
        out.push(TargectCfRoutes { route: v[i].route.clone(), script: v[i].script.clone() });
        assert(route_views(out@) =~= prev.push((v@[i as int].route@, v@[i as int].script@)));
        assert(v@.take(i + 1) =~= v@.take(i as int).push(v@[i as int]));
        i = i + 1;
    }
    assert(v@.take(v@.len() as int) =~= v@);
    out
}

// ---------------------------------------------------------------------------
// Actions and events shared by both machines.

/// What the caller does next.
pub enum DeployAction {
    GetScriptInfo(String),
    GetScriptContent(String),
    AskConfirmation,
    /// Upload the script under this name, with `deploy_metadata()` and the
    /// resources' script parts.
    CreateWorkerScript(String),
    GetKvNamespaceId(String),
    CreateKvNamespace(String),
    GetWorkerSubdomain,
    /// Look up the DNS record of the zone with this comment.
    GetDnsRecord(String, String),
    CreateDnsRecord(String, DNSRecord),
    GetZoneName(String),
    /// Look up the worker route of the zone with this pattern and script.
    GetWorkerRoute(String, String, String),
    CreateWorkerRoute(String, String, String),
    /// Remove the worker route of the zone with this id.
    RemoveWorkerRoute(String, String),
    /// Remove the DNS record of the zone with this id.
    RemoveDnsRecord(String, String),
    RemoveKvNamespace(String),
    RemoveWorkerScript(String),
    /// The run is over: `true` where it succeeded, `false` where a call
    /// failed (the caller returns that call's error).
    Finish(bool),
}

/// The contents of an action.
pub enum DeployActionView {
    GetScriptInfo(Seq<char>),
    GetScriptContent(Seq<char>),
    AskConfirmation,
    CreateWorkerScript(Seq<char>),
    GetKvNamespaceId(Seq<char>),
    CreateKvNamespace(Seq<char>),
    GetWorkerSubdomain,
    GetDnsRecord(Seq<char>, Seq<char>),
    CreateDnsRecord(Seq<char>, DNSRecordView),
    GetZoneName(Seq<char>),
    GetWorkerRoute(Seq<char>, Seq<char>, Seq<char>),
    CreateWorkerRoute(Seq<char>, Seq<char>, Seq<char>),
    RemoveWorkerRoute(Seq<char>, Seq<char>),
    RemoveDnsRecord(Seq<char>, Seq<char>),
    RemoveKvNamespace(Seq<char>),
    RemoveWorkerScript(Seq<char>),
    Finish(bool),
}

impl View for DeployAction {
    type V = DeployActionView;

    open spec fn view(&self) -> DeployActionView {
        match self {
            DeployAction::GetScriptInfo(a) => DeployActionView::GetScriptInfo(a@),
            DeployAction::GetScriptContent(a) => DeployActionView::GetScriptContent(a@),
            DeployAction::AskConfirmation => DeployActionView::AskConfirmation,
            DeployAction::CreateWorkerScript(a) => DeployActionView::CreateWorkerScript(a@),
            DeployAction::GetKvNamespaceId(a) => DeployActionView::GetKvNamespaceId(a@),
            DeployAction::CreateKvNamespace(a) => DeployActionView::CreateKvNamespace(a@),
            DeployAction::GetWorkerSubdomain => DeployActionView::GetWorkerSubdomain,
            DeployAction::GetDnsRecord(a, b) => DeployActionView::GetDnsRecord(a@, b@),
            DeployAction::CreateDnsRecord(a, b) => DeployActionView::CreateDnsRecord(a@, b@),
            DeployAction::GetZoneName(a) => DeployActionView::GetZoneName(a@),
            DeployAction::GetWorkerRoute(a, b, c) => DeployActionView::GetWorkerRoute(a@, b@, c@),
            DeployAction::CreateWorkerRoute(a, b, c) => DeployActionView::CreateWorkerRoute(a@, b@, c@),
            DeployAction::RemoveWorkerRoute(a, b) => DeployActionView::RemoveWorkerRoute(a@, b@),
            DeployAction::RemoveDnsRecord(a, b) => DeployActionView::RemoveDnsRecord(a@, b@),
            DeployAction::RemoveKvNamespace(a) => DeployActionView::RemoveKvNamespace(a@),
            DeployAction::RemoveWorkerScript(a) => DeployActionView::RemoveWorkerScript(a@),
            DeployAction::Finish(b) => DeployActionView::Finish(*b),
        }
    }
}

/// What the caller reports back: the answer of the last call.
pub enum DeployEvent {
    Proceed,
    /// Whether the script exists.
    ScriptInfo(bool),
    ScriptContent(String),
    Confirmed(bool),
    /// A create or remove call succeeded.
    Completed,
    KvId(Option<String>),
    KvCreated(String),
    Subdomain(Option<String>),
    DnsRecordFound(Option<DNSRecord>),
    ZoneName(String),
    /// The id of the worker route found, if any.
    WorkerRoute(Option<String>),
    /// The call failed.
    Failed,
}

/// The contents of an event.
pub enum DeployEventView {
    Proceed,
    ScriptInfo(bool),
    ScriptContent(Seq<char>),
    Confirmed(bool),
    Completed,
    KvId(Option<Seq<char>>),
    KvCreated(Seq<char>),
    Subdomain(Option<Seq<char>>),
    DnsRecordFound(Option<DNSRecordView>),
    ZoneName(Seq<char>),
    WorkerRoute(Option<Seq<char>>),
    Failed,
}

/// The view of an optional string.
pub open spec fn ov(o: Option<String>) -> Option<Seq<char>> {
    match o {
        Some(s) => Some(s@),
        None => None,
    }
}

impl View for DeployEvent {
    type V = DeployEventView;

    open spec fn view(&self) -> DeployEventView {
        match self {
            DeployEvent::Proceed => DeployEventView::Proceed,
            DeployEvent::ScriptInfo(b) => DeployEventView::ScriptInfo(*b),
            DeployEvent::ScriptContent(a) => DeployEventView::ScriptContent(a@),
            DeployEvent::Confirmed(b) => DeployEventView::Confirmed(*b),
            DeployEvent::Completed => DeployEventView::Completed,
            DeployEvent::KvId(o) => DeployEventView::KvId(ov(*o)),
            DeployEvent::KvCreated(a) => DeployEventView::KvCreated(a@),
            DeployEvent::Subdomain(o) => DeployEventView::Subdomain(ov(*o)),
            DeployEvent::DnsRecordFound(o) => DeployEventView::DnsRecordFound(match o {
                Some(r) => Some(r@),
                None => None,
            }),
            DeployEvent::ZoneName(a) => DeployEventView::ZoneName(a@),
            DeployEvent::WorkerRoute(o) => DeployEventView::WorkerRoute(ov(*o)),
            DeployEvent::Failed => DeployEventView::Failed,
        }
    }
}

/// The view of an optional notice.
pub open spec fn notice_view(n: Option<DeployNotice>) -> Option<NoticeView> {
    match n {
        Some(n) => Some(n@),
        None => None,
    }
}

// ---------------------------------------------------------------------------
// Deploying.

/// Where a deployment stands.
pub enum DeployPhase {
    Begin,
    ScriptInfo,
    ScriptContent,
    Confirming,
    Uploading,
    KvLookup,
    KvCreating,
    Subdomain,
    DnsLookup,
    DnsCreating,
    ZoneLookup,
    /// Looking up the route with this pattern.
    RouteLookup(String),
    RouteCreating,
    Done(bool),
}

/// The contents of a deployment's phase.
pub enum DeployPhaseView {
    Begin,
    ScriptInfo,
    ScriptContent,
    Confirming,
    Uploading,
    KvLookup,
    KvCreating,
    Subdomain,
    DnsLookup,
    DnsCreating,
    ZoneLookup,
    RouteLookup(Seq<char>),
    RouteCreating,
    Done(bool),
}

impl View for DeployPhase {
    type V = DeployPhaseView;

    open spec fn view(&self) -> DeployPhaseView {
        match self {
            DeployPhase::Begin => DeployPhaseView::Begin,
            DeployPhase::ScriptInfo => DeployPhaseView::ScriptInfo,
            DeployPhase::ScriptContent => DeployPhaseView::ScriptContent,
            DeployPhase::Confirming => DeployPhaseView::Confirming,
            DeployPhase::Uploading => DeployPhaseView::Uploading,
            DeployPhase::KvLookup => DeployPhaseView::KvLookup,
            DeployPhase::KvCreating => DeployPhaseView::KvCreating,
            DeployPhase::Subdomain => DeployPhaseView::Subdomain,
            DeployPhase::DnsLookup => DeployPhaseView::DnsLookup,
            DeployPhase::DnsCreating => DeployPhaseView::DnsCreating,
            DeployPhase::ZoneLookup => DeployPhaseView::ZoneLookup,
            DeployPhase::RouteLookup(p) => DeployPhaseView::RouteLookup(p@),
            DeployPhase::RouteCreating => DeployPhaseView::RouteCreating,
            DeployPhase::Done(b) => DeployPhaseView::Done(*b),
        }
    }
}

/// A deployment of the resources to the zones.
pub struct DeployRun {
    pub script: String,
    pub kv: String,
    pub routes: Vec<TargectCfRoutes>,
    pub zones: Vec<String>,
    pub phase: DeployPhase,
    pub cname: String,
    pub zone_index: usize,
    pub route_index: usize,
}

/// The contents of a deployment.
pub struct DeployRunView {
    pub script: Seq<char>,
    pub kv: Seq<char>,
    pub routes: Seq<(Seq<char>, Seq<char>)>,
    pub zones: Seq<Seq<char>>,
    pub phase: DeployPhaseView,
    pub cname: Seq<char>,
    pub zi: int,
    pub ri: int,
}

impl View for DeployRun {
    type V = DeployRunView;

    open spec fn view(&self) -> DeployRunView {
        DeployRunView {
            script: self.script@,
            kv: self.kv@,
            routes: route_views(self.routes@),
            zones: string_views(self.zones@),
            phase: self.phase@,
            cname: self.cname@,
            zi: self.zone_index as int,
            ri: self.route_index as int,
        }
    }
}

/// The phase works on the current (zone, route) pair.
pub open spec fn deploy_at_pair(p: DeployPhaseView) -> bool {
    p is DnsLookup || p is DnsCreating || p is ZoneLookup || p is RouteLookup || p is RouteCreating
}

/// The current pair is one of the zones and routes.
pub open spec fn deploy_ok(s: DeployRunView) -> bool {
    deploy_at_pair(s.phase) ==> (0 <= s.zi < s.zones.len() && 0 <= s.ri < s.routes.len())
}

/// The DNS name of the current route.
pub open spec fn cur_route(s: DeployRunView) -> Seq<char> {
    s.routes[s.ri].0
}

/// The script of the current route.
pub open spec fn cur_script(s: DeployRunView) -> Seq<char> {
    s.routes[s.ri].1
}

/// The current zone.
pub open spec fn cur_zone(s: DeployRunView) -> Seq<char> {
    s.zones[s.zi]
}

/// The comment the DNS record of the current route is found by.
pub open spec fn cur_comment(s: DeployRunView) -> Seq<char> {
    cur_script(s) + "-"@ + cur_route(s)
}

/// The DNS record created for the current route: a proxied CNAME to the
/// worker's host.
pub open spec fn new_record(s: DeployRunView) -> DNSRecordView {
    DNSRecordView {
        id: Seq::empty(),
        name: cur_route(s),
        record_type: "CNAME"@,
        content: s.cname,
        comment: cur_comment(s),
        proxied: true,
    }
}

/// The worker's host: under the account's workers subdomain when it has one.
pub open spec fn cname_of(script: Seq<char>, sub: Option<Seq<char>>) -> Seq<char> {
    match sub {
        Some(x) => script + "."@ + x + ".workers.dev"@,
        None => script + ".workers.dev"@,
    }
}

/// A finished deployment.
pub open spec fn deploy_done(s: DeployRunView, ok: bool) -> (DeployRunView, Option<NoticeView>, DeployActionView) {
    (DeployRunView { phase: DeployPhaseView::Done(ok), ..s }, None, DeployActionView::Finish(ok))
}

/// Working on the pair (zi, ri): look up its DNS record; past the last
/// zone, the deployment is done.
pub open spec fn deploy_visit(s: DeployRunView, zi: int, ri: int, n: Option<NoticeView>)
    -> (DeployRunView, Option<NoticeView>, DeployActionView) {
    if zi < s.zones.len() && ri < s.routes.len() {
        let t = DeployRunView { phase: DeployPhaseView::DnsLookup, zi, ri, ..s };
        (t, n, DeployActionView::GetDnsRecord(cur_zone(t), cur_comment(t)))
    } else {
        (DeployRunView { phase: DeployPhaseView::Done(true), ..s }, n, DeployActionView::Finish(true))
    }
}

/// The pair after the current one: the next route of the zone, else the
/// first route of the next zone.
pub open spec fn deploy_advance(s: DeployRunView, n: Option<NoticeView>) -> (DeployRunView, Option<NoticeView>, DeployActionView) {
    if s.ri + 1 < s.routes.len() {
        deploy_visit(s, s.zi, s.ri + 1, n)
    } else {
        deploy_visit(s, s.zi + 1, 0, n)
    }
}

/// One step of a deployment: the next state, the notice to show, and the
/// action to perform. An unexpected event or a failed call ends it. Each
/// worker route is looked up and created under its route's own name.
pub open spec fn deploy_next(s: DeployRunView, e: DeployEventView) -> (DeployRunView, Option<NoticeView>, DeployActionView) {
    match s.phase {
        DeployPhaseView::Done(ok) => (s, None, DeployActionView::Finish(ok)),
        DeployPhaseView::Begin => (DeployRunView { phase: DeployPhaseView::ScriptInfo, ..s }, None,
            DeployActionView::GetScriptInfo(s.script)),
        DeployPhaseView::ScriptInfo => match e {
            DeployEventView::ScriptInfo(true) => (DeployRunView { phase: DeployPhaseView::ScriptContent, ..s }, None,
                DeployActionView::GetScriptContent(s.script)),
            DeployEventView::ScriptInfo(false) => (DeployRunView { phase: DeployPhaseView::Confirming, ..s },
                Some(NoticeView::ScriptDiffers), DeployActionView::AskConfirmation),
            _ => deploy_done(s, false),
        },
        DeployPhaseView::ScriptContent => match e {
            DeployEventView::ScriptContent(c) => if c != local_script_content() {
                (DeployRunView { phase: DeployPhaseView::Confirming, ..s }, Some(NoticeView::ScriptDiffers),
                    DeployActionView::AskConfirmation)
            } else {
                (DeployRunView { phase: DeployPhaseView::KvLookup, ..s }, Some(NoticeView::UpToDate),
                    DeployActionView::GetKvNamespaceId(s.kv))
            },
            _ => deploy_done(s, false),
        },
        DeployPhaseView::Confirming => match e {
            DeployEventView::Confirmed(true) => (DeployRunView { phase: DeployPhaseView::Uploading, ..s }, None,
                DeployActionView::CreateWorkerScript(s.script)),
            DeployEventView::Confirmed(false) => (DeployRunView { phase: DeployPhaseView::Done(true), ..s },
                Some(NoticeView::Canceled), DeployActionView::Finish(true)),
            _ => deploy_done(s, false),
        },
        DeployPhaseView::Uploading => match e {
            DeployEventView::Completed => (DeployRunView { phase: DeployPhaseView::KvLookup, ..s },
                Some(NoticeView::ScriptUploaded), DeployActionView::GetKvNamespaceId(s.kv)),
            _ => deploy_done(s, false),
        },
        DeployPhaseView::KvLookup => match e {
            DeployEventView::KvId(None) => (DeployRunView { phase: DeployPhaseView::KvCreating, ..s },
                Some(NoticeView::KvMissing(s.kv)), DeployActionView::CreateKvNamespace(s.kv)),
            DeployEventView::KvId(Some(_)) => (DeployRunView { phase: DeployPhaseView::Subdomain, ..s },
                Some(NoticeView::KvExists(s.kv)), DeployActionView::GetWorkerSubdomain),
            _ => deploy_done(s, false),
        },
        DeployPhaseView::KvCreating => match e {
            DeployEventView::KvCreated(id) => (DeployRunView { phase: DeployPhaseView::Subdomain, ..s },
                Some(NoticeView::KvCreated(s.kv, id)), DeployActionView::GetWorkerSubdomain),
            _ => deploy_done(s, false),
        },
        DeployPhaseView::Subdomain => match e {
            DeployEventView::Subdomain(sub) => deploy_visit(DeployRunView { cname: cname_of(s.script, sub), ..s }, 0, 0, None),
            _ => deploy_done(s, false),
        },
        DeployPhaseView::DnsLookup => match e {
            DeployEventView::DnsRecordFound(None) => (DeployRunView { phase: DeployPhaseView::DnsCreating, ..s },
                Some(NoticeView::DnsMissing(cur_route(s), cur_zone(s))), DeployActionView::CreateDnsRecord(cur_zone(s), new_record(s))),
            DeployEventView::DnsRecordFound(Some(_)) => (DeployRunView { phase: DeployPhaseView::ZoneLookup, ..s },
                Some(NoticeView::DnsExists(cur_route(s), cur_zone(s))), DeployActionView::GetZoneName(cur_zone(s))),
            _ => deploy_done(s, false),
        },
        DeployPhaseView::DnsCreating => match e {
            DeployEventView::Completed => (DeployRunView { phase: DeployPhaseView::ZoneLookup, ..s },
                Some(NoticeView::DnsCreated(cur_route(s), s.cname)), DeployActionView::GetZoneName(cur_zone(s))),
            _ => deploy_done(s, false),
        },
        DeployPhaseView::ZoneLookup => match e {
            DeployEventView::ZoneName(_) => {
                let pattern = cur_route(s);
                (DeployRunView { phase: DeployPhaseView::RouteLookup(pattern), ..s }, None,
                    DeployActionView::GetWorkerRoute(cur_zone(s), pattern, cur_script(s)))
            },
            _ => deploy_done(s, false),
        },
        DeployPhaseView::RouteLookup(pattern) => match e {
            DeployEventView::WorkerRoute(None) => (DeployRunView { phase: DeployPhaseView::RouteCreating, ..s },
                Some(NoticeView::RouteMissing(cur_route(s), cur_script(s), cur_zone(s))),
                DeployActionView::CreateWorkerRoute(cur_zone(s), pattern, cur_script(s))),
            DeployEventView::WorkerRoute(Some(_)) => deploy_advance(s, Some(NoticeView::RouteExists(cur_route(s), cur_script(s), cur_zone(s)))),
            _ => deploy_done(s, false),
        },
        DeployPhaseView::RouteCreating => match e {
            DeployEventView::Completed => deploy_advance(s, Some(NoticeView::RouteCreated(cur_route(s), cur_script(s)))),
            _ => deploy_done(s, false),
        },
    }
}

impl DeployRun {
    /// A deployment of the resources to the given zones.
    pub fn new(resources: &TargetCfResources, zones: Vec<String>) -> (r: DeployRun)
        ensures
            r@.script == resources.worker_script_name@,
            r@.kv == resources.kv_name@,
            r@.routes == route_views(resources.zone_resources.routes@),
            r@.zones == string_views(zones@),
            r@.phase == DeployPhaseView::Begin,
            deploy_ok(r@),
    {
        DeployRun {
            script: resources.worker_script_name.clone(),
            kv: resources.kv_name.clone(),
            routes: copy_routes(&resources.zone_resources.routes),
            zones,
            phase: DeployPhase::Begin,
            cname: String::new(),
            zone_index: 0,
            route_index: 0,
        }
    }

    fn finish(&mut self, ok: bool) -> (r: (Option<DeployNotice>, DeployAction))
        ensures
            (final(self)@, notice_view(r.0), r.1@) == deploy_done(old(self)@, ok),
    {
        self.phase = DeployPhase::Done(ok);
        (None, DeployAction::Finish(ok))
    }

    fn visit(&mut self, zi: usize, ri: usize, n: Option<DeployNotice>) -> (r: (Option<DeployNotice>, DeployAction))
        ensures
            (final(self)@, notice_view(r.0), r.1@) == deploy_visit(old(self)@, zi as int, ri as int, notice_view(n)),
            deploy_ok(final(self)@),
    {
        if zi < self.zones.len() && ri < self.routes.len() {
            self.phase = DeployPhase::DnsLookup;
            self.zone_index = zi;
            self.route_index = ri;
            let zone = self.zones[zi].clone();
            let comment = self.comment();
            (n, DeployAction::GetDnsRecord(zone, comment))
        } else {
            self.phase = DeployPhase::Done(true);
            (n, DeployAction::Finish(true))
        }
    }

    fn advance(&mut self, n: Option<DeployNotice>) -> (r: (Option<DeployNotice>, DeployAction))
        requires
            deploy_at_pair(old(self)@.phase),
            deploy_ok(old(self)@),
        ensures
            (final(self)@, notice_view(r.0), r.1@) == deploy_advance(old(self)@, notice_view(n)),
            deploy_ok(final(self)@),
    {
        assert(route_views(self.routes@).len() == self.routes@.len());
        assert(string_views(self.zones@).len() == self.zones@.len());
        let nr = self.routes.len();
        let zone_count = self.zones.len();
        if self.route_index + 1 < nr {
            let zi = self.zone_index;
            let ri = self.route_index + 1;
            self.visit(zi, ri, n)
        } else {
            let zi = if self.zone_index < zone_count { self.zone_index + 1 } else { zone_count };
            self.visit(zi, 0, n)
        }
    }

    fn comment(&self) -> (r: String)
        requires
            0 <= self.route_index < self.routes@.len(),
        ensures
            r@ == cur_comment(self@),
    {
        let mut c = self.routes[self.route_index].script.clone();
        c.append("-");
        c.append(self.routes[self.route_index].route.as_str());
        c
    }

    /// Takes the answer of the last call and decides the next one.
    #[verifier::rlimit(40)]
    pub fn step(&mut self, event: DeployEvent) -> (r: (Option<DeployNotice>, DeployAction))
        requires
            deploy_ok(old(self)@),
        ensures
            (final(self)@, notice_view(r.0), r.1@) == deploy_next(old(self)@, event@),
            deploy_ok(final(self)@),
    {
        let mut p = DeployPhase::Begin;
        std::mem::swap(&mut p, &mut self.phase);
        proof {
            assert(self@ == DeployRunView { phase: DeployPhaseView::Begin, ..old(self)@ });
        }
        match p {
            DeployPhase::Done(ok) => {
                self.phase = DeployPhase::Done(ok);
                (None, DeployAction::Finish(ok))
            },
            DeployPhase::Begin => {
                self.phase = DeployPhase::ScriptInfo;
                (None, DeployAction::GetScriptInfo(self.script.clone()))
            },
            DeployPhase::ScriptInfo => match event {
                DeployEvent::ScriptInfo(true) => {
                    self.phase = DeployPhase::ScriptContent;
                    (None, DeployAction::GetScriptContent(self.script.clone()))
                },
                DeployEvent::ScriptInfo(false) => {
                    self.phase = DeployPhase::Confirming;
                    (Some(DeployNotice::ScriptDiffers), DeployAction::AskConfirmation)
                },
                _ => self.finish(false),
            },
            DeployPhase::ScriptContent => match event {
                DeployEvent::ScriptContent(c) => {
                    let local = local_script();
                    if !crate::text::str_eq(c.as_str(), local.as_str()) {
                        self.phase = DeployPhase::Confirming;
                        (Some(DeployNotice::ScriptDiffers), DeployAction::AskConfirmation)
                    } else {
                        self.phase = DeployPhase::KvLookup;
                        (Some(DeployNotice::UpToDate), DeployAction::GetKvNamespaceId(self.kv.clone()))
                    }
                },
                _ => self.finish(false),
            },
            DeployPhase::Confirming => match event {
                DeployEvent::Confirmed(true) => {
                    self.phase = DeployPhase::Uploading;
                    (None, DeployAction::CreateWorkerScript(self.script.clone()))
                },
                DeployEvent::Confirmed(false) => {
                    self.phase = DeployPhase::Done(true);
                    (Some(DeployNotice::Canceled), DeployAction::Finish(true))
                },
                _ => self.finish(false),
            },
            DeployPhase::Uploading => match event {
                DeployEvent::Completed => {
                    self.phase = DeployPhase::KvLookup;
                    (Some(DeployNotice::ScriptUploaded), DeployAction::GetKvNamespaceId(self.kv.clone()))
                },
                _ => self.finish(false),
            },
            DeployPhase::KvLookup => match event {
                DeployEvent::KvId(None) => {
                    self.phase = DeployPhase::KvCreating;
                    (Some(DeployNotice::KvMissing(self.kv.clone())), DeployAction::CreateKvNamespace(self.kv.clone()))
                },
                DeployEvent::KvId(Some(_)) => {
                    self.phase = DeployPhase::Subdomain;
                    (Some(DeployNotice::KvExists(self.kv.clone())), DeployAction::GetWorkerSubdomain)
                },
                _ => self.finish(false),
            },
            DeployPhase::KvCreating => match event {
                DeployEvent::KvCreated(id) => {
                    self.phase = DeployPhase::Subdomain;
                    (Some(DeployNotice::KvCreated(self.kv.clone(), id)), DeployAction::GetWorkerSubdomain)
                },
                _ => self.finish(false),
            },
            DeployPhase::Subdomain => match event {
                DeployEvent::Subdomain(sub) => {
                    let mut cname = self.script.clone();
                    match sub {
                        Some(x) => {
                            cname.append(".");
                            cname.append(x.as_str());
                            cname.append(".workers.dev");
                        },
                        None => {
                            cname.append(".workers.dev");
                        },
                    }
                    self.cname = cname;
                    self.visit(0, 0, None)
                },
                _ => self.finish(false),
            },
            DeployPhase::DnsLookup => match event {
                DeployEvent::DnsRecordFound(None) => {
                    let zone = self.zones[self.zone_index].clone();
                    let route = self.routes[self.route_index].route.clone();
                    let record = DNSRecord {
                        id: String::new(),
                        name: route.clone(),
                        record_type: String::from_str("CNAME"),
                        content: self.cname.clone(),
                        comment: self.comment(),
                        proxied: true,
                    };
                    self.phase = DeployPhase::DnsCreating;
                    (Some(DeployNotice::DnsMissing(route, zone.clone())), DeployAction::CreateDnsRecord(zone, record))
                },
                DeployEvent::DnsRecordFound(Some(_)) => {
                    let zone = self.zones[self.zone_index].clone();
                    let route = self.routes[self.route_index].route.clone();
                    self.phase = DeployPhase::ZoneLookup;
                    (Some(DeployNotice::DnsExists(route, zone.clone())), DeployAction::GetZoneName(zone))
                },
                _ => self.finish(false),
            },
            DeployPhase::DnsCreating => match event {
                DeployEvent::Completed => {
                    let zone = self.zones[self.zone_index].clone();
                    let route = self.routes[self.route_index].route.clone();
                    self.phase = DeployPhase::ZoneLookup;
                    (Some(DeployNotice::DnsCreated(route, self.cname.clone())), DeployAction::GetZoneName(zone))
                },
                _ => self.finish(false),
            },
            DeployPhase::ZoneLookup => match event {
                DeployEvent::ZoneName(_) => {
                    let zone = self.zones[self.zone_index].clone();
                    let pattern = self.routes[self.route_index].route.clone();
                    let script = self.routes[self.route_index].script.clone();
                    self.phase = DeployPhase::RouteLookup(pattern.clone());
                    (None, DeployAction::GetWorkerRoute(zone, pattern, script))
                },
                _ => self.finish(false),
            },
            DeployPhase::RouteLookup(pattern) => match event {
                DeployEvent::WorkerRoute(None) => {
                    let zone = self.zones[self.zone_index].clone();
                    let route = self.routes[self.route_index].route.clone();
                    let script = self.routes[self.route_index].script.clone();
                    self.phase = DeployPhase::RouteCreating;
                    (Some(DeployNotice::RouteMissing(route, script.clone(), zone.clone())),
                        DeployAction::CreateWorkerRoute(zone, pattern, script))
                },
                DeployEvent::WorkerRoute(Some(_)) => {
                    let zone = self.zones[self.zone_index].clone();
                    let route = self.routes[self.route_index].route.clone();
                    let script = self.routes[self.route_index].script.clone();
                    self.phase = DeployPhase::RouteLookup(pattern);
                    self.advance(Some(DeployNotice::RouteExists(route, script, zone)))
                },
                _ => self.finish(false),
            },
            DeployPhase::RouteCreating => match event {
                DeployEvent::Completed => {
                    let route = self.routes[self.route_index].route.clone();
                    let script = self.routes[self.route_index].script.clone();
                    self.phase = DeployPhase::RouteCreating;
                    self.advance(Some(DeployNotice::RouteCreated(route, script)))
                },
                _ => self.finish(false),
            },
        }
    }
}


// ---------------------------------------------------------------------------
// Removing.

/// Where a removal stands.
pub enum DestroyPhase {
    Begin,
    ZoneLookup,
    RouteLookup,
    RouteRemoving,
    DnsLookup,
    /// Removing the DNS record with this name.
    DnsRemoving(String),
    KvLookup,
    KvRemoving,
    ScriptLookup,
    ScriptRemoving,
    Done(bool),
}

/// The contents of a removal's phase.
pub enum DestroyPhaseView {
    Begin,
    ZoneLookup,
    RouteLookup,
    RouteRemoving,
    DnsLookup,
    DnsRemoving(Seq<char>),
    KvLookup,
    KvRemoving,
    ScriptLookup,
    ScriptRemoving,
    Done(bool),
}

impl View for DestroyPhase {
    type V = DestroyPhaseView;

    open spec fn view(&self) -> DestroyPhaseView {
        match self {
            DestroyPhase::Begin => DestroyPhaseView::Begin,
            DestroyPhase::ZoneLookup => DestroyPhaseView::ZoneLookup,
            DestroyPhase::RouteLookup => DestroyPhaseView::RouteLookup,
            DestroyPhase::RouteRemoving => DestroyPhaseView::RouteRemoving,
            DestroyPhase::DnsLookup => DestroyPhaseView::DnsLookup,
            DestroyPhase::DnsRemoving(n) => DestroyPhaseView::DnsRemoving(n@),
            DestroyPhase::KvLookup => DestroyPhaseView::KvLookup,
            DestroyPhase::KvRemoving => DestroyPhaseView::KvRemoving,
            DestroyPhase::ScriptLookup => DestroyPhaseView::ScriptLookup,
            DestroyPhase::ScriptRemoving => DestroyPhaseView::ScriptRemoving,
            DestroyPhase::Done(b) => DestroyPhaseView::Done(*b),
        }
    }
}

/// A removal of the resources from the zones.
pub struct DestroyRun {
    pub script: String,
    pub kv: String,
    pub routes: Vec<TargectCfRoutes>,
    pub zones: Vec<String>,
    pub phase: DestroyPhase,
    pub zone_index: usize,
    pub route_index: usize,
}

/// The contents of a removal.
pub struct DestroyRunView {
    pub script: Seq<char>,
    pub kv: Seq<char>,
    pub routes: Seq<(Seq<char>, Seq<char>)>,
    pub zones: Seq<Seq<char>>,
    pub phase: DestroyPhaseView,
    pub zi: int,
    pub ri: int,
}

impl View for DestroyRun {
    type V = DestroyRunView;

    open spec fn view(&self) -> DestroyRunView {
        DestroyRunView {
            script: self.script@,
            kv: self.kv@,
            routes: route_views(self.routes@),
            zones: string_views(self.zones@),
            phase: self.phase@,
            zi: self.zone_index as int,
            ri: self.route_index as int,
        }
    }
}

/// The phase works on the current (zone, route) pair.
pub open spec fn destroy_at_pair(p: DestroyPhaseView) -> bool {
    p is ZoneLookup || p is RouteLookup || p is RouteRemoving || p is DnsLookup || p is DnsRemoving
}

/// The current pair is one of the zones and routes.
pub open spec fn destroy_ok(s: DestroyRunView) -> bool {
    destroy_at_pair(s.phase) ==> (0 <= s.zi < s.zones.len() && 0 <= s.ri < s.routes.len())
}

/// The DNS name, script, zone and comment of the current pair.
pub open spec fn d_route(s: DestroyRunView) -> Seq<char> {
    s.routes[s.ri].0
}

pub open spec fn d_script(s: DestroyRunView) -> Seq<char> {
    s.routes[s.ri].1
}

pub open spec fn d_zone(s: DestroyRunView) -> Seq<char> {
    s.zones[s.zi]
}

pub open spec fn d_comment(s: DestroyRunView) -> Seq<char> {
    d_script(s) + "-"@ + d_route(s)
}

/// A finished removal.
pub open spec fn destroy_done(s: DestroyRunView, ok: bool) -> (DestroyRunView, Option<NoticeView>, DeployActionView) {
    (DestroyRunView { phase: DestroyPhaseView::Done(ok), ..s }, None, DeployActionView::Finish(ok))
}

/// Working on the pair (zi, ri): look up its zone's name; past the last
/// zone, go on with the KV namespace.
pub open spec fn destroy_visit(s: DestroyRunView, zi: int, ri: int, n: Option<NoticeView>)
    -> (DestroyRunView, Option<NoticeView>, DeployActionView) {
    if zi < s.zones.len() && ri < s.routes.len() {
        let t = DestroyRunView { phase: DestroyPhaseView::ZoneLookup, zi, ri, ..s };
        (t, n, DeployActionView::GetZoneName(d_zone(t)))
    } else {
        (DestroyRunView { phase: DestroyPhaseView::KvLookup, ..s }, n, DeployActionView::GetKvNamespaceId(s.kv))
    }
}

/// The pair after the current one.
pub open spec fn destroy_advance(s: DestroyRunView, n: Option<NoticeView>) -> (DestroyRunView, Option<NoticeView>, DeployActionView) {
    if s.ri + 1 < s.routes.len() {
        destroy_visit(s, s.zi, s.ri + 1, n)
    } else {
        destroy_visit(s, s.zi + 1, 0, n)
    }
}

/// One step of a removal: routes and DNS records zone by zone, then the KV
/// namespace, then the script. An unexpected event or a failed call ends it.
/// A worker route is looked up under its route's name, as deployment
/// created it.
pub open spec fn destroy_next(s: DestroyRunView, e: DeployEventView) -> (DestroyRunView, Option<NoticeView>, DeployActionView) {
    match s.phase {
        DestroyPhaseView::Done(ok) => (s, None, DeployActionView::Finish(ok)),
        DestroyPhaseView::Begin => destroy_visit(s, 0, 0, None),
        DestroyPhaseView::ZoneLookup => match e {
            DeployEventView::ZoneName(_) => (DestroyRunView { phase: DestroyPhaseView::RouteLookup, ..s }, None,
                DeployActionView::GetWorkerRoute(d_zone(s), d_route(s), d_script(s))),
            _ => destroy_done(s, false),
        },
        DestroyPhaseView::RouteLookup => match e {
            DeployEventView::WorkerRoute(Some(id)) => (DestroyRunView { phase: DestroyPhaseView::RouteRemoving, ..s },
                Some(NoticeView::RemovingRoute(d_route(s), d_script(s), d_zone(s))), DeployActionView::RemoveWorkerRoute(d_zone(s), id)),
            DeployEventView::WorkerRoute(None) => (DestroyRunView { phase: DestroyPhaseView::DnsLookup, ..s },
                Some(NoticeView::NoRoute(d_route(s), d_script(s), d_zone(s))), DeployActionView::GetDnsRecord(d_zone(s), d_comment(s))),
            _ => destroy_done(s, false),
        },
        DestroyPhaseView::RouteRemoving => match e {
            DeployEventView::Completed => (DestroyRunView { phase: DestroyPhaseView::DnsLookup, ..s },
                Some(NoticeView::RouteRemoved(d_route(s), d_script(s))), DeployActionView::GetDnsRecord(d_zone(s), d_comment(s))),
            _ => destroy_done(s, false),
        },
        DestroyPhaseView::DnsLookup => match e {
            DeployEventView::DnsRecordFound(Some(rec)) => (DestroyRunView { phase: DestroyPhaseView::DnsRemoving(rec.name), ..s },
                Some(NoticeView::RemovingDns(rec.name, d_zone(s))), DeployActionView::RemoveDnsRecord(d_zone(s), rec.id)),
            DeployEventView::DnsRecordFound(None) => destroy_advance(s, Some(NoticeView::NoDns(d_route(s), d_zone(s)))),
            _ => destroy_done(s, false),
        },
        DestroyPhaseView::DnsRemoving(name) => match e {
            DeployEventView::Completed => destroy_advance(s, Some(NoticeView::DnsRemoved(name))),
            _ => destroy_done(s, false),
        },
        DestroyPhaseView::KvLookup => match e {
            DeployEventView::KvId(Some(id)) => (DestroyRunView { phase: DestroyPhaseView::KvRemoving, ..s },
                Some(NoticeView::RemovingKv(s.kv)), DeployActionView::RemoveKvNamespace(id)),
            DeployEventView::KvId(None) => (DestroyRunView { phase: DestroyPhaseView::ScriptLookup, ..s },
                Some(NoticeView::NoKv(s.kv)), DeployActionView::GetScriptInfo(s.script)),
            _ => destroy_done(s, false),
        },
        DestroyPhaseView::KvRemoving => match e {
            DeployEventView::Completed => (DestroyRunView { phase: DestroyPhaseView::ScriptLookup, ..s },
                Some(NoticeView::KvRemoved(s.kv)), DeployActionView::GetScriptInfo(s.script)),
            _ => destroy_done(s, false),
        },
        DestroyPhaseView::ScriptLookup => match e {
            DeployEventView::ScriptInfo(true) => (DestroyRunView { phase: DestroyPhaseView::ScriptRemoving, ..s },
                Some(NoticeView::RemovingScript(s.script)), DeployActionView::RemoveWorkerScript(s.script)),
            DeployEventView::ScriptInfo(false) => (DestroyRunView { phase: DestroyPhaseView::Done(true), ..s },
                Some(NoticeView::NoScript(s.script)), DeployActionView::Finish(true)),
            _ => destroy_done(s, false),
        },
        DestroyPhaseView::ScriptRemoving => match e {
            DeployEventView::Completed => (DestroyRunView { phase: DestroyPhaseView::Done(true), ..s },
                Some(NoticeView::ScriptRemoved), DeployActionView::Finish(true)),
            _ => destroy_done(s, false),
        },
    }
}

impl DestroyRun {
    /// A removal of the resources from the given zones.
    pub fn new(resources: &TargetCfResources, zones: Vec<String>) -> (r: DestroyRun)
        ensures
            r@.script == resources.worker_script_name@,
            r@.kv == resources.kv_name@,
            r@.routes == route_views(resources.zone_resources.routes@),
            r@.zones == string_views(zones@),
            r@.phase == DestroyPhaseView::Begin,
            destroy_ok(r@),
    {
        DestroyRun {
            script: resources.worker_script_name.clone(),
            kv: resources.kv_name.clone(),
            routes: copy_routes(&resources.zone_resources.routes),
            zones,
            phase: DestroyPhase::Begin,
            zone_index: 0,
            route_index: 0,
        }
    }

    fn finish(&mut self, ok: bool) -> (r: (Option<DeployNotice>, DeployAction))
        ensures
            (final(self)@, notice_view(r.0), r.1@) == destroy_done(old(self)@, ok),
    {
        self.phase = DestroyPhase::Done(ok);
        (None, DeployAction::Finish(ok))
    }

    fn visit(&mut self, zi: usize, ri: usize, n: Option<DeployNotice>) -> (r: (Option<DeployNotice>, DeployAction))
        ensures
            (final(self)@, notice_view(r.0), r.1@) == destroy_visit(old(self)@, zi as int, ri as int, notice_view(n)),
            destroy_ok(final(self)@),
    {
        if zi < self.zones.len() && ri < self.routes.len() {
            self.phase = DestroyPhase::ZoneLookup;
            self.zone_index = zi;
            self.route_index = ri;
            (n, DeployAction::GetZoneName(self.zones[zi].clone()))
        } else {
            self.phase = DestroyPhase::KvLookup;
            (n, DeployAction::GetKvNamespaceId(self.kv.clone()))
        }
    }

    fn advance(&mut self, n: Option<DeployNotice>) -> (r: (Option<DeployNotice>, DeployAction))
        requires
            destroy_at_pair(old(self)@.phase),
            destroy_ok(old(self)@),
        ensures
            (final(self)@, notice_view(r.0), r.1@) == destroy_advance(old(self)@, notice_view(n)),
            destroy_ok(final(self)@),
    {
        assert(route_views(self.routes@).len() == self.routes@.len());
        assert(string_views(self.zones@).len() == self.zones@.len());
        let nr = self.routes.len();
        let zone_count = self.zones.len();
        if self.route_index + 1 < nr {
            let zi = self.zone_index;
            let ri = self.route_index + 1;
            self.visit(zi, ri, n)
        } else {
            let zi = if self.zone_index < zone_count { self.zone_index + 1 } else { zone_count };
            self.visit(zi, 0, n)
        }
    }

    fn comment(&self) -> (r: String)
        requires
            0 <= self.route_index < self.routes@.len(),
        ensures
            r@ == d_comment(self@),
    {
        let mut c = self.routes[self.route_index].script.clone();
        c.append("-");
        c.append(self.routes[self.route_index].route.as_str());
        c
    }

    /// Takes the answer of the last call and decides the next one.
    #[verifier::rlimit(40)]
    pub fn step(&mut self, event: DeployEvent) -> (r: (Option<DeployNotice>, DeployAction))
        requires
            destroy_ok(old(self)@),
        ensures
            (final(self)@, notice_view(r.0), r.1@) == destroy_next(old(self)@, event@),
            destroy_ok(final(self)@),
    {
        let mut p = DestroyPhase::Begin;
        std::mem::swap(&mut p, &mut self.phase);
        proof {
            assert(self@ == DestroyRunView { phase: DestroyPhaseView::Begin, ..old(self)@ });
        }
        match p {
            DestroyPhase::Done(ok) => {
                self.phase = DestroyPhase::Done(ok);
                (None, DeployAction::Finish(ok))
            },
            DestroyPhase::Begin => self.visit(0, 0, None),
            DestroyPhase::ZoneLookup => match event {
                DeployEvent::ZoneName(_) => {
                    let zone = self.zones[self.zone_index].clone();
                    let pattern = self.routes[self.route_index].route.clone();
                    let script = self.routes[self.route_index].script.clone();
                    self.phase = DestroyPhase::RouteLookup;
                    (None, DeployAction::GetWorkerRoute(zone, pattern, script))
                },
                _ => self.finish(false),
            },
            DestroyPhase::RouteLookup => match event {
                DeployEvent::WorkerRoute(Some(id)) => {
                    let zone = self.zones[self.zone_index].clone();
                    let route = self.routes[self.route_index].route.clone();
                    let script = self.routes[self.route_index].script.clone();
                    self.phase = DestroyPhase::RouteRemoving;
                    (Some(DeployNotice::RemovingRoute(route, script, zone.clone())), DeployAction::RemoveWorkerRoute(zone, id))
                },
                DeployEvent::WorkerRoute(None) => {
                    let zone = self.zones[self.zone_index].clone();
                    let route = self.routes[self.route_index].route.clone();
                    let script = self.routes[self.route_index].script.clone();
                    let comment = self.comment();
                    self.phase = DestroyPhase::DnsLookup;
                    (Some(DeployNotice::NoRoute(route, script, zone.clone())), DeployAction::GetDnsRecord(zone, comment))
                },
                _ => self.finish(false),
            },
            DestroyPhase::RouteRemoving => match event {
                DeployEvent::Completed => {
                    let zone = self.zones[self.zone_index].clone();
                    let route = self.routes[self.route_index].route.clone();
                    let script = self.routes[self.route_index].script.clone();
                    let comment = self.comment();
                    self.phase = DestroyPhase::DnsLookup;
                    (Some(DeployNotice::RouteRemoved(route, script)), DeployAction::GetDnsRecord(zone, comment))
                },
                _ => self.finish(false),
            },
            DestroyPhase::DnsLookup => match event {
                DeployEvent::DnsRecordFound(Some(rec)) => {
                    let zone = self.zones[self.zone_index].clone();
                    self.phase = DestroyPhase::DnsRemoving(rec.name.clone());
                    (Some(DeployNotice::RemovingDns(rec.name, zone.clone())), DeployAction::RemoveDnsRecord(zone, rec.id))
                },
                DeployEvent::DnsRecordFound(None) => {
                    let zone = self.zones[self.zone_index].clone();
                    let route = self.routes[self.route_index].route.clone();
                    self.phase = DestroyPhase::DnsLookup;
                    self.advance(Some(DeployNotice::NoDns(route, zone)))
                },
                _ => self.finish(false),
            },
            DestroyPhase::DnsRemoving(name) => match event {
                DeployEvent::Completed => {
                    let n = name.clone();
                    self.phase = DestroyPhase::DnsRemoving(name);
                    self.advance(Some(DeployNotice::DnsRemoved(n)))
                },
                _ => self.finish(false),
            },
            DestroyPhase::KvLookup => match event {
                DeployEvent::KvId(Some(id)) => {
                    self.phase = DestroyPhase::KvRemoving;
                    (Some(DeployNotice::RemovingKv(self.kv.clone())), DeployAction::RemoveKvNamespace(id))
                },
                DeployEvent::KvId(None) => {
                    self.phase = DestroyPhase::ScriptLookup;
                    (Some(DeployNotice::NoKv(self.kv.clone())), DeployAction::GetScriptInfo(self.script.clone()))
                },
                _ => self.finish(false),
            },
            DestroyPhase::KvRemoving => match event {
                DeployEvent::Completed => {
                    self.phase = DestroyPhase::ScriptLookup;
                    (Some(DeployNotice::KvRemoved(self.kv.clone())), DeployAction::GetScriptInfo(self.script.clone()))
                },
                _ => self.finish(false),
            },
            DestroyPhase::ScriptLookup => match event {
                DeployEvent::ScriptInfo(true) => {
                    self.phase = DestroyPhase::ScriptRemoving;
                    (Some(DeployNotice::RemovingScript(self.script.clone())), DeployAction::RemoveWorkerScript(self.script.clone()))
                },
                DeployEvent::ScriptInfo(false) => {
                    self.phase = DestroyPhase::Done(true);
                    (Some(DeployNotice::NoScript(self.script.clone())), DeployAction::Finish(true))
                },
                _ => self.finish(false),
            },
            DestroyPhase::ScriptRemoving => match event {
                DeployEvent::Completed => {
                    self.phase = DestroyPhase::Done(true);
                    (Some(DeployNotice::ScriptRemoved), DeployAction::Finish(true))
                },
                _ => self.finish(false),
            },
        }
    }
}

// ---------------------------------------------------------------------------
// Laws.

/// The worker script is only uploaded right after the user confirmed.
pub proof fn lemma_upload_needs_confirmation(s: DeployRunView, e: DeployEventView)
    ensures
        deploy_next(s, e).2 is CreateWorkerScript ==> (s.phase is Confirming && e == DeployEventView::Confirmed(true)),
{
}

/// Declining the upload ends the deployment successfully, telling the user
/// it was canceled, and every later step asks for nothing more.
pub proof fn lemma_decline_ends_deployment(s: DeployRunView, e: DeployEventView)
    requires
        s.phase is Confirming,
    ensures
        deploy_next(s, DeployEventView::Confirmed(false)).1 == Some(NoticeView::Canceled),
        deploy_next(s, DeployEventView::Confirmed(false)).2 == DeployActionView::Finish(true),
        deploy_next(deploy_next(s, DeployEventView::Confirmed(false)).0, e) == (deploy_next(s, DeployEventView::Confirmed(false)).0,
            None::<NoticeView>, DeployActionView::Finish(true)),
{
}

/// A finished deployment or removal stays finished with the same result.
pub proof fn lemma_done_is_final(s: DeployRunView, t: DestroyRunView, e: DeployEventView, ok: bool)
    ensures
        s.phase == DeployPhaseView::Done(ok) ==> deploy_next(s, e) == (s, None::<NoticeView>, DeployActionView::Finish(ok)),
        t.phase == DestroyPhaseView::Done(ok) ==> destroy_next(t, e) == (t, None::<NoticeView>, DeployActionView::Finish(ok)),
{
}

/// A failed call ends a deployment or a removal, once started, with failure.
pub proof fn lemma_failure_ends_run(s: DeployRunView, t: DestroyRunView)
    ensures
        !(s.phase is Done) && !(s.phase is Begin) ==> deploy_next(s, DeployEventView::Failed).2 == DeployActionView::Finish(false),
        !(s.phase is Done) && !(s.phase is Begin) ==> deploy_next(s, DeployEventView::Failed).0.phase == DeployPhaseView::Done(false),
        !(t.phase is Done) && !(t.phase is Begin) ==> destroy_next(t, DeployEventView::Failed).2 == DeployActionView::Finish(false),
{
}

/// Removal only removes what it found: a route, record, namespace or
/// script is removed with the id the preceding lookup returned.
pub proof fn lemma_removal_uses_found_ids(t: DestroyRunView, zone_route: Seq<char>, rec: DNSRecordView, kv_id: Seq<char>)
    ensures
        t.phase is RouteLookup ==> destroy_next(t, DeployEventView::WorkerRoute(Some(zone_route))).2
            == DeployActionView::RemoveWorkerRoute(d_zone(t), zone_route),
        t.phase is DnsLookup ==> destroy_next(t, DeployEventView::DnsRecordFound(Some(rec))).2
            == DeployActionView::RemoveDnsRecord(d_zone(t), rec.id),
        t.phase is KvLookup ==> destroy_next(t, DeployEventView::KvId(Some(kv_id))).2 == DeployActionView::RemoveKvNamespace(kv_id),
{
}

/// A worker route is looked up and created by deployment, and looked up by
/// removal, under the name of its route, whatever its zone is called; so
/// removal finds the route deployment created.
pub proof fn lemma_route_named_by_route(s: DeployRunView, t: DestroyRunView, z: Seq<char>, w: Seq<char>)
    ensures
        s.phase is ZoneLookup ==> deploy_next(s, DeployEventView::ZoneName(z)).2
            == DeployActionView::GetWorkerRoute(cur_zone(s), cur_route(s), cur_script(s)),
        s.phase is ZoneLookup ==> deploy_next(deploy_next(s, DeployEventView::ZoneName(z)).0, DeployEventView::WorkerRoute(None)).2
            == DeployActionView::CreateWorkerRoute(cur_zone(s), cur_route(s), cur_script(s)),
        t.phase is ZoneLookup ==> destroy_next(t, DeployEventView::ZoneName(w)).2
            == DeployActionView::GetWorkerRoute(d_zone(t), d_route(t), d_script(t)),
{
}

/// A KV namespace is created only when the lookup found none: an existing
/// namespace is reported as existing and the deployment goes on to the
/// account's workers subdomain; a missing one is created under the
/// resources' KV name.
pub proof fn lemma_kv_created_only_when_missing(s: DeployRunView, id: Seq<char>)
    requires
        s.phase is KvLookup,
    ensures
        deploy_next(s, DeployEventView::KvId(Some(id))).2 == DeployActionView::GetWorkerSubdomain,
        deploy_next(s, DeployEventView::KvId(Some(id))).1 == Some(NoticeView::KvExists(s.kv)),
        deploy_next(s, DeployEventView::KvId(Some(id))).0.phase is Subdomain,
        deploy_next(s, DeployEventView::KvId(None)).2 == DeployActionView::CreateKvNamespace(s.kv),
        deploy_next(s, DeployEventView::KvId(None)).1 == Some(NoticeView::KvMissing(s.kv)),
{
}

/// The worker's host is `<script>.<subdomain>.workers.dev` when the account
/// has a workers subdomain, and `<script>.workers.dev` when it has none.
pub proof fn lemma_worker_host_from_subdomain(s: DeployRunView, x: Seq<char>)
    requires
        s.phase is Subdomain,
    ensures
        deploy_next(s, DeployEventView::Subdomain(Some(x))).0.cname == s.script + "."@ + x + ".workers.dev"@,
        deploy_next(s, DeployEventView::Subdomain(None)).0.cname == s.script + ".workers.dev"@,
{
}

/// Once the worker's host is known, no later step changes it.
pub proof fn lemma_worker_host_kept(s: DeployRunView, e: DeployEventView)
    requires
        !(s.phase is Subdomain),
    ensures
        deploy_next(s, e).0.cname == s.cname,
{
}

/// A missing DNS record of a route is created as a proxied CNAME named after
/// the route, pointing at the worker's host, with the comment
/// `<script>-<route>` it is found by; an existing one is left alone.
pub proof fn lemma_dns_record_points_at_worker(s: DeployRunView, rec: DNSRecordView)
    requires
        s.phase is DnsLookup,
    ensures
        deploy_next(s, DeployEventView::DnsRecordFound(None)).2 == DeployActionView::CreateDnsRecord(
            s.zones[s.zi],
            DNSRecordView {
                id: Seq::empty(),
                name: s.routes[s.ri].0,
                record_type: "CNAME"@,
                content: s.cname,
                comment: s.routes[s.ri].1 + "-"@ + s.routes[s.ri].0,
                proxied: true,
            },
        ),
        deploy_next(s, DeployEventView::DnsRecordFound(Some(rec))).2 == DeployActionView::GetZoneName(s.zones[s.zi]),
{
}

/// Removal removes only what its lookups found: a route, DNS record, KV
/// namespace or script that was not found is reported as missing and the
/// removal goes on to the next lookup, removing nothing; the DNS record is
/// looked up by the comment `<script>-<route>` it was created with.
pub proof fn lemma_removal_skips_missing(t: DestroyRunView)
    ensures
        t.phase is RouteLookup ==> destroy_next(t, DeployEventView::WorkerRoute(None)).2
            == DeployActionView::GetDnsRecord(t.zones[t.zi], t.routes[t.ri].1 + "-"@ + t.routes[t.ri].0),
        t.phase is DnsLookup ==> !(destroy_next(t, DeployEventView::DnsRecordFound(None)).2 is RemoveDnsRecord),
        t.phase is DnsLookup ==> !(destroy_next(t, DeployEventView::DnsRecordFound(None)).2 is RemoveWorkerRoute),
        t.phase is KvLookup ==> destroy_next(t, DeployEventView::KvId(None)).2 == DeployActionView::GetScriptInfo(t.script),
        t.phase is ScriptLookup ==> destroy_next(t, DeployEventView::ScriptInfo(false)).2 == DeployActionView::Finish(true),
        t.phase is ScriptLookup ==> destroy_next(t, DeployEventView::ScriptInfo(true)).2 == DeployActionView::RemoveWorkerScript(t.script),
{
}

/// The worker script is uploaded only when it differs from the local one:
/// an identical script goes straight on to the KV namespace, a missing or
/// different one first asks the user.
pub proof fn lemma_upload_only_when_changed(s: DeployRunView, c: Seq<char>)
    ensures
        s.phase is Begin ==> deploy_next(s, DeployEventView::Proceed).2 == DeployActionView::GetScriptInfo(s.script),
        s.phase is ScriptInfo ==> deploy_next(s, DeployEventView::ScriptInfo(false)).2 == DeployActionView::AskConfirmation,
        s.phase is ScriptContent && c == local_script_content()
            ==> deploy_next(s, DeployEventView::ScriptContent(c)).2 == DeployActionView::GetKvNamespaceId(s.kv),
        s.phase is ScriptContent && c != local_script_content()
            ==> deploy_next(s, DeployEventView::ScriptContent(c)).2 == DeployActionView::AskConfirmation,
{
}

} // verus!
