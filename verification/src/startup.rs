//! How the local server and the Cloudflare tunnel are brought up. Each is a
//! state machine: the caller performs the action it is handed (probe, spawn,
//! sleep, upload, ...), reports what came of it as the next event, and shows
//! the progress updates; the machine decides what comes next.
use vstd::prelude::*;
use vstd::string::StringExecFns;
use crate::health::Style;
use crate::text::str_eq;
use crate::update::{decimal, decimal_string};

verus! {

/// The progress of a background service as shown to the user.
#[derive(PartialEq, Eq, Structural, Clone, Copy)]
pub enum RunStatus {
    Pending,
    Starting,
    Started,
    Error,
    Skipped,
}

/// A progress update: the status and an optional detail.
pub struct RunUpdate {
    pub status: RunStatus,
    pub details: Option<String>,
}

/// The contents of a progress update.
pub type UpdateView = (RunStatus, Option<Seq<char>>);

/// The contents of an optional update.
pub open spec fn update_view(u: Option<RunUpdate>) -> Option<UpdateView> {
    match u {
        Some(u) => Some((u.status, match u.details {
            Some(d) => Some(d@),
            None => None,
        })),
        None => None,
    }
}

fn update(status: RunStatus, details: &str) -> (r: Option<RunUpdate>)
    ensures
        update_view(r) == Some((status, Some(details@))),
{
    Some(RunUpdate { status, details: Some(String::from_str(details)) })
}

fn plain_update(status: RunStatus) -> (r: Option<RunUpdate>)
    ensures
        update_view(r) == Some((status, None::<Seq<char>>)),
{
    Some(RunUpdate { status, details: None })
}

fn retry_update(prefix: &str, attempt: u8) -> (r: Option<RunUpdate>)
    ensures
        update_view(r) == Some((RunStatus::Starting, Some(prefix@ + decimal(attempt as nat)))),
{
    let mut d = String::from_str(prefix);
    d.append(decimal_string(attempt as u16).as_str());
    proof {
        assert(decimal((attempt as u16) as nat) == decimal(attempt as nat));
    }
    Some(RunUpdate { status: RunStatus::Starting, details: Some(d) })
}

// ---------------------------------------------------------------------------
// The table of background services.

/// The word shown for a status.
pub open spec fn run_label(s: RunStatus) -> Seq<char> {
    match s {
        RunStatus::Pending => "pending"@,
        RunStatus::Starting => "starting"@,
        RunStatus::Started => "started"@,
        RunStatus::Error => "error"@,
        RunStatus::Skipped => "skipped"@,
    }
}

/// The spinner frame shown at tick `tick` for a service that is starting.
pub open spec fn spinner_frame(tick: nat) -> char {
    let k = tick % 10;
    if k == 0 { '\u{280b}' }
    else if k == 1 { '\u{2819}' }
    else if k == 2 { '\u{2839}' }
    else if k == 3 { '\u{2838}' }
    else if k == 4 { '\u{283c}' }
    else if k == 5 { '\u{2834}' }
    else if k == 6 { '\u{2826}' }
    else if k == 7 { '\u{2827}' }
    else if k == 8 { '\u{2807}' }
    else { '\u{280f}' }
}

/// The status cell of a service at tick `tick`: the spinner while it is
/// starting, else the status word; then the detail in parentheses.
pub open spec fn cell_text(u: UpdateView, tick: nat) -> Seq<char> {
    let base = if u.0 == RunStatus::Starting { seq![spinner_frame(tick)] } else { run_label(u.0) };
    match u.1 {
        Some(d) => base + " ("@ + d + ")"@,
        None => base,
    }
}

/// How a status cell is drawn: started in the good colour, errors in the
/// warning colour, the rest plain.
pub open spec fn cell_style(s: RunStatus) -> Style {
    match s {
        RunStatus::Started => Style::Good,
        RunStatus::Error => Style::Warn,
        _ => Style::Plain,
    }
}

/// The contents of an update.
pub open spec fn run_update_view(u: RunUpdate) -> UpdateView {
    (u.status, match u.details {
        Some(d) => Some(d@),
        None => None,
    })
}

/// A row of the background services table.
pub struct BoardRow {
    pub name: String,
    pub latest: RunUpdate,
}

/// The background services table: each service with its latest update.
pub struct StatusBoard {
    pub rows: Vec<BoardRow>,
}

/// The contents of the table: each name with its latest update.
pub open spec fn board_view(rows: Seq<BoardRow>) -> Seq<(Seq<char>, UpdateView)> {
    rows.map_values(|r: BoardRow| (r.name@, run_update_view(r.latest)))
}

/// A drawn row: the name, the status cell and its style.
pub struct BoardLine {
    pub name: String,
    pub status: String,
    pub style: Style,
}

fn copy_update(u: &RunUpdate) -> (r: RunUpdate)
    ensures
        run_update_view(r) == run_update_view(*u),
{
    RunUpdate {
        status: u.status,
        details: match &u.details {
            Some(d) => Some(d.clone()),
            None => None,
        },
    }
}

fn spinner_text(tick: u64) -> (r: String)
    ensures
        r@ == seq![spinner_frame(tick as nat)],
{
    proof {
        reveal_strlit("\u{280b}");
        reveal_strlit("\u{2819}");
        reveal_strlit("\u{2839}");
        reveal_strlit("\u{2838}");
        reveal_strlit("\u{283c}");
        reveal_strlit("\u{2834}");
        reveal_strlit("\u{2826}");
        reveal_strlit("\u{2827}");
        reveal_strlit("\u{2807}");
        reveal_strlit("\u{280f}");
    }
    let k = tick % 10;
    let t = if k == 0 { "\u{280b}" }
    else if k == 1 { "\u{2819}" }
    else if k == 2 { "\u{2839}" }
    else if k == 3 { "\u{2838}" }
    else if k == 4 { "\u{283c}" }
    else if k == 5 { "\u{2834}" }
    else if k == 6 { "\u{2826}" }
    else if k == 7 { "\u{2827}" }
    else if k == 8 { "\u{2807}" }
    else { "\u{280f}" };
    String::from_str(t)
}

fn label_of(s: RunStatus) -> (r: String)
    ensures
        r@ == run_label(s),
{
    match s {
        RunStatus::Pending => String::from_str("pending"),
        RunStatus::Starting => String::from_str("starting"),
        RunStatus::Started => String::from_str("started"),
        RunStatus::Error => String::from_str("error"),
        RunStatus::Skipped => String::from_str("skipped"),
    }
}

/// The status cell of an update at tick `tick`.
pub fn status_cell(u: &RunUpdate, tick: u64) -> (r: String)
    ensures
        r@ == cell_text(run_update_view(*u), tick as nat),
{
    let mut s = if u.status == RunStatus::Starting {
        spinner_text(tick)
    } else {
        label_of(u.status)
    };
    match &u.details {
        Some(d) => {
            s.append(" (");
            s.append(d.as_str());
            s.append(")");
        },
        None => {},
    }
    s
}

impl StatusBoard {
    /// The table of the named services, each still pending.
    pub fn new(names: &[String]) -> (r: StatusBoard)
        ensures
            board_view(r.rows@) == names@.map_values(|n: String| (n@, (RunStatus::Pending, None::<Seq<char>>))),
    {
        let mut rows: Vec<BoardRow> = Vec::new();
        let mut i: usize = 0;
        while i < names.len()
            invariant
                i <= names@.len(),
                board_view(rows@) == names@.take(i as int).map_values(|n: String| (n@, (RunStatus::Pending, None::<Seq<char>>))),
            decreases names@.len() - i,
        {
            let ghost prev = board_view(rows@);
            rows.push(BoardRow { name: names[i].clone(), latest: RunUpdate { status: RunStatus::Pending, details: None } });
            assert(board_view(rows@) =~= prev.push((names@[i as int]@, (RunStatus::Pending, None::<Seq<char>>))));
            assert(names@.take(i + 1) =~= names@.take(i as int).push(names@[i as int]));
            i = i + 1;
        }
        assert(names@.take(names@.len() as int) =~= names@);
        StatusBoard { rows }
    }

    /// Records the latest update of the service `name`, in every row of that
    /// name; an update of a service not in the table changes nothing.
    pub fn apply(&mut self, name: &str, update: &RunUpdate)
        ensures
            final(self).rows@.len() == old(self).rows@.len(),
            forall|i: int| 0 <= i < final(self).rows@.len() ==> board_view(final(self).rows@)[i] == (
                if old(self).rows@[i].name@ == name@ {
                    (old(self).rows@[i].name@, run_update_view(*update))
                } else {
                    board_view(old(self).rows@)[i]
                }),
    {
        let ghost orig = self.rows@;
        let mut i: usize = 0;
        while i < self.rows.len()
            invariant
                i <= self.rows@.len(),
                self.rows@.len() == orig.len(),
                forall|j: int| 0 <= j < self.rows@.len() ==> (#[trigger] self.rows@[j]).name@ == orig[j].name@,
                forall|j: int| 0 <= j < self.rows@.len() ==> board_view(self.rows@)[j] == (
                    if j < i && orig[j].name@ == name@ {
                        (orig[j].name@, run_update_view(*update))
                    } else {
                        board_view(orig)[j]
                    }),
            decreases self.rows@.len() - i,
        {
            let ghost prev = self.rows@;
            if str_eq(self.rows[i].name.as_str(), name) {
                let row = BoardRow { name: self.rows[i].name.clone(), latest: copy_update(update) };
                self.rows.set(i, row);
                assert(board_view(self.rows@) =~= board_view(prev).update(i as int, (orig[i as int].name@, run_update_view(*update))));
            }
            i = i + 1;
        }
    }

    /// The rows as drawn at tick `tick`.
    pub fn lines(&self, tick: u64) -> (r: Vec<BoardLine>)
        ensures
            r@.len() == self.rows@.len(),
            forall|i: int| 0 <= i < r@.len() ==> {
                &&& (#[trigger] r@[i]).name@ == self.rows@[i].name@
                &&& r@[i].status@ == cell_text(run_update_view(self.rows@[i].latest), tick as nat)
                &&& r@[i].style == cell_style(self.rows@[i].latest.status)
            },
    {
        let mut out: Vec<BoardLine> = Vec::new();
        let mut i: usize = 0;
        while i < self.rows.len()
            invariant
                i <= self.rows@.len(),
                out@.len() == i,
                forall|j: int| 0 <= j < i ==> {
                    &&& (#[trigger] out@[j]).name@ == self.rows@[j].name@
                    &&& out@[j].status@ == cell_text(run_update_view(self.rows@[j].latest), tick as nat)
                    &&& out@[j].style == cell_style(self.rows@[j].latest.status)
                },
            decreases self.rows@.len() - i,
        {
            let row = &self.rows[i];
            let style = match row.latest.status {
                RunStatus::Started => Style::Good,
                RunStatus::Error => Style::Warn,
                _ => Style::Plain,
            };
            out.push(BoardLine { name: row.name.clone(), status: status_cell(&row.latest, tick), style });
            i = i + 1;
        }
        out
    }
}

// ---------------------------------------------------------------------------
// The local server.

/// Why bringing up the local server failed.
#[derive(PartialEq, Eq, Structural, Clone, Copy, Debug)]
pub enum LocalServerFailure {
    /// The process could not be spawned.
    StartFailed,
    /// It did not answer within ten retries.
    ServerUnreachable,
    /// The session could not be uploaded.
    UploadFailed,
}

/// Where bringing up the local server stands.
#[derive(Clone, Copy)]
pub enum LocalServerPhase {
    Begin,
    /// Probing whether it already runs.
    CheckRunning,
    Spawning,
    /// Probing after the given number of retries.
    Waiting(u8),
    /// Sleeping before the given retry.
    Sleeping(u8),
    Uploading,
    Done(Result<(), LocalServerFailure>),
}

/// What the caller reports back.
#[derive(PartialEq, Eq, Structural, Clone, Copy)]
pub enum LocalServerEvent {
    Proceed,
    /// Whether `<url>linkup/check` answered 200.
    Reachable(bool),
    /// Whether the process was spawned.
    Spawned(bool),
    Slept,
    /// Whether the session was uploaded and saved.
    Uploaded(bool),
}

/// What the caller does next.
#[derive(Clone, Copy)]
pub enum LocalServerAction {
    Probe,
    Spawn,
    /// Sleep this many milliseconds, then report `Slept`.
    Sleep(u64),
    Upload,
    Finish(Result<(), LocalServerFailure>),
}

/// The action a phase waits on.
pub open spec fn local_server_pending(p: LocalServerPhase) -> LocalServerAction {
    match p {
        LocalServerPhase::Begin => LocalServerAction::Probe,
        LocalServerPhase::CheckRunning => LocalServerAction::Probe,
        LocalServerPhase::Spawning => LocalServerAction::Spawn,
        LocalServerPhase::Waiting(_) => LocalServerAction::Probe,
        LocalServerPhase::Sleeping(_) => LocalServerAction::Sleep(1000),
        LocalServerPhase::Uploading => LocalServerAction::Upload,
        LocalServerPhase::Done(r) => LocalServerAction::Finish(r),
    }
}

/// One step of bringing up the local server: the next phase, the update to
/// show, and the action to perform. An event the phase does not wait for
/// changes nothing and repeats the pending action.
pub open spec fn local_server_next(p: LocalServerPhase, e: LocalServerEvent)
    -> (LocalServerPhase, Option<UpdateView>, LocalServerAction) {
    match p {
        LocalServerPhase::Begin => (LocalServerPhase::CheckRunning, Some((RunStatus::Starting, None)), LocalServerAction::Probe),
        LocalServerPhase::CheckRunning => match e {
            LocalServerEvent::Reachable(true) => (LocalServerPhase::Done(Ok(())),
                Some((RunStatus::Started, Some("Was already running"@))), LocalServerAction::Finish(Ok(()))),
            LocalServerEvent::Reachable(false) => (LocalServerPhase::Spawning, None, LocalServerAction::Spawn),
            _ => (p, None, local_server_pending(p)),
        },
        LocalServerPhase::Spawning => match e {
            LocalServerEvent::Spawned(true) => (LocalServerPhase::Waiting(0), None, LocalServerAction::Probe),
            LocalServerEvent::Spawned(false) => (LocalServerPhase::Done(Err(LocalServerFailure::StartFailed)),
                Some((RunStatus::Error, Some("Failed to start"@))),
                LocalServerAction::Finish(Err(LocalServerFailure::StartFailed))),
            _ => (p, None, local_server_pending(p)),
        },
        LocalServerPhase::Waiting(a) => match e {
            LocalServerEvent::Reachable(true) => (LocalServerPhase::Uploading, None, LocalServerAction::Upload),
            LocalServerEvent::Reachable(false) => if a < 10 {
                (LocalServerPhase::Sleeping((a + 1) as u8), None, LocalServerAction::Sleep(1000))
            } else {
                (LocalServerPhase::Done(Err(LocalServerFailure::ServerUnreachable)),
                    Some((RunStatus::Error, Some("Failed to reach server"@))),
                    LocalServerAction::Finish(Err(LocalServerFailure::ServerUnreachable)))
            },
            _ => (p, None, local_server_pending(p)),
        },
        LocalServerPhase::Sleeping(a) => match e {
            LocalServerEvent::Slept => (LocalServerPhase::Waiting(a),
                Some((RunStatus::Starting, Some("Waiting for server... retry #"@ + decimal(a as nat)))),
                LocalServerAction::Probe),
            _ => (p, None, local_server_pending(p)),
        },
        LocalServerPhase::Uploading => match e {
            LocalServerEvent::Uploaded(true) => (LocalServerPhase::Done(Ok(())), Some((RunStatus::Started, None)),
                LocalServerAction::Finish(Ok(()))),
            LocalServerEvent::Uploaded(false) => (LocalServerPhase::Done(Err(LocalServerFailure::UploadFailed)),
                Some((RunStatus::Error, None)), LocalServerAction::Finish(Err(LocalServerFailure::UploadFailed))),
            _ => (p, None, local_server_pending(p)),
        },
        LocalServerPhase::Done(r) => (p, None, LocalServerAction::Finish(r)),
    }
}

/// The retry counter never passes ten.
pub open spec fn local_server_phase_ok(p: LocalServerPhase) -> bool {
    match p {
        LocalServerPhase::Waiting(a) => a <= 10,
        LocalServerPhase::Sleeping(a) => 1 <= a <= 10,
        _ => true,
    }
}

/// Bringing up the local server.
pub struct LocalServerRun {
    pub phase: LocalServerPhase,
}

impl LocalServerRun {
    pub fn new() -> (r: LocalServerRun)
        ensures
            r.phase == LocalServerPhase::Begin,
    {
        LocalServerRun { phase: LocalServerPhase::Begin }
    }

    /// Takes the outcome of the last action and decides the next one.
    pub fn step(&mut self, event: LocalServerEvent) -> (r: (Option<RunUpdate>, LocalServerAction))
        ensures
            (final(self).phase, update_view(r.0), r.1) == local_server_next(old(self).phase, event),
            local_server_phase_ok(old(self).phase) ==> local_server_phase_ok(final(self).phase),
    {
        let p = self.phase;
        match p {
            LocalServerPhase::Begin => {
                self.phase = LocalServerPhase::CheckRunning;
                (plain_update(RunStatus::Starting), LocalServerAction::Probe)
            },
            LocalServerPhase::CheckRunning => match event {
                LocalServerEvent::Reachable(true) => {
                    self.phase = LocalServerPhase::Done(Ok(()));
                    (update(RunStatus::Started, "Was already running"), LocalServerAction::Finish(Ok(())))
                },
                LocalServerEvent::Reachable(false) => {
                    self.phase = LocalServerPhase::Spawning;
                    (None, LocalServerAction::Spawn)
                },
                _ => (None, LocalServerAction::Probe),
            },
            LocalServerPhase::Spawning => match event {
                LocalServerEvent::Spawned(true) => {
                    self.phase = LocalServerPhase::Waiting(0);
                    (None, LocalServerAction::Probe)
                },
                LocalServerEvent::Spawned(false) => {
                    self.phase = LocalServerPhase::Done(Err(LocalServerFailure::StartFailed));
                    (update(RunStatus::Error, "Failed to start"), LocalServerAction::Finish(Err(LocalServerFailure::StartFailed)))
                },
                _ => (None, LocalServerAction::Spawn),
            },
            LocalServerPhase::Waiting(a) => match event {
                LocalServerEvent::Reachable(true) => {
                    self.phase = LocalServerPhase::Uploading;
                    (None, LocalServerAction::Upload)
                },
                LocalServerEvent::Reachable(false) => {
                    if a < 10 {
                        self.phase = LocalServerPhase::Sleeping(a + 1);
                        (None, LocalServerAction::Sleep(1000))
                    } else {
                        self.phase = LocalServerPhase::Done(Err(LocalServerFailure::ServerUnreachable));
                        (update(RunStatus::Error, "Failed to reach server"),
                            LocalServerAction::Finish(Err(LocalServerFailure::ServerUnreachable)))
                    }
                },
                _ => (None, LocalServerAction::Probe),
            },
            LocalServerPhase::Sleeping(a) => match event {
                LocalServerEvent::Slept => {
                    self.phase = LocalServerPhase::Waiting(a);
                    (retry_update("Waiting for server... retry #", a), LocalServerAction::Probe)
                },
                _ => (None, LocalServerAction::Sleep(1000)),
            },
            LocalServerPhase::Uploading => match event {
                LocalServerEvent::Uploaded(true) => {
                    self.phase = LocalServerPhase::Done(Ok(()));
                    (plain_update(RunStatus::Started), LocalServerAction::Finish(Ok(())))
                },
                LocalServerEvent::Uploaded(false) => {
                    self.phase = LocalServerPhase::Done(Err(LocalServerFailure::UploadFailed));
                    (plain_update(RunStatus::Error), LocalServerAction::Finish(Err(LocalServerFailure::UploadFailed)))
                },
                _ => (None, LocalServerAction::Upload),
            },
            LocalServerPhase::Done(r) => (None, LocalServerAction::Finish(r)),
        }
    }
}

// ---------------------------------------------------------------------------
// The Cloudflare tunnel.

/// Why bringing up the tunnel failed.
#[derive(Debug)]
pub enum TunnelFailure {
    /// The session has no name to ask a tunnel for.
    InvalidSessionName(String),
    /// Asking for the tunnel or spawning `cloudflared` failed.
    StartFailed,
    /// The pid file did not show up within eleven retries.
    PidfileNotFound,
    /// The tunnel's host did not resolve within twenty-one retries.
    DnsNotPropagated,
    /// The tunnel URL could not be saved in the state.
    SaveFailed,
}

/// Where bringing up the tunnel stands. The attempt counts the retries so
/// far; the string is the tunnel's URL.
pub enum TunnelPhase {
    Begin,
    CheckRunning,
    Starting,
    PidWait(u8, String),
    PidSleep(u8, String),
    DnsWait(u8, String),
    DnsSleep(u8, String),
    Saving(String),
    Done(Result<(), TunnelFailure>),
}

/// What the caller reports back.
pub enum TunnelEvent {
    Proceed,
    /// Whether a process with the tunnel's service id runs.
    Running(bool),
    /// The tunnel's URL once it was acquired and `cloudflared` spawned;
    /// `None` where that failed.
    Started(Option<String>),
    /// Whether the pid file names a running process.
    PidFile(bool),
    /// Whether the tunnel's host resolves.
    Dns(bool),
    Slept,
    /// Whether the URL was saved in the state.
    Saved(bool),
}

/// What the caller does next.
pub enum TunnelAction {
    FindRunning,
    /// Acquire a tunnel for the session and spawn `cloudflared` pointing at
    /// the local server on this port.
    Start(u16),
    CheckPidFile,
    CheckDns(String),
    Sleep(u64),
    Save(String),
    Finish(Result<(), TunnelFailure>),
}

/// The action a phase waits on.
pub open spec fn tunnel_pending(p: TunnelPhase, port: u16) -> TunnelAction {
    match p {
        TunnelPhase::Begin => TunnelAction::FindRunning,
        TunnelPhase::CheckRunning => TunnelAction::FindRunning,
        TunnelPhase::Starting => TunnelAction::Start(port),
        TunnelPhase::PidWait(_, _) => TunnelAction::CheckPidFile,
        TunnelPhase::PidSleep(_, _) => TunnelAction::Sleep(1000),
        TunnelPhase::DnsWait(_, u) => TunnelAction::CheckDns(u),
        TunnelPhase::DnsSleep(_, _) => TunnelAction::Sleep(2000),
        TunnelPhase::Saving(u) => TunnelAction::Save(u),
        TunnelPhase::Done(r) => TunnelAction::Finish(r),
    }
}

/// One step of bringing up the tunnel for a session named `session` that
/// asked for a tunnel (`use_tunnel`) and whose local server listens on
/// `port`.
pub open spec fn tunnel_next(p: TunnelPhase, e: TunnelEvent, use_tunnel: bool, session: String, port: u16)
    -> (TunnelPhase, Option<UpdateView>, TunnelAction) {
    match p {
        TunnelPhase::Begin => if !use_tunnel {
            (TunnelPhase::Done(Ok(())), Some((RunStatus::Skipped, Some("Requested no tunnel"@))), TunnelAction::Finish(Ok(())))
        } else if session@.len() == 0 {
            (TunnelPhase::Done(Err(TunnelFailure::InvalidSessionName(session))),
                Some((RunStatus::Error, Some("Empty session name"@))),
                TunnelAction::Finish(Err(TunnelFailure::InvalidSessionName(session))))
        } else {
            (TunnelPhase::CheckRunning, None, TunnelAction::FindRunning)
        },
        TunnelPhase::CheckRunning => match e {
            TunnelEvent::Running(true) => (TunnelPhase::Done(Ok(())), Some((RunStatus::Started, Some("Was already running"@))),
                TunnelAction::Finish(Ok(()))),
            TunnelEvent::Running(false) => (TunnelPhase::Starting, Some((RunStatus::Starting, None)), TunnelAction::Start(port)),
            _ => (p, None, tunnel_pending(p, port)),
        },
        TunnelPhase::Starting => match e {
            TunnelEvent::Started(Some(u)) => (TunnelPhase::PidWait(0, u), None, TunnelAction::CheckPidFile),
            TunnelEvent::Started(None) => (TunnelPhase::Done(Err(TunnelFailure::StartFailed)),
                Some((RunStatus::Error, Some("Failed to start"@))), TunnelAction::Finish(Err(TunnelFailure::StartFailed))),
            _ => (p, None, tunnel_pending(p, port)),
        },
        TunnelPhase::PidWait(a, u) => match e {
            TunnelEvent::PidFile(true) => (TunnelPhase::DnsWait(0, u), Some((RunStatus::Starting, None)), TunnelAction::CheckDns(u)),
            TunnelEvent::PidFile(false) => if a <= 10 {
                (TunnelPhase::PidSleep((a + 1) as u8, u), None, TunnelAction::Sleep(1000))
            } else {
                (TunnelPhase::Done(Err(TunnelFailure::PidfileNotFound)), Some((RunStatus::Error, Some("Failed to start tunnel"@))),
                    TunnelAction::Finish(Err(TunnelFailure::PidfileNotFound)))
            },
            _ => (p, None, tunnel_pending(p, port)),
        },
        TunnelPhase::PidSleep(a, u) => match e {
            TunnelEvent::Slept => (TunnelPhase::PidWait(a, u),
                Some((RunStatus::Starting, Some("Waiting for tunnel... retry #"@ + decimal(a as nat)))), TunnelAction::CheckPidFile),
            _ => (p, None, tunnel_pending(p, port)),
        },
        TunnelPhase::DnsWait(a, u) => match e {
            TunnelEvent::Dns(true) => (TunnelPhase::Saving(u), Some((RunStatus::Starting, None)), TunnelAction::Save(u)),
            TunnelEvent::Dns(false) => if a <= 20 {
                (TunnelPhase::DnsSleep((a + 1) as u8, u), None, TunnelAction::Sleep(2000))
            } else {
                (TunnelPhase::Done(Err(TunnelFailure::DnsNotPropagated)),
                    Some((RunStatus::Error, Some("Failed to propagate tunnel DNS"@))),
                    TunnelAction::Finish(Err(TunnelFailure::DnsNotPropagated)))
            },
            _ => (p, None, tunnel_pending(p, port)),
        },
        TunnelPhase::DnsSleep(a, u) => match e {
            TunnelEvent::Slept => (TunnelPhase::DnsWait(a, u),
                Some((RunStatus::Starting, Some("Waiting for tunnel DNS to propagate... retry #"@ + decimal(a as nat)))),
                TunnelAction::CheckDns(u)),
            _ => (p, None, tunnel_pending(p, port)),
        },
        TunnelPhase::Saving(u) => match e {
            TunnelEvent::Saved(true) => (TunnelPhase::Done(Ok(())), Some((RunStatus::Started, None)), TunnelAction::Finish(Ok(()))),
            TunnelEvent::Saved(false) => (TunnelPhase::Done(Err(TunnelFailure::SaveFailed)), Some((RunStatus::Error, None)),
                TunnelAction::Finish(Err(TunnelFailure::SaveFailed))),
            _ => (p, None, tunnel_pending(p, port)),
        },
        TunnelPhase::Done(r) => (p, None, TunnelAction::Finish(r)),
    }
}

/// The retry counters stay within their bounds: eleven retries for the pid
/// file, twenty-one for DNS.
pub open spec fn tunnel_phase_ok(p: TunnelPhase) -> bool {
    match p {
        TunnelPhase::PidWait(a, _) => a <= 11,
        TunnelPhase::PidSleep(a, _) => 1 <= a <= 11,
        TunnelPhase::DnsWait(a, _) => a <= 21,
        TunnelPhase::DnsSleep(a, _) => 1 <= a <= 21,
        _ => true,
    }
}

/// Bringing up the tunnel of a session.
pub struct TunnelRun {
    pub phase: TunnelPhase,
    pub use_tunnel: bool,
    pub session_name: String,
    pub port: u16,
}

impl TunnelRun {
    /// A run for a session named `session_name`; the local server listens on
    /// `local_server_port`, 80 when none is recorded.
    pub fn new(use_tunnel: bool, session_name: String, local_server_port: Option<u16>) -> (r: TunnelRun)
        ensures
            r.phase == TunnelPhase::Begin,
            r.use_tunnel == use_tunnel,
            r.session_name == session_name,
            r.port == match local_server_port {
                Some(p) => p,
                None => 80u16,
            },
    {
        let port = match local_server_port {
            Some(p) => p,
            None => 80,
        };
        TunnelRun { phase: TunnelPhase::Begin, use_tunnel, session_name, port }
    }

    /// Takes the outcome of the last action and decides the next one.
    pub fn step(&mut self, event: TunnelEvent) -> (r: (Option<RunUpdate>, TunnelAction))
        ensures
            (final(self).phase, update_view(r.0), r.1) == tunnel_next(old(self).phase, event,
                old(self).use_tunnel, old(self).session_name, old(self).port),
            final(self).use_tunnel == old(self).use_tunnel,
            final(self).session_name == old(self).session_name,
            final(self).port == old(self).port,
            tunnel_phase_ok(old(self).phase) ==> tunnel_phase_ok(final(self).phase),
    {
        let port = self.port;
        let mut p = TunnelPhase::Begin;
        std::mem::swap(&mut p, &mut self.phase);
        match p {
            TunnelPhase::Begin => {
                if !self.use_tunnel {
                    self.phase = TunnelPhase::Done(Ok(()));
                    (update(RunStatus::Skipped, "Requested no tunnel"), TunnelAction::Finish(Ok(())))
                } else if self.session_name.unicode_len() == 0 {
                    self.phase = TunnelPhase::Done(Err(TunnelFailure::InvalidSessionName(self.session_name.clone())));
                    (update(RunStatus::Error, "Empty session name"),
                        TunnelAction::Finish(Err(TunnelFailure::InvalidSessionName(self.session_name.clone()))))
                } else {
                    self.phase = TunnelPhase::CheckRunning;
                    (None, TunnelAction::FindRunning)
                }
            },
            TunnelPhase::CheckRunning => match event {
                TunnelEvent::Running(true) => {
                    self.phase = TunnelPhase::Done(Ok(()));
                    (update(RunStatus::Started, "Was already running"), TunnelAction::Finish(Ok(())))
                },
                TunnelEvent::Running(false) => {
                    self.phase = TunnelPhase::Starting;
                    (plain_update(RunStatus::Starting), TunnelAction::Start(port))
                },
                _ => {
                    self.phase = TunnelPhase::CheckRunning;
                    (None, TunnelAction::FindRunning)
                },
            },
            TunnelPhase::Starting => match event {
                TunnelEvent::Started(Some(u)) => {
                    self.phase = TunnelPhase::PidWait(0, u);
                    (None, TunnelAction::CheckPidFile)
                },
                TunnelEvent::Started(None) => {
                    self.phase = TunnelPhase::Done(Err(TunnelFailure::StartFailed));
                    (update(RunStatus::Error, "Failed to start"), TunnelAction::Finish(Err(TunnelFailure::StartFailed)))
                },
                _ => {
                    self.phase = TunnelPhase::Starting;
                    (None, TunnelAction::Start(port))
                },
            },
            TunnelPhase::PidWait(a, u) => match event {
                TunnelEvent::PidFile(true) => {
                    let c = u.clone();
                    self.phase = TunnelPhase::DnsWait(0, u);
                    (plain_update(RunStatus::Starting), TunnelAction::CheckDns(c))
                },
                TunnelEvent::PidFile(false) => {
                    if a <= 10 {
                        self.phase = TunnelPhase::PidSleep(a + 1, u);
                        (None, TunnelAction::Sleep(1000))
                    } else {
                        self.phase = TunnelPhase::Done(Err(TunnelFailure::PidfileNotFound));
                        (update(RunStatus::Error, "Failed to start tunnel"), TunnelAction::Finish(Err(TunnelFailure::PidfileNotFound)))
                    }
                },
                _ => {
                    self.phase = TunnelPhase::PidWait(a, u);
                    (None, TunnelAction::CheckPidFile)
                },
            },
            TunnelPhase::PidSleep(a, u) => match event {
                TunnelEvent::Slept => {
                    self.phase = TunnelPhase::PidWait(a, u);
                    (retry_update("Waiting for tunnel... retry #", a), TunnelAction::CheckPidFile)
                },
                _ => {
                    self.phase = TunnelPhase::PidSleep(a, u);
                    (None, TunnelAction::Sleep(1000))
                },
            },
            TunnelPhase::DnsWait(a, u) => match event {
                TunnelEvent::Dns(true) => {
                    let c = u.clone();
                    self.phase = TunnelPhase::Saving(u);
                    (plain_update(RunStatus::Starting), TunnelAction::Save(c))
                },
                TunnelEvent::Dns(false) => {
                    if a <= 20 {
                        self.phase = TunnelPhase::DnsSleep(a + 1, u);
                        (None, TunnelAction::Sleep(2000))
                    } else {
                        self.phase = TunnelPhase::Done(Err(TunnelFailure::DnsNotPropagated));
                        (update(RunStatus::Error, "Failed to propagate tunnel DNS"),
                            TunnelAction::Finish(Err(TunnelFailure::DnsNotPropagated)))
                    }
                },
                _ => {
                    let c = u.clone();
                    self.phase = TunnelPhase::DnsWait(a, u);
                    (None, TunnelAction::CheckDns(c))
                },
            },
            TunnelPhase::DnsSleep(a, u) => match event {
                TunnelEvent::Slept => {
                    let c = u.clone();
                    self.phase = TunnelPhase::DnsWait(a, u);
                    (retry_update("Waiting for tunnel DNS to propagate... retry #", a), TunnelAction::CheckDns(c))
                },
                _ => {
                    self.phase = TunnelPhase::DnsSleep(a, u);
                    (None, TunnelAction::Sleep(2000))
                },
            },
            TunnelPhase::Saving(u) => match event {
                TunnelEvent::Saved(true) => {
                    self.phase = TunnelPhase::Done(Ok(()));
                    (plain_update(RunStatus::Started), TunnelAction::Finish(Ok(())))
                },
                TunnelEvent::Saved(false) => {
                    self.phase = TunnelPhase::Done(Err(TunnelFailure::SaveFailed));
                    (plain_update(RunStatus::Error), TunnelAction::Finish(Err(TunnelFailure::SaveFailed)))
                },
                _ => {
                    let c = u.clone();
                    self.phase = TunnelPhase::Saving(u);
                    (None, TunnelAction::Save(c))
                },
            },
            TunnelPhase::Done(r) => {
                let again = copy_tunnel_result(&r);
                self.phase = TunnelPhase::Done(r);
                (None, TunnelAction::Finish(again))
            },
        }
    }
}

fn copy_tunnel_result(r: &Result<(), TunnelFailure>) -> (c: Result<(), TunnelFailure>)
    ensures
        c == *r,
{
    match r {
        Ok(u) => Ok(*u),
        Err(TunnelFailure::InvalidSessionName(s)) => Err(TunnelFailure::InvalidSessionName(s.clone())),
        Err(TunnelFailure::StartFailed) => Err(TunnelFailure::StartFailed),
        Err(TunnelFailure::PidfileNotFound) => Err(TunnelFailure::PidfileNotFound),
        Err(TunnelFailure::DnsNotPropagated) => Err(TunnelFailure::DnsNotPropagated),
        Err(TunnelFailure::SaveFailed) => Err(TunnelFailure::SaveFailed),
    }
}


// ---------------------------------------------------------------------------
// Caddy, dnsmasq and the local DNS server.

/// The background services brought up after the tunnel.
#[derive(PartialEq, Eq, Structural, Clone, Copy)]
pub enum BackgroundKind {
    /// Caddy: checked first (variables, installation, resolvers), then
    /// spawned unless it runs.
    Caddy,
    /// dnsmasq: checked first (resolvers), then configured and spawned
    /// unless it runs.
    Dnsmasq,
    /// The local DNS server: spawned.
    LocalDns,
}

/// What the check before starting found.
#[derive(PartialEq, Eq, Structural, Clone, Copy)]
pub enum StartCheck {
    /// Local DNS resolves some of the session's domains: start.
    Start,
    /// Local DNS is not installed, or resolves none of the domains.
    NotInstalled,
    /// The resolvers could not be read.
    Unreadable,
}

/// Why a background service failed to come up.
#[derive(PartialEq, Eq, Structural, Clone, Copy, Debug)]
pub enum BackgroundFailure {
    SetupFailed,
    StartFailed,
}

/// Where bringing up a background service stands.
#[derive(Clone, Copy)]
pub enum BackgroundPhase {
    Begin,
    Checking,
    CheckRunning,
    SettingUp,
    Spawning,
    Done(Result<(), BackgroundFailure>),
}

/// What the caller reports back.
#[derive(PartialEq, Eq, Structural, Clone, Copy)]
pub enum BackgroundEvent {
    Proceed,
    Checked(StartCheck),
    Running(bool),
    SetUp(bool),
    Spawned(bool),
}

/// What the caller does next.
#[derive(Clone, Copy)]
pub enum BackgroundAction {
    /// Decide whether the service should start.
    Check,
    /// Look whether it already runs.
    FindRunning,
    /// Write its configuration.
    SetUp,
    Spawn,
    Finish(Result<(), BackgroundFailure>),
}

/// A finished run.
pub open spec fn background_done(r: Result<(), BackgroundFailure>, u: Option<UpdateView>)
    -> (BackgroundPhase, Option<UpdateView>, BackgroundAction) {
    (BackgroundPhase::Done(r), u, BackgroundAction::Finish(r))
}

/// One step of bringing up a background service. An event the phase does
/// not wait for ends the run as a failed start.
pub open spec fn background_next(kind: BackgroundKind, p: BackgroundPhase, e: BackgroundEvent)
    -> (BackgroundPhase, Option<UpdateView>, BackgroundAction) {
    match p {
        BackgroundPhase::Done(r) => (p, None, BackgroundAction::Finish(r)),
        BackgroundPhase::Begin => if kind == BackgroundKind::LocalDns {
            (BackgroundPhase::Spawning, Some((RunStatus::Starting, None)), BackgroundAction::Spawn)
        } else {
            (BackgroundPhase::Checking, None, BackgroundAction::Check)
        },
        BackgroundPhase::Checking => match e {
            BackgroundEvent::Checked(StartCheck::Start) => (BackgroundPhase::CheckRunning, Some((RunStatus::Starting, None)),
                BackgroundAction::FindRunning),
            BackgroundEvent::Checked(StartCheck::NotInstalled) => background_done(Ok(()),
                Some((RunStatus::Skipped, Some("Local DNS not installed"@)))),
            BackgroundEvent::Checked(StartCheck::Unreadable) => background_done(Ok(()),
                Some((RunStatus::Skipped, Some("Failed to read resolvers folder"@)))),
            _ => background_done(Err(BackgroundFailure::StartFailed), Some((RunStatus::Error, Some("Failed to start"@)))),
        },
        BackgroundPhase::CheckRunning => match e {
            BackgroundEvent::Running(true) => background_done(Ok(()), Some((RunStatus::Started, Some("Was already running"@)))),
            BackgroundEvent::Running(false) => if kind == BackgroundKind::Dnsmasq {
                (BackgroundPhase::SettingUp, None, BackgroundAction::SetUp)
            } else {
                (BackgroundPhase::Spawning, None, BackgroundAction::Spawn)
            },
            _ => background_done(Err(BackgroundFailure::StartFailed), Some((RunStatus::Error, Some("Failed to start"@)))),
        },
        BackgroundPhase::SettingUp => match e {
            BackgroundEvent::SetUp(true) => (BackgroundPhase::Spawning, None, BackgroundAction::Spawn),
            BackgroundEvent::SetUp(false) => background_done(Err(BackgroundFailure::SetupFailed),
                Some((RunStatus::Error, Some("Failed to setup"@)))),
            _ => background_done(Err(BackgroundFailure::StartFailed), Some((RunStatus::Error, Some("Failed to start"@)))),
        },
        BackgroundPhase::Spawning => match e {
            BackgroundEvent::Spawned(true) => background_done(Ok(()), Some((RunStatus::Started, None))),
            _ => background_done(Err(BackgroundFailure::StartFailed), Some((RunStatus::Error, Some("Failed to start"@)))),
        },
    }
}

/// Bringing up one background service.
pub struct BackgroundRun {
    pub kind: BackgroundKind,
    pub phase: BackgroundPhase,
}

impl BackgroundRun {
    pub fn new(kind: BackgroundKind) -> (r: BackgroundRun)
        ensures
            r.kind == kind,
            r.phase == BackgroundPhase::Begin,
    {
        BackgroundRun { kind, phase: BackgroundPhase::Begin }
    }

    fn done(&mut self, r: Result<(), BackgroundFailure>, u: Option<RunUpdate>) -> (out: (Option<RunUpdate>, BackgroundAction))
        ensures
            (final(self).phase, update_view(out.0), out.1) == background_done(r, update_view(u)),
            final(self).kind == old(self).kind,
    {
        self.phase = BackgroundPhase::Done(r);
        (u, BackgroundAction::Finish(r))
    }

    /// Takes the outcome of the last action and decides the next one.
    pub fn step(&mut self, event: BackgroundEvent) -> (r: (Option<RunUpdate>, BackgroundAction))
        ensures
            (final(self).phase, update_view(r.0), r.1) == background_next(old(self).kind, old(self).phase, event),
            final(self).kind == old(self).kind,
    {
        let p = self.phase;
        match p {
            BackgroundPhase::Done(r) => (None, BackgroundAction::Finish(r)),
            BackgroundPhase::Begin => {
                if self.kind == BackgroundKind::LocalDns {
                    self.phase = BackgroundPhase::Spawning;
                    (plain_update(RunStatus::Starting), BackgroundAction::Spawn)
                } else {
                    self.phase = BackgroundPhase::Checking;
                    (None, BackgroundAction::Check)
                }
            },
            BackgroundPhase::Checking => match event {
                BackgroundEvent::Checked(StartCheck::Start) => {
                    self.phase = BackgroundPhase::CheckRunning;
                    (plain_update(RunStatus::Starting), BackgroundAction::FindRunning)
                },
                BackgroundEvent::Checked(StartCheck::NotInstalled) => self.done(Ok(()),
                    update(RunStatus::Skipped, "Local DNS not installed")),
                BackgroundEvent::Checked(StartCheck::Unreadable) => self.done(Ok(()),
                    update(RunStatus::Skipped, "Failed to read resolvers folder")),
                _ => self.done(Err(BackgroundFailure::StartFailed), update(RunStatus::Error, "Failed to start")),
            },
            BackgroundPhase::CheckRunning => match event {
                BackgroundEvent::Running(true) => self.done(Ok(()), update(RunStatus::Started, "Was already running")),
                BackgroundEvent::Running(false) => {
                    if self.kind == BackgroundKind::Dnsmasq {
                        self.phase = BackgroundPhase::SettingUp;
                        (None, BackgroundAction::SetUp)
                    } else {
                        self.phase = BackgroundPhase::Spawning;
                        (None, BackgroundAction::Spawn)
                    }
                },
                _ => self.done(Err(BackgroundFailure::StartFailed), update(RunStatus::Error, "Failed to start")),
            },
            BackgroundPhase::SettingUp => match event {
                BackgroundEvent::SetUp(true) => {
                    self.phase = BackgroundPhase::Spawning;
                    (None, BackgroundAction::Spawn)
                },
                BackgroundEvent::SetUp(false) => self.done(Err(BackgroundFailure::SetupFailed),
                    update(RunStatus::Error, "Failed to setup")),
                _ => self.done(Err(BackgroundFailure::StartFailed), update(RunStatus::Error, "Failed to start")),
            },
            BackgroundPhase::Spawning => match event {
                BackgroundEvent::Spawned(true) => self.done(Ok(()), plain_update(RunStatus::Started)),
                _ => self.done(Err(BackgroundFailure::StartFailed), update(RunStatus::Error, "Failed to start")),
            },
        }
    }
}

/// What a service's check before starting (`None` where it failed) means
/// for its start.
pub fn start_check(should_start: Option<bool>) -> (r: StartCheck)
    ensures
        r == match should_start {
            Some(true) => StartCheck::Start,
            Some(false) => StartCheck::NotInstalled,
            None => StartCheck::Unreadable,
        },
{
    match should_start {
        Some(true) => StartCheck::Start,
        Some(false) => StartCheck::NotInstalled,
        None => StartCheck::Unreadable,
    }
}

/// The local server is spawned only when it does not answer yet, and the
/// session is uploaded only once the spawned server answers; a server that
/// does not answer after ten retries is given up on without an upload.
pub proof fn lemma_local_server_spawn_and_upload(a: u8)
    ensures
        local_server_next(LocalServerPhase::CheckRunning, LocalServerEvent::Reachable(true)).2 == LocalServerAction::Finish(Ok(())),
        local_server_next(LocalServerPhase::CheckRunning, LocalServerEvent::Reachable(false)).2 == LocalServerAction::Spawn,
        local_server_next(LocalServerPhase::Waiting(a), LocalServerEvent::Reachable(true)).2 == LocalServerAction::Upload,
        local_server_next(LocalServerPhase::Waiting(a), LocalServerEvent::Reachable(false)).2 != LocalServerAction::Upload,
        a < 10 ==> local_server_next(LocalServerPhase::Waiting(a), LocalServerEvent::Reachable(false)).2 == LocalServerAction::Sleep(1000),
        a >= 10 ==> local_server_next(LocalServerPhase::Waiting(a), LocalServerEvent::Reachable(false)).2
            == LocalServerAction::Finish(Err(LocalServerFailure::ServerUnreachable)),
        local_server_next(LocalServerPhase::Uploading, LocalServerEvent::Uploaded(true)).2 == LocalServerAction::Finish(Ok(())),
        local_server_next(LocalServerPhase::Uploading, LocalServerEvent::Uploaded(false)).2
            == LocalServerAction::Finish(Err(LocalServerFailure::UploadFailed)),
{
}

/// No tunnel is started when none is wanted, when the session has no name,
/// or when one already runs; a started tunnel's URL is saved only once its
/// pid file is there and its host resolves.
pub proof fn lemma_tunnel_start_and_save(session: String, port: u16, a: u8, u: String)
    ensures
        tunnel_next(TunnelPhase::Begin, TunnelEvent::Proceed, false, session, port).2 == TunnelAction::Finish(Ok(())),
        session@.len() == 0 ==> tunnel_next(TunnelPhase::Begin, TunnelEvent::Proceed, true, session, port).2
            == TunnelAction::Finish(Err(TunnelFailure::InvalidSessionName(session))),
        session@.len() > 0 ==> tunnel_next(TunnelPhase::Begin, TunnelEvent::Proceed, true, session, port).2 == TunnelAction::FindRunning,
        tunnel_next(TunnelPhase::CheckRunning, TunnelEvent::Running(true), true, session, port).2 == TunnelAction::Finish(Ok(())),
        tunnel_next(TunnelPhase::CheckRunning, TunnelEvent::Running(false), true, session, port).2 == TunnelAction::Start(port),
        tunnel_next(TunnelPhase::PidWait(a, u), TunnelEvent::PidFile(true), true, session, port).2 == TunnelAction::CheckDns(u),
        !(tunnel_next(TunnelPhase::PidWait(a, u), TunnelEvent::PidFile(false), true, session, port).2 is Save),
        tunnel_next(TunnelPhase::DnsWait(a, u), TunnelEvent::Dns(true), true, session, port).2 == TunnelAction::Save(u),
        !(tunnel_next(TunnelPhase::DnsWait(a, u), TunnelEvent::Dns(false), true, session, port).2 is Save),
{
}

/// A background service is spawned only when its check says it should
/// start and it does not run yet; dnsmasq writes its configuration first;
/// a service that should not start, or that already runs, is never spawned.
pub proof fn lemma_background_spawn_only_when_needed(kind: BackgroundKind)
    ensures
        kind != BackgroundKind::LocalDns ==> background_next(kind, BackgroundPhase::Begin, BackgroundEvent::Proceed).2 is Check,
        !(background_next(kind, BackgroundPhase::Checking, BackgroundEvent::Checked(StartCheck::NotInstalled)).2 is Spawn),
        !(background_next(kind, BackgroundPhase::Checking, BackgroundEvent::Checked(StartCheck::Unreadable)).2 is Spawn),
        background_next(kind, BackgroundPhase::Checking, BackgroundEvent::Checked(StartCheck::Start)).2 is FindRunning,
        background_next(kind, BackgroundPhase::CheckRunning, BackgroundEvent::Running(true)).2 is Finish,
        kind == BackgroundKind::Dnsmasq ==> background_next(kind, BackgroundPhase::CheckRunning, BackgroundEvent::Running(false)).2 is SetUp,
        kind != BackgroundKind::Dnsmasq ==> background_next(kind, BackgroundPhase::CheckRunning, BackgroundEvent::Running(false)).2 is Spawn,
        background_next(kind, BackgroundPhase::SettingUp, BackgroundEvent::SetUp(true)).2 is Spawn,
        !(background_next(kind, BackgroundPhase::SettingUp, BackgroundEvent::SetUp(false)).2 is Spawn),
{
}

} // verus!
