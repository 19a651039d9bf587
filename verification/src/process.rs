//! The worker supervisor: how the worker is found, launched and stopped.
use crate::config::{Server, ServerView};
use crate::platform::Platform;
use crate::text::{joined, lemma_texts_push, texts};
use vstd::prelude::*;
use vstd::string::*;

verus! {

/// The DNS-over-HTTPS endpoint that the worker uses when told nothing.
pub open spec fn default_dns() -> Seq<char> {
    "dns.alidns.com/dns-query"@
}

/// The ECH configuration domain that the worker uses when told nothing.
pub open spec fn default_ech() -> Seq<char> {
    "cloudflare-ech.com"@
}

/// A flag followed by its value, or nothing when the pair is left out.
pub open spec fn flag_pair(flag: Seq<char>, value: Seq<char>, present: bool) -> Seq<Seq<char>> {
    if present {
        seq![flag, value]
    } else {
        Seq::empty()
    }
}

/// The worker's argument vector for a profile: one pair per field that is
/// set, in a fixed order. `dns` and `ech` are also left out when they name
/// the worker's own defaults.
pub open spec fn spec_launch_args(server: ServerView) -> Seq<Seq<char>> {
    flag_pair("-f"@, server.server, server.server.len() > 0)
        + flag_pair("-l"@, server.listen, server.listen.len() > 0)
        + flag_pair("-token"@, server.token, server.token.len() > 0)
        + flag_pair("-ip"@, server.ip, server.ip.len() > 0)
        + flag_pair("-dns"@, server.dns, server.dns.len() > 0 && server.dns != default_dns())
        + flag_pair("-ech"@, server.ech, server.ech.len() > 0 && server.ech != default_ech())
        + flag_pair("-routing"@, server.routing_mode, server.routing_mode.len() > 0)
}

fn push_pair(args: &mut Vec<String>, flag: &str, value: &String, present: bool)
    ensures
        texts(final(args)@) == texts(old(args)@) + flag_pair(flag@, value@, present),
{
    if present {
        let flag_text = flag.to_owned();
        let value_text = value.clone();
        proof {
            lemma_texts_push(args@, flag_text);
            lemma_texts_push(args@.push(flag_text), value_text);
        }
        args.push(flag_text);
        args.push(value_text);
        assert(texts(args@) =~= texts(old(args)@) + seq![flag@, value@]);
    } else {
        assert(texts(args@) =~= texts(old(args)@) + Seq::<Seq<char>>::empty());
    }
}

/// Derives the worker's argument vector from a profile.
pub fn launch_args(server: &Server) -> (args: Vec<String>)
    ensures
        texts(args@) == spec_launch_args(server@),
{
    let mut args: Vec<String> = Vec::new();
    assert(texts(args@) =~= Seq::<Seq<char>>::empty());
    let dns_is_default = server.dns == "dns.alidns.com/dns-query".to_owned();
    let ech_is_default = server.ech == "cloudflare-ech.com".to_owned();
    push_pair(&mut args, "-f", &server.server, !server.server.as_str().is_empty());
    push_pair(&mut args, "-l", &server.listen, !server.listen.as_str().is_empty());
    push_pair(&mut args, "-token", &server.token, !server.token.as_str().is_empty());
    push_pair(&mut args, "-ip", &server.ip, !server.ip.as_str().is_empty());
    push_pair(&mut args, "-dns", &server.dns, !server.dns.as_str().is_empty() && !dns_is_default);
    push_pair(&mut args, "-ech", &server.ech, !server.ech.as_str().is_empty() && !ech_is_default);
    push_pair(
        &mut args,
        "-routing",
        &server.routing_mode,
        !server.routing_mode.as_str().is_empty(),
    );
    assert(texts(args@) =~= spec_launch_args(server@));
    args
}

/// Two profiles with the same fields give the same argument vector.
pub proof fn lemma_launch_args_deterministic(a: ServerView, b: ServerView)
    requires
        a.server == b.server,
        a.listen == b.listen,
        a.token == b.token,
        a.ip == b.ip,
        a.dns == b.dns,
        a.ech == b.ech,
        a.routing_mode == b.routing_mode,
    ensures
        spec_launch_args(a) == spec_launch_args(b),
{
}

/// The file name of the worker binary on a platform.
pub open spec fn spec_exe_name(platform: Platform) -> Seq<char> {
    if platform == Platform::Windows {
        "ech-workers.exe"@
    } else {
        "ech-workers"@
    }
}

/// The file name of the worker binary on a platform.
pub fn exe_name(platform: Platform) -> (name: String)
    ensures
        name@ == spec_exe_name(platform),
{
    match platform {
        Platform::Windows => "ech-workers.exe".to_owned(),
        _ => "ech-workers".to_owned(),
    }
}

/// Where a search path starts.
#[derive(Clone, Copy, Debug, PartialEq, Eq, Structural)]
pub enum SearchBase {
    /// The directory that holds the running host executable.
    AppDir,
    /// The current working directory.
    WorkingDir,
}

/// One place to look for the worker binary, as a mathematical record.
pub struct SearchPathView {
    pub base: SearchBase,
    pub dir: Option<Seq<char>>,
    pub file: Seq<char>,
}

/// One place to look for the worker binary: `file` inside `dir`, which is
/// relative to `base`; with no `dir`, inside `base` itself.
#[derive(Debug, PartialEq, Eq)]
pub struct SearchPath {
    pub base: SearchBase,
    pub dir: Option<String>,
    pub file: String,
}

impl View for SearchPath {
    type V = SearchPathView;

    open spec fn view(&self) -> SearchPathView {
        SearchPathView {
            base: self.base,
            dir: match self.dir {
                Some(dir) => Some(dir@),
                None => None,
            },
            file: self.file@,
        }
    }
}

/// The views of a list of search paths.
pub open spec fn search_views(paths: Seq<SearchPath>) -> Seq<SearchPathView> {
    Seq::new(paths.len(), |i: int| paths[i]@)
}

/// A place relative to the host executable's directory.
pub open spec fn beside_app(dir: Option<Seq<char>>, platform: Platform) -> SearchPathView {
    SearchPathView { base: SearchBase::AppDir, dir, file: spec_exe_name(platform) }
}

/// A place relative to the working directory.
pub open spec fn beside_cwd(dir: Option<Seq<char>>, platform: Platform) -> SearchPathView {
    SearchPathView { base: SearchBase::WorkingDir, dir, file: spec_exe_name(platform) }
}

/// The places searched for the worker binary, in order: beside the host
/// executable; on macOS the bundle's resources; three and four levels above
/// the host executable; the working directory and its parent. The places
/// that start at the host executable are left out when its directory is not
/// known.
pub open spec fn spec_search_paths(platform: Platform, app_dir_known: bool) -> Seq<
    SearchPathView,
> {
    let bundled = if platform == Platform::MacOS {
        seq![beside_app(Some("../Resources"@), platform)]
    } else {
        Seq::empty()
    };
    let from_app = if app_dir_known {
        seq![beside_app(None, platform)] + bundled + seq![
            beside_app(Some("../../.."@), platform),
            beside_app(Some("../../../.."@), platform),
        ]
    } else {
        Seq::empty()
    };
    from_app + seq![beside_cwd(None, platform), beside_cwd(Some(".."@), platform)]
}

fn push_path(
    paths: &mut Vec<SearchPath>,
    base: SearchBase,
    dir: Option<&str>,
    platform: Platform,
)
    ensures
        search_views(final(paths)@) == search_views(old(paths)@).push(
            SearchPathView {
                base,
                dir: match dir {
                    Some(dir) => Some(dir@),
                    None => None,
                },
                file: spec_exe_name(platform),
            },
        ),
{
    let dir = match dir {
        Some(dir) => Some(dir.to_owned()),
        None => None,
    };
    let path = SearchPath { base, dir, file: exe_name(platform) };
    paths.push(path);
    assert(search_views(paths@) =~= search_views(old(paths)@).push(path@));
}

/// Lists the places to search for the worker binary, in order.
pub fn search_paths(platform: Platform, app_dir_known: bool) -> (paths: Vec<SearchPath>)
    ensures
        search_views(paths@) == spec_search_paths(platform, app_dir_known),
{
    let mut paths: Vec<SearchPath> = Vec::new();
    assert(search_views(paths@) =~= Seq::<SearchPathView>::empty());
    if app_dir_known {
        push_path(&mut paths, SearchBase::AppDir, None, platform);
        match platform {
            Platform::MacOS => {
                push_path(&mut paths, SearchBase::AppDir, Some("../Resources"), platform);
            },
            _ => {},
        }
        push_path(&mut paths, SearchBase::AppDir, Some("../../.."), platform);
        push_path(&mut paths, SearchBase::AppDir, Some("../../../.."), platform);
    }
    push_path(&mut paths, SearchBase::WorkingDir, None, platform);
    push_path(&mut paths, SearchBase::WorkingDir, Some(".."), platform);
    assert(search_views(paths@) =~= spec_search_paths(platform, app_dir_known));
    paths
}

/// The permission bits that mark a file as executable for anyone.
pub const EXECUTE_BITS: u32 = 0o111;

/// What the host found at one search path.
#[derive(Clone, Copy, Debug, PartialEq, Eq, Structural)]
pub struct Probe {
    /// The path could be made canonical and the canonical path exists.
    pub found: bool,
    /// The file's Unix permission mode, where it could be read.
    pub mode: Option<u32>,
}

impl Probe {
    /// Whether the probed file can serve as the worker binary: it exists,
    /// and on a Unix platform at least one execute bit is set.
    pub open spec fn spec_usable(self, platform: Platform) -> bool {
        self.found && (!platform.is_unix() || match self.mode {
            Some(mode) => mode & EXECUTE_BITS != 0,
            None => false,
        })
    }

    /// Whether the probed file can serve as the worker binary.
    #[verifier::when_used_as_spec(spec_usable)]
    pub fn usable(self, platform: Platform) -> (ok: bool)
        ensures
            ok == self.spec_usable(platform),
    {
        if !self.found {
            return false;
        }
        if !platform.is_unix() {
            return true;
        }
        match self.mode {
            Some(mode) => mode & EXECUTE_BITS != 0,
            None => false,
        }
    }
}

/// Where the worker binary is to be taken from.
#[derive(Clone, Copy, Debug, PartialEq, Eq, Structural)]
pub enum Resolution {
    /// The search path with this index.
    Candidate(usize),
    /// None of the search paths: look the binary's name up on `PATH`.
    PathLookup,
}

/// Whether `resolution` is the outcome of the search over `probes`: the
/// first usable probe wins, and `PATH` is consulted only when there is none.
pub open spec fn resolves(probes: Seq<Probe>, platform: Platform, resolution: Resolution) -> bool {
    match resolution {
        Resolution::Candidate(i) => {
            &&& i < probes.len()
            &&& probes[i as int].spec_usable(platform)
            &&& forall|j: int| 0 <= j < i ==> !(#[trigger] probes[j]).spec_usable(platform)
        },
        Resolution::PathLookup => forall|j: int|
            0 <= j < probes.len() ==> !(#[trigger] probes[j]).spec_usable(platform),
    }
}

/// A named event for the user interface.
#[derive(Debug, PartialEq, Eq)]
pub enum UiEvent {
    /// `log-output`: one line that the worker wrote to its standard output.
    LogOutput(String),
    /// `process-started`: the worker was spawned.
    ProcessStarted,
    /// `process-stopped`: a stop request has run to its end.
    ProcessStopped,
}

/// A user-interface event as a mathematical value.
pub enum UiEventView {
    LogOutput(Seq<char>),
    ProcessStarted,
    ProcessStopped,
}

impl View for UiEvent {
    type V = UiEventView;

    open spec fn view(&self) -> UiEventView {
        match self {
            UiEvent::LogOutput(line) => UiEventView::LogOutput(line@),
            UiEvent::ProcessStarted => UiEventView::ProcessStarted,
            UiEvent::ProcessStopped => UiEventView::ProcessStopped,
        }
    }
}

impl UiEventView {
    /// The name under which the event travels to the user interface.
    pub open spec fn name(self) -> Seq<char> {
        match self {
            UiEventView::LogOutput(_) => "log-output"@,
            UiEventView::ProcessStarted => "process-started"@,
            UiEventView::ProcessStopped => "process-stopped"@,
        }
    }

    /// The text that travels with the event, if any.
    pub open spec fn payload(self) -> Option<Seq<char>> {
        match self {
            UiEventView::LogOutput(line) => Some(line),
            _ => None,
        }
    }
}

impl UiEvent {
    /// The name under which the event travels to the user interface.
    pub fn name(&self) -> (name: String)
        ensures
            name@ == self@.name(),
    {
        match self {
            UiEvent::LogOutput(_) => "log-output".to_owned(),
            UiEvent::ProcessStarted => "process-started".to_owned(),
            UiEvent::ProcessStopped => "process-stopped".to_owned(),
        }
    }

    /// The text that travels with the event, if any.
    pub fn payload(&self) -> (payload: Option<String>)
        ensures
            payload is Some == self@.payload() is Some,
            payload is Some ==> payload->0@ == self@.payload()->0,
    {
        match self {
            UiEvent::LogOutput(line) => Some(line.clone()),
            _ => None,
        }
    }
}

/// The event for one line of the worker's standard output: every line that
/// is not empty is passed on as it is, an empty line gives no event.
pub fn log_event(line: &str) -> (event: Option<UiEvent>)
    ensures
        line@.len() == 0 ==> event is None,
        line@.len() > 0 ==> event is Some && event->0@ == UiEventView::LogOutput(line@),
{
    if line.is_empty() {
        None
    } else {
        Some(UiEvent::LogOutput(line.to_owned()))
    }
}

/// The process-creation flag that keeps a console window from opening.
pub const CREATE_NO_WINDOW: u32 = 0x0800_0000;

/// How long a stop request waits for the worker to exit by itself.
pub const GRACE_PERIOD_MS: u64 = 500;

/// What to spawn, as a mathematical record.
pub struct LaunchView {
    pub program: Seq<char>,
    pub args: Seq<Seq<char>>,
    pub creation_flags: Option<u32>,
}

/// What to spawn: the worker binary called `program`, found by the search
/// order, with `args`, its standard output and error piped. On Windows the
/// process is created with `creation_flags`.
#[derive(Debug, PartialEq, Eq)]
pub struct Launch {
    pub program: String,
    pub args: Vec<String>,
    pub creation_flags: Option<u32>,
}

impl View for Launch {
    type V = LaunchView;

    open spec fn view(&self) -> LaunchView {
        LaunchView {
            program: self.program@,
            args: texts(self.args@),
            creation_flags: self.creation_flags,
        }
    }
}

/// The launch of the worker for a profile on a platform.
pub open spec fn spec_launch(server: ServerView, platform: Platform) -> LaunchView {
    LaunchView {
        program: spec_exe_name(platform),
        args: spec_launch_args(server),
        creation_flags: if platform == Platform::Windows {
            Some(CREATE_NO_WINDOW)
        } else {
            None
        },
    }
}

/// How an attempt to spawn the worker ended.
#[derive(Debug, PartialEq, Eq)]
pub enum SpawnOutcome {
    /// The worker binary was found nowhere.
    NotFound,
    /// The operating system refused to spawn it, for this reason.
    Failed(String),
    /// The worker runs, under this process identifier.
    Started(u32),
}

impl SpawnOutcome {
    /// The process identifier of the worker, where one was started.
    pub open spec fn started(self) -> Option<u32> {
        match self {
            SpawnOutcome::Started(pid) => Some(pid),
            _ => None,
        }
    }

    /// What a start request returns for this outcome while no worker runs.
    pub open spec fn report(self) -> Result<UiEventView, Seq<char>> {
        match self {
            SpawnOutcome::NotFound => Err(not_found_message()),
            SpawnOutcome::Failed(reason) => Err(spawn_failed_message(reason@)),
            SpawnOutcome::Started(_) => Ok(UiEventView::ProcessStarted),
        }
    }
}

/// One step of stopping the worker.
#[derive(Clone, Copy, Debug, PartialEq, Eq, Structural)]
pub enum StopAction {
    /// Send `SIGTERM` to the process with this identifier.
    Terminate(u32),
    /// Kill the child through its handle.
    Kill,
    /// Ask, without blocking, whether the child has exited, and report the
    /// answer to [`after_poll`].
    Poll,
    /// Sleep for this many milliseconds.
    Sleep(u64),
    /// Wait for the child to exit and reap it.
    Reap,
    /// Emit `process-stopped`.
    EmitStopped,
}

/// The supervisor's state as a mathematical record.
pub struct ProcessView {
    /// The process identifier of the live worker, if one is held.
    pub child: Option<u32>,
    /// The running flag.
    pub running: bool,
}

impl ProcessView {
    /// No child, flag cleared.
    pub open spec fn idle() -> ProcessView {
        ProcessView { child: None, running: false }
    }

    /// The running flag says whether a child is held.
    pub open spec fn consistent(self) -> bool {
        self.running == self.child is Some
    }

    /// The state after a spawn was reported: a worker that started is held,
    /// unless one was held already; without one the state stays.
    pub open spec fn after_spawn(self, started: Option<u32>) -> ProcessView {
        match started {
            Some(pid) if !self.running => ProcessView { child: Some(pid), running: true },
            _ => self,
        }
    }

    /// The state after a stop request: always idle.
    pub open spec fn stopped(self) -> ProcessView {
        ProcessView::idle()
    }

    /// The first steps of a stop request in this state: the held child is
    /// asked to end, by signal on Unix and by a kill on Windows, and then
    /// polled; with no child there is only the event to emit.
    pub open spec fn stop_actions(self, platform: Platform) -> Seq<StopAction> {
        match self.child {
            Some(pid) => seq![
                if platform == Platform::Windows {
                    StopAction::Kill
                } else {
                    StopAction::Terminate(pid)
                },
                StopAction::Poll,
            ],
            None => seq![StopAction::EmitStopped],
        }
    }
}

/// The steps that follow the poll of a stop request: a child that is still
/// alive, or whose state could not be read, gets the grace period, is then
/// killed and reaped; in every case `process-stopped` is emitted last.
pub open spec fn spec_after_poll(exited: bool) -> Seq<StopAction> {
    if exited {
        seq![StopAction::EmitStopped]
    } else {
        seq![
            StopAction::Sleep(GRACE_PERIOD_MS),
            StopAction::Kill,
            StopAction::Reap,
            StopAction::EmitStopped,
        ]
    }
}

/// The steps that follow the poll of a stop request.
pub fn after_poll(exited: bool) -> (actions: Vec<StopAction>)
    ensures
        actions@ == spec_after_poll(exited),
{
    let mut actions: Vec<StopAction> = Vec::new();
    if !exited {
        actions.push(StopAction::Sleep(GRACE_PERIOD_MS));
        actions.push(StopAction::Kill);
        actions.push(StopAction::Reap);
    }
    actions.push(StopAction::EmitStopped);
    assert(actions@ =~= spec_after_poll(exited));
    actions
}

/// The refusal to start a second worker.
pub open spec fn already_running_message() -> Seq<char> {
    "进程已在运行"@
}

/// The complaint that the worker binary was found nowhere.
pub open spec fn not_found_message() -> Seq<char> {
    "找不到 ech-workers 可执行文件"@
}

/// The complaint that the operating system refused the spawn.
pub open spec fn spawn_failed_message(reason: Seq<char>) -> Seq<char> {
    "启动进程失败: "@ + reason
}

/// The supervisor: at most one live worker, and a flag that says so.
#[derive(Debug)]
pub struct ProcessManager {
    child: Option<u32>,
    is_running: bool,
}

impl View for ProcessManager {
    type V = ProcessView;

    closed spec fn view(&self) -> ProcessView {
        ProcessView { child: self.child, running: self.is_running }
    }
}

impl ProcessManager {
    /// The flag is set exactly while a child is held.
    #[verifier::type_invariant]
    spec fn flag_follows_child(self) -> bool {
        self.is_running == self.child is Some
    }

    /// A supervisor with no worker.
    pub fn new() -> (manager: Self)
        ensures
            manager@ == ProcessView::idle(),
    {
        ProcessManager { child: None, is_running: false }
    }

    /// Whether a worker is running: the running flag, which is set exactly
    /// while a child is held.
    pub fn is_running(&self) -> (running: bool)
        ensures
            running == self@.running,
            running == self@.child is Some,
            self@.consistent(),
    {
        proof {
            use_type_invariant(self);
        }
        self.is_running
    }

    /// Picks the worker binary from what the host found at the search
    /// paths, in their order.
    pub fn find_executable(platform: Platform, probes: &Vec<Probe>) -> (resolution: Resolution)
        ensures
            resolves(probes@, platform, resolution),
    {
        let mut i: usize = 0;
        while i < probes.len()
            invariant
                i <= probes.len(),
                forall|j: int| 0 <= j < i ==> !(#[trigger] probes@[j]).spec_usable(platform),
            decreases probes.len() - i,
        {
            if probes[i].usable(platform) {
                return Resolution::Candidate(i);
            }
            i += 1;
        }
        Resolution::PathLookup
    }

    /// Begins a start request: refuses while a worker runs, and otherwise
    /// says what to spawn for `server`. The state changes only when the
    /// outcome of the spawn is reported to [`ProcessManager::finish_start`].
    pub fn start(&self, server: &Server, platform: Platform) -> (request: Result<Launch, String>)
        ensures
            self@.running ==> request is Err && request->Err_0@ == already_running_message(),
            !self@.running ==> request is Ok && request->Ok_0@ == spec_launch(server@, platform),
    {
        if self.is_running {
            return Err("进程已在运行".to_owned());
        }
        let creation_flags = match platform {
            Platform::Windows => Some(CREATE_NO_WINDOW),
            _ => None,
        };
        Ok(Launch { program: exe_name(platform), args: launch_args(server), creation_flags })
    }

    /// Ends a start request with the outcome of the spawn. A worker that
    /// started is held from now on and `process-started` is to be emitted;
    /// every other outcome leaves the state as it was and is an error.
    pub fn finish_start(&mut self, outcome: SpawnOutcome) -> (event: Result<UiEvent, String>)
        ensures
            final(self)@ == old(self)@.after_spawn(outcome.started()),
            old(self)@.running ==> event is Err && event->Err_0@ == already_running_message(),
            !old(self)@.running ==> match event {
                Ok(started) => outcome.report() == Ok::<UiEventView, Seq<char>>(started@),
                Err(message) => outcome.report() == Err::<UiEventView, Seq<char>>(message@),
            },
    {
        if self.is_running {
            return Err("进程已在运行".to_owned());
        }
        match outcome {
            SpawnOutcome::NotFound => Err("找不到 ech-workers 可执行文件".to_owned()),
            SpawnOutcome::Failed(reason) => Err(joined("启动进程失败: ", reason.as_str())),
            SpawnOutcome::Started(pid) => {
                *self = ProcessManager { child: Some(pid), is_running: true };
                Ok(UiEvent::ProcessStarted)
            },
        }
    }

    /// Stops the worker: the flag is cleared and the child given up at once,
    /// and the steps that end the child are handed out. Never fails, and
    /// does the same in every state.
    pub fn stop(&mut self, platform: Platform) -> (actions: Vec<StopAction>)
        ensures
            final(self)@ == old(self)@.stopped(),
            actions@ == old(self)@.stop_actions(platform),
    {
        let child = self.child;
        *self = ProcessManager { child: None, is_running: false };
        let mut actions: Vec<StopAction> = Vec::new();
        match child {
            Some(pid) => {
                match platform {
                    Platform::Windows => actions.push(StopAction::Kill),
                    _ => actions.push(StopAction::Terminate(pid)),
                }
                actions.push(StopAction::Poll);
            },
            None => {
                actions.push(StopAction::EmitStopped);
            },
        }
        assert(actions@ =~= old(self)@.stop_actions(platform));
        actions
    }

    /// Gives the worker up when the supervisor goes away: the flag is
    /// cleared, and a child that was held is to be killed without waiting.
    pub fn teardown(&mut self) -> (action: Option<StopAction>)
        ensures
            final(self)@ == old(self)@.stopped(),
            action == if old(self)@.child is Some {
                Some(StopAction::Kill)
            } else {
                None::<StopAction>
            },
    {
        let child = self.child;
        *self = ProcessManager { child: None, is_running: false };
        match child {
            Some(_) => Some(StopAction::Kill),
            None => None,
        }
    }
}

/// Stopping twice is stopping once: after a stop request, in whatever
/// state it was made, a second one leaves the state as it is and finds no
/// child to end.
pub proof fn lemma_stop_idempotent(state: ProcessView, platform: Platform)
    ensures
        state.stopped().stopped() == state.stopped(),
        state.stopped().stop_actions(platform) == seq![StopAction::EmitStopped],
{
}

/// The running flag says whether a child is held, in the first state and
/// after every transition from a state in which it did.
pub proof fn lemma_running_iff_child_held(state: ProcessView, started: Option<u32>)
    requires
        state.consistent(),
    ensures
        ProcessView::idle().consistent(),
        state.after_spawn(started).consistent(),
        state.stopped().consistent(),
{
}

} // verus!
