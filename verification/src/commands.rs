//! The commands that the user interface invokes, with the rules that span
//! the catalog, the supervisor and the proxy controller.
//!
//! A command that changes the catalog leaves writing it out to the host:
//! after every `Ok` of such a command the host persists the catalog and
//! hands a failure of that on to the caller as it is.
use crate::config::{
    default_server, is_generated_id, is_new_default, server_view, server_views, AppConfigView, ConfigManager,
    Server, ServerView,
};
use crate::platform::Platform;
use crate::process::{
    spec_launch, Launch, LaunchView, ProcessManager, ProcessView, StopAction,
};
use crate::proxy::{plan_result_view, listing_view, spec_set_system_proxy, ProxyPlan, ProxyPlanView};
use crate::text::joined;
use vstd::prelude::*;
use vstd::string::*;

verus! {

/// The complaint that no profile has the identifier.
pub open spec fn missing_message() -> Seq<char> {
    "服务器不存在"@
}

/// The refusal to delete the only profile.
pub open spec fn keep_one_message() -> Seq<char> {
    "至少需要保留一个服务器配置"@
}

/// The complaint that there is no current profile.
pub open spec fn no_selection_message() -> Seq<char> {
    "没有选择服务器"@
}

/// The complaint that the current profile names no server.
pub open spec fn need_server_message() -> Seq<char> {
    "请输入服务地址"@
}

/// The complaint that the current profile names no listen address.
pub open spec fn need_listen_message() -> Seq<char> {
    "请输入监听地址"@
}

/// The message after the worker was started for the profile called `name`.
pub open spec fn started_message(name: Seq<char>) -> Seq<char> {
    "已启动服务器: "@ + name
}

/// The message after a stop request.
pub open spec fn stopped_message() -> Seq<char> {
    "进程已停止"@
}

/// The listen address that the proxy is pointed at when no profile is
/// current.
pub open spec fn fallback_listen() -> Seq<char> {
    "127.0.0.1:30000"@
}

/// All profiles, in their order.
pub fn get_servers(config: &ConfigManager) -> (servers: Vec<Server>)
    ensures
        server_views(servers@) == config@.servers,
{
    config.get_servers()
}

/// The current profile.
pub fn get_current_server(config: &ConfigManager) -> (server: Option<Server>)
    ensures
        server_view(server) == config@.current(),
{
    config.get_current_server()
}

/// The identifier of the current profile.
pub fn get_current_server_id(config: &ConfigManager) -> (id: Option<String>)
    ensures
        crate::config::id_view(id) == config@.current_server_id,
{
    config.get_current_server_id()
}

/// Selects the profile with the identifier `id`. Always succeeds; an
/// identifier that no profile has changes nothing.
pub fn set_current_server(config: &mut ConfigManager, id: String) -> (done: Result<(), String>)
    ensures
        done is Ok,
        final(config)@ == old(config)@.selected(id@),
{
    config.set_current_server(id.as_str());
    Ok(())
}

/// The profile that a new entry called `name` starts as: the default
/// profile under the identifier `id`, with that name.
pub open spec fn new_profile(id: Seq<char>, name: Seq<char>) -> ServerView {
    ServerView { name, ..default_server(id) }
}

/// Adds a profile called `name`, with the default settings and a generated
/// identifier, and makes it current. Any name will do, the empty one too.
/// Always succeeds, and returns the profile that was added. Identifiers
/// that were distinct stay so, unless the generated one is in the catalog
/// already.
pub fn add_server(config: &mut ConfigManager, name: String) -> (added: Result<Server, String>)
    ensures
        added is Ok,
        is_generated_id(added->Ok_0@.id),
        added->Ok_0@ == new_profile(added->Ok_0@.id, name@),
        final(config)@ == old(config)@.added(added->Ok_0@),
        old(config)@.valid() && !old(config)@.has_id(added->Ok_0@.id) ==> final(config)@.valid(),
{
    let mut server = Server::default();
    server.name = name;
    server.id = String::new();
    let ghost wanted = server@;
    let id = config.add_server(server);
    let servers = config.get_servers();
    let ghost stored = ServerView { id: id@, ..wanted };
    assert(config@.servers == old(config)@.servers.push(stored));
    assert(server_views(servers@).len() == servers@.len());
    let last = servers.len() - 1;
    assert(servers@[last as int]@ == server_views(servers@)[last as int]);
    assert(config@.servers[last as int] == stored);
    Ok(servers[last].clone())
}

/// Puts `server` in the place of the profile with its identifier. Fails,
/// and changes nothing, exactly where no profile has that identifier.
pub fn update_server(config: &mut ConfigManager, server: Server) -> (done: Result<(), String>)
    ensures
        final(config)@ == old(config)@.updated(server@),
        old(config)@.has_id(server@.id) ==> done is Ok,
        !old(config)@.has_id(server@.id) ==> done is Err && done->Err_0@ == missing_message(),
{
    if config.update_server(server) {
        Ok(())
    } else {
        Err("服务器不存在".to_owned())
    }
}

/// Deletes the profile with the identifier `id`. The only profile of a
/// catalog is never deleted: with one profile or none the command is
/// refused and changes nothing. Otherwise it fails exactly where no
/// profile has that identifier.
pub fn delete_server(config: &mut ConfigManager, id: String) -> (done: Result<(), String>)
    ensures
        old(config)@.servers.len() <= 1 ==> final(config)@ == old(config)@ && done is Err
            && done->Err_0@ == keep_one_message(),
        old(config)@.servers.len() > 1 ==> {
            &&& final(config)@.servers.len() > 0
            &&& final(config)@ == old(config)@.deleted(id@, final(config)@.servers[0])
            &&& old(config)@.kept(id@).len() == 0 ==> is_new_default(final(config)@.servers[0])
            &&& old(config)@.has_id(id@) ==> done is Ok
            &&& !old(config)@.has_id(id@) ==> done is Err && done->Err_0@ == missing_message()
        },
{
    if config.get_servers().len() <= 1 {
        return Err("至少需要保留一个服务器配置".to_owned());
    }
    if config.delete_server(id.as_str()) {
        Ok(())
    } else {
        Err("服务器不存在".to_owned())
    }
}

/// Gives the profile with the identifier `id` a new name; any name will
/// do, the empty one too. Fails, and changes nothing, exactly where no
/// profile has that identifier.
pub fn rename_server(config: &mut ConfigManager, id: String, new_name: String) -> (done: Result<
    (),
    String,
>)
    ensures
        final(config)@ == old(config)@.renamed(id@, new_name@),
        old(config)@.has_id(id@) ==> done is Ok,
        !old(config)@.has_id(id@) ==> done is Err && done->Err_0@ == missing_message(),
{
    if config.rename_server(id.as_str(), new_name.as_str()) {
        Ok(())
    } else {
        Err("服务器不存在".to_owned())
    }
}

/// What a start command asks of the host, as a mathematical record.
pub struct StartRequestView {
    pub launch: LaunchView,
    pub message: Seq<char>,
}

/// What a start command asks of the host: to spawn `launch`, to report the
/// outcome to the supervisor, and to answer with `message` once the worker
/// has started.
#[derive(Debug, PartialEq, Eq)]
pub struct StartRequest {
    pub launch: Launch,
    pub message: String,
}

impl View for StartRequest {
    type V = StartRequestView;

    open spec fn view(&self) -> StartRequestView {
        StartRequestView { launch: self.launch@, message: self.message@ }
    }
}

/// The outcome of a start command as a mathematical value.
pub open spec fn start_result_view(result: Result<StartRequest, String>) -> Result<
    StartRequestView,
    Seq<char>,
> {
    match result {
        Ok(request) => Ok(request@),
        Err(message) => Err(message@),
    }
}

/// The answer to a start command. It is refused, in this order: where
/// there is no current profile; where the current profile names no server;
/// where it names no listen address; where a worker runs already.
pub open spec fn spec_start_process(
    config: AppConfigView,
    process: ProcessView,
    platform: Platform,
) -> Result<StartRequestView, Seq<char>> {
    match config.current() {
        None => Err(no_selection_message()),
        Some(server) => if server.server.len() == 0 {
            Err(need_server_message())
        } else if server.listen.len() == 0 {
            Err(need_listen_message())
        } else if process.running {
            Err(crate::process::already_running_message())
        } else {
            Ok(
                StartRequestView {
                    launch: spec_launch(server, platform),
                    message: started_message(server.name),
                },
            )
        },
    }
}

/// Decides a start command: the worker is launched for the current
/// profile, which must name a server and a listen address.
pub fn start_process(config: &ConfigManager, process: &ProcessManager, platform: Platform) -> (result:
    Result<StartRequest, String>)
    ensures
        start_result_view(result) == spec_start_process(config@, process@, platform),
{
    let server = match config.get_current_server() {
        Some(server) => server,
        None => {
            return Err("没有选择服务器".to_owned());
        },
    };
    if server.server.as_str().is_empty() {
        return Err("请输入服务地址".to_owned());
    }
    if server.listen.as_str().is_empty() {
        return Err("请输入监听地址".to_owned());
    }
    match process.start(&server, platform) {
        Ok(launch) => Ok(
            StartRequest { launch, message: joined("已启动服务器: ", server.name.as_str()) },
        ),
        Err(message) => Err(message),
    }
}

/// What a stop command asks of the host.
#[derive(Debug, PartialEq, Eq)]
pub struct StopRequest {
    /// The first steps of the stop; see [`crate::process::after_poll`] for
    /// those that follow a poll.
    pub actions: Vec<StopAction>,
    /// The answer to the caller.
    pub message: String,
}

/// Decides a stop command. It never fails: the supervisor is idle from
/// now on, in whatever state it was.
pub fn stop_process(process: &mut ProcessManager, platform: Platform) -> (request: StopRequest)
    ensures
        final(process)@ == old(process)@.stopped(),
        request.actions@ == old(process)@.stop_actions(platform),
        request.message@ == stopped_message(),
{
    let actions = process.stop(platform);
    StopRequest { actions, message: "进程已停止".to_owned() }
}

/// Whether a worker is running.
pub fn is_process_running(process: &ProcessManager) -> (running: bool)
    ensures
        running == process@.running,
{
    process.is_running()
}

/// The listen address that a proxy request is made for: that of the
/// current profile, or the fallback where there is none.
pub open spec fn proxy_listen(config: AppConfigView) -> Seq<char> {
    match config.current() {
        Some(server) => server.listen,
        None => fallback_listen(),
    }
}

/// Decides a proxy command for the current profile's listen address.
/// `listing` answers the query of [`crate::proxy::services_query`].
pub fn set_system_proxy(
    config: &ConfigManager,
    platform: Platform,
    enabled: bool,
    listing: &Result<String, String>,
) -> (result: Result<ProxyPlan, String>)
    ensures
        plan_result_view(result) == spec_set_system_proxy(
            platform,
            enabled,
            proxy_listen(config@),
            listing_view(*listing),
        ),
{
    let listen = match config.get_current_server() {
        Some(server) => server.listen,
        None => "127.0.0.1:30000".to_owned(),
    };
    crate::proxy::set_system_proxy(platform, enabled, listen.as_str(), listing)
}

/// Tells from the answer to the status query whether the system proxy is
/// on.
pub fn get_proxy_status(platform: Platform, reading: &crate::proxy::Reading) -> (on: bool)
    ensures
        on == crate::proxy::spec_proxy_status(platform, reading@),
{
    crate::proxy::get_proxy_status(platform, reading)
}

} // verus!
