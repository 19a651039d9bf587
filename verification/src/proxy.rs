//! The system proxy controller: what to change on the host so that traffic
//! goes through the worker's SOCKS listener, and how to read the result.
//!
//! Nothing here touches the host. A request is answered with a
//! [`ProxyPlan`], whose actions the host program performs in order.
use crate::platform::Platform;
use crate::text::{
    chars_of, contains, contains_text, joined, last_index_of, lemma_last_index_of,
    lemma_texts_push, lines, lines_of, rfind, texts,
};
use vstd::prelude::*;
use vstd::string::*;

verus! {

/// The two notifications that make running programs read the proxy
/// settings again.
#[derive(Clone, Copy, Debug, PartialEq, Eq, Structural)]
pub enum RefreshKind {
    /// The settings have changed.
    SettingsChanged,
    /// Read the settings again.
    Refresh,
}

/// One change to the host, as a mathematical value.
pub enum ProxyActionView {
    Run { program: Seq<char>, args: Seq<Seq<char>> },
    OpenKey { path: Seq<char>, failure: Seq<char> },
    SetString { name: Seq<char>, value: Seq<char>, failure: Seq<char> },
    SetDword { name: Seq<char>, number: u32, failure: Seq<char> },
    Notify(RefreshKind),
}

/// One change to the host.
#[derive(Debug, PartialEq, Eq)]
pub enum ProxyAction {
    /// Run `program` with `args` and wait for it; how it ends is ignored.
    Run { program: String, args: Vec<String> },
    /// Open the key at `path` in the current user's registry hive, for
    /// writing values. The values that follow go into this key.
    OpenKey { path: String, failure: String },
    /// Write a string value into the open key.
    SetString { name: String, value: String, failure: String },
    /// Write a 32-bit value into the open key.
    SetDword { name: String, number: u32, failure: String },
    /// Broadcast a notification to the user's session.
    Notify(RefreshKind),
}

impl View for ProxyAction {
    type V = ProxyActionView;

    open spec fn view(&self) -> ProxyActionView {
        match self {
            ProxyAction::Run { program, args } => ProxyActionView::Run {
                program: program@,
                args: texts(args@),
            },
            ProxyAction::OpenKey { path, failure } => ProxyActionView::OpenKey {
                path: path@,
                failure: failure@,
            },
            ProxyAction::SetString { name, value, failure } => ProxyActionView::SetString {
                name: name@,
                value: value@,
                failure: failure@,
            },
            ProxyAction::SetDword { name, number, failure } => ProxyActionView::SetDword {
                name: name@,
                number: *number,
                failure: failure@,
            },
            ProxyAction::Notify(kind) => ProxyActionView::Notify(*kind),
        }
    }
}

impl ProxyActionView {
    /// The error that ends the request when this action fails for `reason`,
    /// or `None` where a failure is passed over: a registry action that
    /// fails ends the request, a command or a notification does not.
    pub open spec fn failure_message(self, reason: Seq<char>) -> Option<Seq<char>> {
        match self {
            ProxyActionView::OpenKey { failure, .. } => Some(failure + ": "@ + reason),
            ProxyActionView::SetString { failure, .. } => Some(failure + ": "@ + reason),
            ProxyActionView::SetDword { failure, .. } => Some(failure + ": "@ + reason),
            _ => None,
        }
    }
}

fn failure_text(failure: &String, reason: &str) -> (message: String)
    ensures
        message@ == failure@ + ": "@ + reason@,
{
    joined(joined(failure.as_str(), ": ").as_str(), reason)
}

impl ProxyAction {
    /// The error that ends the request when this action fails for `reason`,
    /// or `None` where the failure is to be passed over.
    pub fn failure_message(&self, reason: &str) -> (message: Option<String>)
        ensures
            message is Some == self@.failure_message(reason@) is Some,
            message is Some ==> message->0@ == self@.failure_message(reason@)->0,
    {
        match self {
            ProxyAction::OpenKey { failure, .. } => Some(failure_text(failure, reason)),
            ProxyAction::SetString { failure, .. } => Some(failure_text(failure, reason)),
            ProxyAction::SetDword { failure, .. } => Some(failure_text(failure, reason)),
            _ => None,
        }
    }
}

/// The views of a list of actions.
pub open spec fn action_views(actions: Seq<ProxyAction>) -> Seq<ProxyActionView> {
    Seq::new(actions.len(), |i: int| actions[i]@)
}

/// The answer to a proxy request, as a mathematical record.
pub struct ProxyPlanView {
    pub actions: Seq<ProxyActionView>,
    pub message: Seq<char>,
}

/// The answer to a proxy request: the actions to perform, in order, and
/// the message to show once they are done.
#[derive(Debug, PartialEq, Eq)]
pub struct ProxyPlan {
    pub actions: Vec<ProxyAction>,
    pub message: String,
}

impl View for ProxyPlan {
    type V = ProxyPlanView;

    open spec fn view(&self) -> ProxyPlanView {
        ProxyPlanView { actions: action_views(self.actions@), message: self.message@ }
    }
}

/// The host that a listen address without a colon is taken to mean.
pub open spec fn loopback_host() -> Seq<char> {
    "127.0.0.1"@
}

/// Host and port of a listen address: what stands before and after its
/// last colon; an address without a colon is a port on the loopback host.
pub open spec fn spec_parse_listen_addr(addr: Seq<char>) -> (Seq<char>, Seq<char>) {
    let colon = last_index_of(addr, ':');
    if 0 <= colon < addr.len() {
        (addr.take(colon), addr.skip(colon + 1))
    } else {
        (loopback_host(), addr)
    }
}

/// Splits a listen address into host and port. Every address is accepted.
pub fn parse_listen_addr(addr: &str) -> (parsed: Result<(String, String), String>)
    ensures
        parsed is Ok,
        (parsed->Ok_0.0@, parsed->Ok_0.1@) == spec_parse_listen_addr(addr@),
{
    let chars = chars_of(addr);
    proof {
        lemma_last_index_of(addr@, ':');
    }
    match rfind(&chars, ':') {
        Some(colon) => {
            let host = addr.substring_char(0, colon).to_owned();
            let port = addr.substring_char(colon + 1, chars.len()).to_owned();
            assert(host@ =~= addr@.take(colon as int));
            assert(port@ =~= addr@.skip(colon + 1));
            Ok((host, port))
        },
        None => Ok(("127.0.0.1".to_owned(), addr.to_owned())),
    }
}

/// `host:port`, as the proxy settings and the messages write it.
pub open spec fn endpoint(host: Seq<char>, port: Seq<char>) -> Seq<char> {
    host + ":"@ + port
}

fn endpoint_text(host: &String, port: &String) -> (text: String)
    ensures
        text@ == endpoint(host@, port@),
{
    joined(joined(host.as_str(), ":").as_str(), port.as_str())
}

/// Whether a line of the service listing names a service that is in use:
/// it is not empty and does not begin with an asterisk.
pub open spec fn is_service(line: Seq<char>) -> bool {
    line.len() > 0 && line[0] != '*'
}

/// The network services that a listing names: its lines but the first,
/// which is a heading, without those that name no service in use.
pub open spec fn service_names(listing: Seq<char>) -> Seq<Seq<char>> {
    let all = lines_of(listing);
    if all.len() == 0 {
        Seq::empty()
    } else {
        all.skip(1).filter(|line: Seq<char>| is_service(line))
    }
}

/// Reads the network services out of the output of
/// `networksetup -listallnetworkservices`.
pub fn network_services(listing: &str) -> (services: Vec<String>)
    ensures
        texts(services@) == service_names(listing@),
{
    let all = lines(listing);
    let mut services: Vec<String> = Vec::new();
    if all.len() == 0 {
        assert(texts(services@) =~= Seq::<Seq<char>>::empty());
        return services;
    }
    let ghost wanted = |line: Seq<char>| is_service(line);
    let ghost rest = lines_of(listing@).skip(1);
    let mut i: usize = 1;
    assert(rest.take(0) =~= Seq::<Seq<char>>::empty());
    assert(texts(services@) =~= rest.take(0).filter(wanted));
    while i < all.len()
        invariant
            1 <= i <= all.len(),
            texts(all@) == lines_of(listing@),
            rest == lines_of(listing@).skip(1),
            wanted == |line: Seq<char>| is_service(line),
            texts(services@) == rest.take(i - 1).filter(wanted),
        decreases all.len() - i,
    {
        let line = &all[i];
        let line_chars = chars_of(line.as_str());
        let keep = line_chars.len() > 0 && line_chars[0] != '*';
        proof {
            assert(rest.take(i as int).drop_last() =~= rest.take(i - 1));
            assert(rest.take(i as int).last() == texts(all@)[i as int]);
            assert(keep == wanted(line@));
            reveal_with_fuel(Seq::filter, 2);
        }
        if keep {
            let name = line.clone();
            proof {
                lemma_texts_push(services@, name);
            }
            services.push(name);
        }
        i += 1;
    }
    assert(rest.take(all.len() - 1) =~= rest);
    services
}

fn push_text(list: &mut Vec<String>, item: &str)
    ensures
        texts(final(list)@) == texts(old(list)@).push(item@),
{
    let owned = item.to_owned();
    proof {
        lemma_texts_push(list@, owned);
    }
    list.push(owned);
}

fn push_action(actions: &mut Vec<ProxyAction>, action: ProxyAction)
    ensures
        action_views(final(actions)@) == action_views(old(actions)@).push(action@),
{
    actions.push(action);
    assert(action_views(actions@) =~= action_views(old(actions)@).push(action@));
}

/// The program that changes the network configuration on macOS.
pub open spec fn network_tool() -> Seq<char> {
    "networksetup"@
}

/// The hosts that are reached without the proxy on macOS: the local host,
/// the private and link-local address ranges, and names under `.local`.
pub open spec fn bypass_domains() -> Seq<Seq<char>> {
    seq![
        "localhost"@,
        "127.*"@,
        "10.*"@,
        "172.16.*"@,
        "172.17.*"@,
        "172.18.*"@,
        "172.19.*"@,
        "172.20.*"@,
        "172.21.*"@,
        "172.22.*"@,
        "172.23.*"@,
        "172.24.*"@,
        "172.25.*"@,
        "172.26.*"@,
        "172.27.*"@,
        "172.28.*"@,
        "172.29.*"@,
        "172.30.*"@,
        "172.31.*"@,
        "192.168.*"@,
        "*.local"@,
        "169.254.*"@,
    ]
}

fn push_bypass_domains(list: &mut Vec<String>)
    ensures
        texts(final(list)@) == texts(old(list)@) + bypass_domains(),
{
    push_text(list, "localhost");
    push_text(list, "127.*");
    push_text(list, "10.*");
    push_text(list, "172.16.*");
    push_text(list, "172.17.*");
    push_text(list, "172.18.*");
    push_text(list, "172.19.*");
    push_text(list, "172.20.*");
    push_text(list, "172.21.*");
    push_text(list, "172.22.*");
    push_text(list, "172.23.*");
    push_text(list, "172.24.*");
    push_text(list, "172.25.*");
    push_text(list, "172.26.*");
    push_text(list, "172.27.*");
    push_text(list, "172.28.*");
    push_text(list, "172.29.*");
    push_text(list, "172.30.*");
    push_text(list, "172.31.*");
    push_text(list, "192.168.*");
    push_text(list, "*.local");
    push_text(list, "169.254.*");
    assert(texts(list@) =~= texts(old(list)@) + bypass_domains());
}

/// One run of the network configuration program.
pub open spec fn run_tool(args: Seq<Seq<char>>) -> ProxyActionView {
    ProxyActionView::Run { program: network_tool(), args }
}

fn tool_action(args: Vec<String>) -> (action: ProxyAction)
    ensures
        action@ == run_tool(texts(args@)),
{
    ProxyAction::Run { program: "networksetup".to_owned(), args }
}

/// The command that points a service's SOCKS proxy at `host` and `port`.
pub open spec fn set_proxy_command(service: Seq<char>, host: Seq<char>, port: Seq<char>) -> Seq<
    Seq<char>,
> {
    seq!["-setsocksfirewallproxy"@, service, host, port]
}

/// The command that sets a service's bypass list.
pub open spec fn set_bypass_command(service: Seq<char>) -> Seq<Seq<char>> {
    seq!["-setsocksfirewallproxybypassdomains"@, service] + bypass_domains()
}

/// The command that turns a service's SOCKS proxy on or off.
pub open spec fn set_state_command(service: Seq<char>, on: bool) -> Seq<Seq<char>> {
    seq![
        "-setsocksfirewallproxystate"@,
        service,
        if on {
            "on"@
        } else {
            "off"@
        },
    ]
}

/// What is done to one network service: to enable, the proxy is set, then
/// the bypass list, then the state is turned on; to disable, the state is
/// turned off.
pub open spec fn service_actions(
    enabled: bool,
    service: Seq<char>,
    host: Seq<char>,
    port: Seq<char>,
) -> Seq<ProxyActionView> {
    if enabled {
        seq![
            run_tool(set_proxy_command(service, host, port)),
            run_tool(set_bypass_command(service)),
            run_tool(set_state_command(service, true)),
        ]
    } else {
        seq![run_tool(set_state_command(service, false))]
    }
}

/// What is done to a list of network services: each in turn.
pub open spec fn macos_actions(
    enabled: bool,
    services: Seq<Seq<char>>,
    host: Seq<char>,
    port: Seq<char>,
) -> Seq<ProxyActionView>
    decreases services.len(),
{
    if services.len() == 0 {
        Seq::empty()
    } else {
        macos_actions(enabled, services.drop_last(), host, port) + service_actions(
            enabled,
            services.last(),
            host,
            port,
        )
    }
}

/// The message after the proxy was pointed at `host` and `port`.
pub open spec fn enabled_message(host: Seq<char>, port: Seq<char>) -> Seq<char> {
    "已设置系统代理: "@ + endpoint(host, port)
}

/// The message after the proxy was switched off.
pub open spec fn disabled_message() -> Seq<char> {
    "已关闭系统代理"@
}

/// The complaint that the network services could not be listed.
pub open spec fn listing_failed_message(reason: Seq<char>) -> Seq<char> {
    "获取网络服务列表失败: "@ + reason
}

/// The complaint that this platform's proxy is not managed.
pub open spec fn unsupported_message() -> Seq<char> {
    "Linux 暂不支持自动设置系统代理"@
}

fn plan_message(enabled: bool, host: &String, port: &String) -> (message: String)
    ensures
        message@ == if enabled {
            enabled_message(host@, port@)
        } else {
            disabled_message()
        },
{
    if enabled {
        joined("已设置系统代理: ", endpoint_text(host, port).as_str())
    } else {
        "已关闭系统代理".to_owned()
    }
}

/// The outcome of a proxy request as a mathematical value.
pub open spec fn plan_result_view(result: Result<ProxyPlan, String>) -> Result<
    ProxyPlanView,
    Seq<char>,
> {
    match result {
        Ok(plan) => Ok(plan@),
        Err(message) => Err(message@),
    }
}

/// What the host reported of a query, as a mathematical value.
pub open spec fn listing_view(listing: Result<String, String>) -> Result<Seq<char>, Seq<char>> {
    match listing {
        Ok(output) => Ok(output@),
        Err(reason) => Err(reason@),
    }
}

/// The answer to a proxy request on macOS. Where the services could not be
/// listed the request fails; otherwise every listed service is dealt with,
/// and the message names the endpoint when the proxy is enabled.
pub open spec fn spec_set_macos_proxy(
    enabled: bool,
    listen_addr: Seq<char>,
    listing: Result<Seq<char>, Seq<char>>,
) -> Result<ProxyPlanView, Seq<char>> {
    let (host, port) = spec_parse_listen_addr(listen_addr);
    match listing {
        Err(reason) => Err(listing_failed_message(reason)),
        Ok(output) => Ok(
            ProxyPlanView {
                actions: macos_actions(enabled, service_names(output), host, port),
                message: if enabled {
                    enabled_message(host, port)
                } else {
                    disabled_message()
                },
            },
        ),
    }
}

fn push_service_actions(
    actions: &mut Vec<ProxyAction>,
    enabled: bool,
    service: &String,
    host: &String,
    port: &String,
)
    ensures
        action_views(final(actions)@) == action_views(old(actions)@) + service_actions(
            enabled,
            service@,
            host@,
            port@,
        ),
{
    if enabled {
        let mut set_proxy: Vec<String> = Vec::new();
        assert(texts(set_proxy@) =~= Seq::<Seq<char>>::empty());
        push_text(&mut set_proxy, "-setsocksfirewallproxy");
        push_text(&mut set_proxy, service.as_str());
        push_text(&mut set_proxy, host.as_str());
        push_text(&mut set_proxy, port.as_str());
        assert(texts(set_proxy@) =~= set_proxy_command(service@, host@, port@));
        push_action(actions, tool_action(set_proxy));

        let mut set_bypass: Vec<String> = Vec::new();
        assert(texts(set_bypass@) =~= Seq::<Seq<char>>::empty());
        push_text(&mut set_bypass, "-setsocksfirewallproxybypassdomains");
        push_text(&mut set_bypass, service.as_str());
        push_bypass_domains(&mut set_bypass);
        assert(texts(set_bypass@) =~= set_bypass_command(service@));
        push_action(actions, tool_action(set_bypass));
    }
    let mut set_state: Vec<String> = Vec::new();
    assert(texts(set_state@) =~= Seq::<Seq<char>>::empty());
    push_text(&mut set_state, "-setsocksfirewallproxystate");
    push_text(&mut set_state, service.as_str());
    push_text(
        &mut set_state,
        if enabled {
            "on"
        } else {
            "off"
        },
    );
    assert(texts(set_state@) =~= set_state_command(service@, enabled));
    push_action(actions, tool_action(set_state));
    assert(action_views(actions@) =~= action_views(old(actions)@) + service_actions(
        enabled,
        service@,
        host@,
        port@,
    ));
}

/// Plans a proxy request on macOS. `listing` is what the host got from the
/// query that [`services_query`] asks for: the program's output, or the
/// reason why it could not be run.
pub fn set_macos_proxy(enabled: bool, listen_addr: &str, listing: &Result<String, String>) -> (result:
    Result<ProxyPlan, String>)
    ensures
        plan_result_view(result) == spec_set_macos_proxy(
            enabled,
            listen_addr@,
            listing_view(*listing),
        ),
{
    let (host, port) = match parse_listen_addr(listen_addr) {
        Ok(parsed) => parsed,
        Err(message) => {
            return Err(message);
        },
    };
    let output = match listing {
        Ok(output) => output,
        Err(reason) => {
            return Err(joined("获取网络服务列表失败: ", reason.as_str()));
        },
    };
    let services = network_services(output.as_str());
    let mut actions: Vec<ProxyAction> = Vec::new();
    let mut i: usize = 0;
    assert(texts(services@).take(0) =~= Seq::<Seq<char>>::empty());
    assert(action_views(actions@) =~= Seq::<ProxyActionView>::empty());
    while i < services.len()
        invariant
            i <= services.len(),
            action_views(actions@) == macos_actions(
                enabled,
                texts(services@).take(i as int),
                host@,
                port@,
            ),
        decreases services.len() - i,
    {
        proof {
            let done = texts(services@).take(i + 1);
            assert(done.drop_last() =~= texts(services@).take(i as int));
            assert(done.last() == services@[i as int]@);
        }
        push_service_actions(&mut actions, enabled, &services[i], &host, &port);
        i += 1;
    }
    assert(texts(services@).take(services.len() as int) =~= texts(services@));
    Ok(ProxyPlan { actions, message: plan_message(enabled, &host, &port) })
}

/// The registry key, in the current user's hive, that holds the proxy
/// settings.
pub open spec fn internet_settings_key() -> Seq<char> {
    "Software\\Microsoft\\Windows\\CurrentVersion\\Internet Settings"@
}

/// The hosts that are reached without the proxy on Windows.
pub open spec fn proxy_override() -> Seq<char> {
    "localhost;127.*;10.*;172.16.*;172.17.*;172.18.*;172.19.*;172.20.*;172.21.*;172.22.*;172.23.*;172.24.*;172.25.*;172.26.*;172.27.*;172.28.*;172.29.*;172.30.*;172.31.*;192.168.*;<local>"@
}

/// Opening the settings key.
pub open spec fn open_settings_key() -> ProxyActionView {
    ProxyActionView::OpenKey { path: internet_settings_key(), failure: "打开注册表失败"@ }
}

/// The registry writes and notifications of a proxy request on Windows. To
/// enable: the server, the switch, the bypass list. To disable: the switch
/// alone. Both end with the two notifications.
pub open spec fn windows_actions(enabled: bool, host: Seq<char>, port: Seq<char>) -> Seq<
    ProxyActionView,
> {
    if enabled {
        seq![
            open_settings_key(),
            ProxyActionView::SetString {
                name: "ProxyServer"@,
                value: endpoint(host, port),
                failure: "设置代理服务器失败"@,
            },
            ProxyActionView::SetDword {
                name: "ProxyEnable"@,
                number: 1,
                failure: "启用代理失败"@,
            },
            ProxyActionView::SetString {
                name: "ProxyOverride"@,
                value: proxy_override(),
                failure: "设置绕过列表失败"@,
            },
            ProxyActionView::Notify(RefreshKind::SettingsChanged),
            ProxyActionView::Notify(RefreshKind::Refresh),
        ]
    } else {
        seq![
            open_settings_key(),
            ProxyActionView::SetDword {
                name: "ProxyEnable"@,
                number: 0,
                failure: "禁用代理失败"@,
            },
            ProxyActionView::Notify(RefreshKind::SettingsChanged),
            ProxyActionView::Notify(RefreshKind::Refresh),
        ]
    }
}

/// The answer to a proxy request on Windows.
pub open spec fn spec_set_windows_proxy(enabled: bool, listen_addr: Seq<char>) -> Result<
    ProxyPlanView,
    Seq<char>,
> {
    let (host, port) = spec_parse_listen_addr(listen_addr);
    Ok(
        ProxyPlanView {
            actions: windows_actions(enabled, host, port),
            message: if enabled {
                enabled_message(host, port)
            } else {
                disabled_message()
            },
        },
    )
}

/// Plans a proxy request on Windows.
pub fn set_windows_proxy(enabled: bool, listen_addr: &str) -> (result: Result<ProxyPlan, String>)
    ensures
        plan_result_view(result) == spec_set_windows_proxy(enabled, listen_addr@),
{
    let (host, port) = match parse_listen_addr(listen_addr) {
        Ok(parsed) => parsed,
        Err(message) => {
            return Err(message);
        },
    };
    let mut actions: Vec<ProxyAction> = Vec::new();
    assert(action_views(actions@) =~= Seq::<ProxyActionView>::empty());
    push_action(
        &mut actions,
        ProxyAction::OpenKey {
            path: "Software\\Microsoft\\Windows\\CurrentVersion\\Internet Settings".to_owned(),
            failure: "打开注册表失败".to_owned(),
        },
    );
    if enabled {
        push_action(
            &mut actions,
            ProxyAction::SetString {
                name: "ProxyServer".to_owned(),
                value: endpoint_text(&host, &port),
                failure: "设置代理服务器失败".to_owned(),
            },
        );
        push_action(
            &mut actions,
            ProxyAction::SetDword {
                name: "ProxyEnable".to_owned(),
                number: 1,
                failure: "启用代理失败".to_owned(),
            },
        );
        push_action(
            &mut actions,
            ProxyAction::SetString {
                name: "ProxyOverride".to_owned(),
                value: "localhost;127.*;10.*;172.16.*;172.17.*;172.18.*;172.19.*;172.20.*;172.21.*;172.22.*;172.23.*;172.24.*;172.25.*;172.26.*;172.27.*;172.28.*;172.29.*;172.30.*;172.31.*;192.168.*;<local>".to_owned(),
                failure: "设置绕过列表失败".to_owned(),
            },
        );
    } else {
        push_action(
            &mut actions,
            ProxyAction::SetDword {
                name: "ProxyEnable".to_owned(),
                number: 0,
                failure: "禁用代理失败".to_owned(),
            },
        );
    }
    push_action(&mut actions, ProxyAction::Notify(RefreshKind::SettingsChanged));
    push_action(&mut actions, ProxyAction::Notify(RefreshKind::Refresh));
    assert(action_views(actions@) =~= windows_actions(enabled, host@, port@));
    Ok(ProxyPlan { actions, message: plan_message(enabled, &host, &port) })
}

/// The answer to a proxy request: by platform; a platform whose proxy is
/// not managed refuses every request.
pub open spec fn spec_set_system_proxy(
    platform: Platform,
    enabled: bool,
    listen_addr: Seq<char>,
    listing: Result<Seq<char>, Seq<char>>,
) -> Result<ProxyPlanView, Seq<char>> {
    match platform {
        Platform::MacOS => spec_set_macos_proxy(enabled, listen_addr, listing),
        Platform::Windows => spec_set_windows_proxy(enabled, listen_addr),
        Platform::Other => Err(unsupported_message()),
    }
}

/// Plans the switch of the system SOCKS proxy to `listen_addr`, or its
/// switching off. `listing` answers the query of [`services_query`] and is
/// read on macOS alone.
pub fn set_system_proxy(
    platform: Platform,
    enabled: bool,
    listen_addr: &str,
    listing: &Result<String, String>,
) -> (result: Result<ProxyPlan, String>)
    ensures
        plan_result_view(result) == spec_set_system_proxy(
            platform,
            enabled,
            listen_addr@,
            listing_view(*listing),
        ),
{
    match platform {
        Platform::MacOS => set_macos_proxy(enabled, listen_addr, listing),
        Platform::Windows => set_windows_proxy(enabled, listen_addr),
        Platform::Other => Err("Linux 暂不支持自动设置系统代理".to_owned()),
    }
}

/// Something to find out from the host, as a mathematical value.
pub enum ProxyQueryView {
    Run { program: Seq<char>, args: Seq<Seq<char>> },
    ReadDword { path: Seq<char>, name: Seq<char> },
}

/// Something to find out from the host before a decision.
#[derive(Debug, PartialEq, Eq)]
pub enum ProxyQuery {
    /// Run `program` with `args` and hand back what it wrote to its
    /// standard output.
    Run { program: String, args: Vec<String> },
    /// Read the 32-bit value `name` of the key at `path` in the current
    /// user's registry hive.
    ReadDword { path: String, name: String },
}

impl View for ProxyQuery {
    type V = ProxyQueryView;

    open spec fn view(&self) -> ProxyQueryView {
        match self {
            ProxyQuery::Run { program, args } => ProxyQueryView::Run {
                program: program@,
                args: texts(args@),
            },
            ProxyQuery::ReadDword { path, name } => ProxyQueryView::ReadDword {
                path: path@,
                name: name@,
            },
        }
    }
}

/// The view of a query that may be absent.
pub open spec fn query_view(query: Option<ProxyQuery>) -> Option<ProxyQueryView> {
    match query {
        Some(query) => Some(query@),
        None => None,
    }
}

/// What has to be known before a proxy request can be planned: on macOS
/// the list of network services, elsewhere nothing.
pub open spec fn spec_services_query(platform: Platform) -> Option<ProxyQueryView> {
    if platform == Platform::MacOS {
        Some(
            ProxyQueryView::Run {
                program: network_tool(),
                args: seq!["-listallnetworkservices"@],
            },
        )
    } else {
        None
    }
}

/// What has to be known before a proxy request can be planned.
pub fn services_query(platform: Platform) -> (query: Option<ProxyQuery>)
    ensures
        query_view(query) == spec_services_query(platform),
{
    match platform {
        Platform::MacOS => {
            let mut args: Vec<String> = Vec::new();
            push_text(&mut args, "-listallnetworkservices");
            assert(texts(args@) =~= seq!["-listallnetworkservices"@]);
            Some(ProxyQuery::Run { program: "networksetup".to_owned(), args })
        },
        _ => None,
    }
}

/// The network service whose state stands for the whole machine's.
pub open spec fn status_service() -> Seq<char> {
    "Wi-Fi"@
}

/// What shows whether the proxy is on: on macOS the SOCKS settings of the
/// Wi-Fi service, on Windows the switch in the registry, elsewhere nothing.
pub open spec fn spec_status_query(platform: Platform) -> Option<ProxyQueryView> {
    match platform {
        Platform::MacOS => Some(
            ProxyQueryView::Run {
                program: network_tool(),
                args: seq!["-getsocksfirewallproxy"@, status_service()],
            },
        ),
        Platform::Windows => Some(
            ProxyQueryView::ReadDword { path: internet_settings_key(), name: "ProxyEnable"@ },
        ),
        Platform::Other => None,
    }
}

/// What shows whether the proxy is on.
pub fn status_query(platform: Platform) -> (query: Option<ProxyQuery>)
    ensures
        query_view(query) == spec_status_query(platform),
{
    match platform {
        Platform::MacOS => {
            let mut args: Vec<String> = Vec::new();
            push_text(&mut args, "-getsocksfirewallproxy");
            push_text(&mut args, "Wi-Fi");
            assert(texts(args@) =~= seq!["-getsocksfirewallproxy"@, status_service()]);
            Some(ProxyQuery::Run { program: "networksetup".to_owned(), args })
        },
        Platform::Windows => Some(
            ProxyQuery::ReadDword {
                path: "Software\\Microsoft\\Windows\\CurrentVersion\\Internet Settings".to_owned(),
                name: "ProxyEnable".to_owned(),
            },
        ),
        Platform::Other => None,
    }
}

/// The words with which the network configuration program reports a proxy
/// that is on.
pub open spec fn enabled_marker() -> Seq<char> {
    "Enabled: Yes"@
}

/// Whether the SOCKS settings that the program printed show the proxy on:
/// there is output, and it holds the marker.
pub open spec fn spec_macos_proxy_status(output: Option<Seq<char>>) -> bool {
    match output {
        Some(text) => contains_text(text, enabled_marker()),
        None => false,
    }
}

/// Reads the proxy state out of the output of the status query on macOS;
/// `None` stands for a query that could not be run.
pub fn get_macos_proxy_status(output: Option<&str>) -> (on: bool)
    ensures
        on == spec_macos_proxy_status(
            match output {
                Some(text) => Some(text@),
                None => None,
            },
        ),
{
    match output {
        Some(text) => contains(text, "Enabled: Yes"),
        None => false,
    }
}

/// Reads the proxy state out of the registry switch on Windows: on exactly
/// when the value could be read and is 1.
pub fn get_windows_proxy_status(proxy_enable: Option<u32>) -> (on: bool)
    ensures
        on == (proxy_enable == Some(1u32)),
{
    match proxy_enable {
        Some(value) => value == 1,
        None => false,
    }
}

/// What the host reported of a status query, as a mathematical value.
pub enum ReadingView {
    Unavailable,
    Output(Seq<char>),
    Dword(u32),
}

/// What the host reported of a status query.
#[derive(Debug, PartialEq, Eq)]
pub enum Reading {
    /// No query was asked for, or it failed.
    Unavailable,
    /// What the program wrote to its standard output.
    Output(String),
    /// The registry value.
    Dword(u32),
}

impl View for Reading {
    type V = ReadingView;

    open spec fn view(&self) -> ReadingView {
        match self {
            Reading::Unavailable => ReadingView::Unavailable,
            Reading::Output(text) => ReadingView::Output(text@),
            Reading::Dword(value) => ReadingView::Dword(*value),
        }
    }
}

/// Whether the system proxy is on, as far as the reading shows: on macOS
/// by the marker in the output, on Windows by the switch; a reading of the
/// wrong kind, or none, shows nothing, and elsewhere the proxy is never on.
pub open spec fn spec_proxy_status(platform: Platform, reading: ReadingView) -> bool {
    match platform {
        Platform::MacOS => spec_macos_proxy_status(
            match reading {
                ReadingView::Output(text) => Some(text),
                _ => None,
            },
        ),
        Platform::Windows => reading == ReadingView::Dword(1),
        Platform::Other => false,
    }
}

/// Tells from the answer to [`status_query`] whether the system proxy is
/// on.
pub fn get_proxy_status(platform: Platform, reading: &Reading) -> (on: bool)
    ensures
        on == spec_proxy_status(platform, reading@),
{
    match platform {
        Platform::MacOS => match reading {
            Reading::Output(text) => get_macos_proxy_status(Some(text.as_str())),
            _ => get_macos_proxy_status(None),
        },
        Platform::Windows => match reading {
            Reading::Dword(value) => get_windows_proxy_status(Some(*value)),
            _ => get_windows_proxy_status(None),
        },
        Platform::Other => false,
    }
}

/// A model of the settings that the controller switches on the host: the
/// 32-bit values of the settings key, and for each network service whether
/// its SOCKS proxy is on.
pub struct ProxySettings {
    pub dwords: Map<Seq<char>, u32>,
    pub socks_on: Map<Seq<char>, bool>,
}

impl ProxySettings {
    /// The settings after one action was performed and succeeded.
    pub open spec fn after(self, action: ProxyActionView) -> ProxySettings {
        match action {
            ProxyActionView::SetDword { name, number, .. } => ProxySettings {
                dwords: self.dwords.insert(name, number),
                ..self
            },
            ProxyActionView::Run { program, args } => if program == network_tool() && args.len()
                == 3 && args[0] == "-setsocksfirewallproxystate"@ {
                ProxySettings { socks_on: self.socks_on.insert(args[1], args[2] == "on"@), ..self }
            } else {
                self
            },
            _ => self,
        }
    }

    /// The settings after a list of actions was performed in order.
    pub open spec fn after_all(self, actions: Seq<ProxyActionView>) -> ProxySettings
        decreases actions.len(),
    {
        if actions.len() == 0 {
            self
        } else {
            self.after_all(actions.drop_last()).after(actions.last())
        }
    }

    /// Whether the SOCKS proxy of every one of `services` is in state `on`.
    pub open spec fn all_services(self, services: Seq<Seq<char>>, on: bool) -> bool {
        forall|i: int|
            0 <= i < services.len() ==> self.socks_on.contains_key(#[trigger] services[i])
                && self.socks_on[services[i]] == on
    }
}

proof fn lemma_after_all_push(
    settings: ProxySettings,
    actions: Seq<ProxyActionView>,
    action: ProxyActionView,
)
    ensures
        settings.after_all(actions.push(action)) == settings.after_all(actions).after(action),
{
    assert(actions.push(action).drop_last() =~= actions);
}

proof fn lemma_macos_plan_sets_state(
    settings: ProxySettings,
    enabled: bool,
    services: Seq<Seq<char>>,
    host: Seq<char>,
    port: Seq<char>,
)
    ensures
        settings.after_all(macos_actions(enabled, services, host, port)).all_services(
            services,
            enabled,
        ),
        settings.after_all(macos_actions(enabled, services, host, port)).dwords
            == settings.dwords,
    decreases services.len(),
{
    reveal_strlit("on");
    reveal_strlit("off");
    if services.len() > 0 {
        let front = services.drop_last();
        let service = services.last();
        let before = macos_actions(enabled, front, host, port);
        lemma_macos_plan_sets_state(settings, enabled, front, host, port);
        let state = run_tool(set_state_command(service, enabled));
        let reached = settings.after_all(before);
        assert("off"@ != "on"@) by {
            assert("off"@.len() == 3 && "on"@.len() == 2);
        }
        if enabled {
            let first = run_tool(set_proxy_command(service, host, port));
            let second = run_tool(set_bypass_command(service));
            assert(macos_actions(enabled, services, host, port) =~= before.push(first).push(
                second,
            ).push(state));
            lemma_after_all_push(settings, before, first);
            lemma_after_all_push(settings, before.push(first), second);
            lemma_after_all_push(settings, before.push(first).push(second), state);
            assert(reached.after(first) == reached);
            assert(reached.after(second) == reached);
        } else {
            assert(macos_actions(enabled, services, host, port) =~= before.push(state));
            lemma_after_all_push(settings, before, state);
        }
        let end = settings.after_all(macos_actions(enabled, services, host, port));
        assert(end == reached.after(state));
        assert forall|i: int| 0 <= i < services.len() implies end.socks_on.contains_key(
            #[trigger] services[i],
        ) && end.socks_on[services[i]] == enabled by {
            if i < front.len() {
                assert(front[i] == services[i]);
            }
        }
    }
}

/// Enabling the proxy on macOS and then disabling it leaves the SOCKS proxy
/// of every listed service off, whatever the settings were before and
/// whatever address was enabled: after the first plan every listed service
/// is on, after the second every listed service is off.
pub proof fn lemma_macos_enable_then_disable(
    settings: ProxySettings,
    listen_addr: Seq<char>,
    listing: Seq<char>,
)
    ensures
        ({
            let on = spec_set_macos_proxy(true, listen_addr, Ok(listing))->Ok_0;
            let off = spec_set_macos_proxy(false, listen_addr, Ok(listing))->Ok_0;
            let services = service_names(listing);
            &&& settings.after_all(on.actions).all_services(services, true)
            &&& settings.after_all(on.actions).after_all(off.actions).all_services(
                services,
                false,
            )
        }),
{
    let (host, port) = spec_parse_listen_addr(listen_addr);
    let services = service_names(listing);
    lemma_macos_plan_sets_state(settings, true, services, host, port);
    let enabled = settings.after_all(macos_actions(true, services, host, port));
    lemma_macos_plan_sets_state(enabled, false, services, host, port);
}

/// Enabling the proxy on Windows and then disabling it leaves the switch
/// `ProxyEnable` at 0, whatever the settings were before and whatever
/// address was enabled: after the first plan it is 1, after the second 0.
pub proof fn lemma_windows_enable_then_disable(settings: ProxySettings, listen_addr: Seq<char>)
    ensures
        ({
            let on = spec_set_windows_proxy(true, listen_addr)->Ok_0;
            let off = spec_set_windows_proxy(false, listen_addr)->Ok_0;
            let enabled = settings.after_all(on.actions);
            let disabled = enabled.after_all(off.actions);
            &&& enabled.dwords.contains_key("ProxyEnable"@)
            &&& enabled.dwords["ProxyEnable"@] == 1
            &&& disabled.dwords.contains_key("ProxyEnable"@)
            &&& disabled.dwords["ProxyEnable"@] == 0
        }),
{
    let (host, port) = spec_parse_listen_addr(listen_addr);
    let on = windows_actions(true, host, port);
    let off = windows_actions(false, host, port);
    let none = Seq::<ProxyActionView>::empty();
    assert(on =~= none.push(on[0]).push(on[1]).push(on[2]).push(on[3]).push(on[4]).push(on[5]));
    lemma_after_all_push(settings, none, on[0]);
    lemma_after_all_push(settings, none.push(on[0]), on[1]);
    lemma_after_all_push(settings, none.push(on[0]).push(on[1]), on[2]);
    lemma_after_all_push(settings, none.push(on[0]).push(on[1]).push(on[2]), on[3]);
    lemma_after_all_push(settings, none.push(on[0]).push(on[1]).push(on[2]).push(on[3]), on[4]);
    lemma_after_all_push(
        settings,
        none.push(on[0]).push(on[1]).push(on[2]).push(on[3]).push(on[4]),
        on[5],
    );
    let enabled = settings.after_all(on);
    assert(off =~= none.push(off[0]).push(off[1]).push(off[2]).push(off[3]));
    lemma_after_all_push(enabled, none, off[0]);
    lemma_after_all_push(enabled, none.push(off[0]), off[1]);
    lemma_after_all_push(enabled, none.push(off[0]).push(off[1]), off[2]);
    lemma_after_all_push(enabled, none.push(off[0]).push(off[1]).push(off[2]), off[3]);
}

} // verus!
