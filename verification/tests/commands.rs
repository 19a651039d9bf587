use ech_gui::commands::{
    add_server, delete_server, get_current_server, get_current_server_id, get_proxy_status,
    get_servers, is_process_running, rename_server, set_current_server, set_system_proxy,
    start_process, stop_process, update_server,
};
use ech_gui::config::{AppConfig, ConfigManager, Server};
use ech_gui::platform::Platform;
use ech_gui::process::{ProcessManager, SpawnOutcome, StopAction};
use ech_gui::proxy::{ProxyAction, Reading};

fn profile(id: &str, server: &str, listen: &str) -> Server {
    Server {
        id: id.to_string(),
        name: format!("profile {}", id),
        server: server.to_string(),
        listen: listen.to_string(),
        token: "t".to_string(),
        ip: "saas.sin.fan".to_string(),
        dns: "dns.alidns.com/dns-query".to_string(),
        ech: "cloudflare-ech.com".to_string(),
        routing_mode: "bypass_cn".to_string(),
    }
}

fn store(servers: Vec<Server>, current: Option<&str>) -> ConfigManager {
    ConfigManager::new(Some(AppConfig {
        servers,
        current_server_id: current.map(|id| id.to_string()),
    }))
}

fn pair() -> ConfigManager {
    store(
        vec![profile("a", "relay:443", "127.0.0.1:30000"), profile("b", "other:443", "127.0.0.1:1080")],
        Some("a"),
    )
}

#[test]
fn readers_hand_out_the_catalog() {
    let config = pair();
    assert_eq!(get_servers(&config).len(), 2);
    assert_eq!(get_current_server(&config), Some(profile("a", "relay:443", "127.0.0.1:30000")));
    assert_eq!(get_current_server_id(&config), Some("a".to_string()));
}

#[test]
fn select_command_always_succeeds() {
    let mut config = pair();
    assert_eq!(set_current_server(&mut config, "b".to_string()), Ok(()));
    assert_eq!(get_current_server_id(&config), Some("b".to_string()));
    assert_eq!(set_current_server(&mut config, "zz".to_string()), Ok(()));
    assert_eq!(get_current_server_id(&config), Some("b".to_string()));
}

#[test]
fn add_command_appends_a_default_profile_with_the_name() {
    let mut config = pair();
    let added = add_server(&mut config, "mine".to_string()).unwrap();
    let servers = get_servers(&config);
    assert_eq!(servers.len(), 3);
    assert_eq!(servers[2], added);
    assert_eq!(added.name, "mine");
    assert_eq!(added.server, "example.com:443");
    assert_eq!(added.listen, "127.0.0.1:30000");
    assert_eq!(added.ip, "saas.sin.fan");
    assert_eq!(added.routing_mode, "bypass_cn");
    assert_eq!(added.id.chars().count(), 36);
    assert!(added.id != "a" && added.id != "b");
    assert_eq!(get_current_server_id(&config), Some(added.id.clone()));
}

#[test]
fn add_command_returns_the_last_profile_and_keeps_the_others() {
    let mut config = pair();
    let before = get_servers(&config);
    let added = add_server(&mut config, "third".to_string()).unwrap();
    let after = get_servers(&config);
    assert_eq!(after.len(), before.len() + 1);
    assert_eq!(&after[..before.len()], &before[..]);
    assert_eq!(after.last(), Some(&added));
    assert_eq!(get_current_server(&config), Some(added));
}

#[test]
fn add_command_accepts_the_empty_name() {
    let mut config = pair();
    let added = add_server(&mut config, String::new()).unwrap();
    assert_eq!(added.name, "");
    assert_eq!(get_servers(&config).len(), 3);
}

#[test]
fn add_command_gives_each_profile_its_own_identifier() {
    let mut config = ConfigManager::new(None);
    let first = add_server(&mut config, "one".to_string()).unwrap();
    let second = add_server(&mut config, "two".to_string()).unwrap();
    let servers = get_servers(&config);
    assert_eq!(servers.len(), 3);
    assert!(first.id != second.id);
    assert!(servers[0].id != first.id && servers[0].id != second.id);
}

#[test]
fn update_command_fails_for_an_unknown_profile() {
    let mut config = pair();
    assert_eq!(
        update_server(&mut config, profile("zz", "x", "y")),
        Err("服务器不存在".to_string())
    );
    assert_eq!(get_servers(&config), get_servers(&pair()));
}

#[test]
fn update_command_replaces_the_profile() {
    let mut config = pair();
    assert_eq!(update_server(&mut config, profile("b", "new:443", "127.0.0.1:9")), Ok(()));
    let servers = get_servers(&config);
    assert_eq!(servers.len(), 2);
    assert_eq!(servers[1], profile("b", "new:443", "127.0.0.1:9"));
}

#[test]
fn delete_command_refuses_to_delete_the_only_profile() {
    let mut config = store(vec![profile("a", "relay:443", "127.0.0.1:30000")], Some("a"));
    assert_eq!(
        delete_server(&mut config, "a".to_string()),
        Err("至少需要保留一个服务器配置".to_string())
    );
    assert_eq!(get_servers(&config), vec![profile("a", "relay:443", "127.0.0.1:30000")]);
    assert_eq!(get_current_server_id(&config), Some("a".to_string()));
}

#[test]
fn delete_command_refuses_on_an_empty_catalog() {
    let mut config = store(vec![], None);
    assert_eq!(
        delete_server(&mut config, "a".to_string()),
        Err("至少需要保留一个服务器配置".to_string())
    );
    assert_eq!(get_servers(&config).len(), 0);
}

#[test]
fn delete_command_fails_for_an_unknown_profile() {
    let mut config = pair();
    assert_eq!(delete_server(&mut config, "zz".to_string()), Err("服务器不存在".to_string()));
    assert_eq!(get_servers(&config).len(), 2);
}

#[test]
fn delete_command_removes_the_profile_and_moves_the_selection() {
    let mut config = pair();
    assert_eq!(delete_server(&mut config, "a".to_string()), Ok(()));
    assert_eq!(get_servers(&config), vec![profile("b", "other:443", "127.0.0.1:1080")]);
    assert_eq!(get_current_server_id(&config), Some("b".to_string()));
}

#[test]
fn rename_command_accepts_the_empty_name() {
    let mut config = pair();
    assert_eq!(rename_server(&mut config, "a".to_string(), String::new()), Ok(()));
    assert_eq!(get_servers(&config)[0].name, "");
}

#[test]
fn rename_command_fails_for_an_unknown_profile() {
    let mut config = pair();
    assert_eq!(
        rename_server(&mut config, "zz".to_string(), "x".to_string()),
        Err("服务器不存在".to_string())
    );
}

#[test]
fn start_with_an_empty_server_is_refused() {
    let config = store(vec![profile("a", "", "127.0.0.1:30000")], Some("a"));
    let process = ProcessManager::new();
    assert_eq!(
        start_process(&config, &process, Platform::Other),
        Err("请输入服务地址".to_string())
    );
    assert!(!is_process_running(&process));
}

#[test]
fn start_with_an_empty_listen_address_is_refused() {
    let config = store(vec![profile("a", "relay:443", "")], Some("a"));
    let process = ProcessManager::new();
    assert_eq!(
        start_process(&config, &process, Platform::Other),
        Err("请输入监听地址".to_string())
    );
    assert!(!is_process_running(&process));
}

#[test]
fn start_reports_the_missing_server_before_the_missing_listen_address() {
    let config = store(vec![profile("a", "", "")], Some("a"));
    assert_eq!(
        start_process(&config, &ProcessManager::new(), Platform::Other),
        Err("请输入服务地址".to_string())
    );
}

#[test]
fn start_without_a_current_profile_is_refused() {
    let process = ProcessManager::new();
    let empty = store(vec![], None);
    assert_eq!(start_process(&empty, &process, Platform::Other), Err("没有选择服务器".to_string()));
    let dangling = store(vec![profile("a", "relay:443", "127.0.0.1:30000")], Some("gone"));
    assert_eq!(
        start_process(&dangling, &process, Platform::Other),
        Err("没有选择服务器".to_string())
    );
}

#[test]
fn start_while_running_is_refused() {
    let config = pair();
    let mut process = ProcessManager::new();
    process.finish_start(SpawnOutcome::Started(10)).unwrap();
    assert_eq!(start_process(&config, &process, Platform::Other), Err("进程已在运行".to_string()));
    assert!(is_process_running(&process));
}

#[test]
fn happy_path_run() {
    let config = pair();
    let mut process = ProcessManager::new();
    let request = start_process(&config, &process, Platform::Other).unwrap();
    assert_eq!(request.launch.program, "ech-workers");
    assert_eq!(
        request.launch.args.join(" "),
        "-f relay:443 -l 127.0.0.1:30000 -token t -ip saas.sin.fan -routing bypass_cn"
    );
    assert_eq!(request.launch.creation_flags, None);
    assert_eq!(request.message, "已启动服务器: profile a");
    assert!(!is_process_running(&process));
    process.finish_start(SpawnOutcome::Started(321)).unwrap();
    assert!(is_process_running(&process));
}

#[test]
fn stop_command_while_running_then_again() {
    let mut process = ProcessManager::new();
    process.finish_start(SpawnOutcome::Started(321)).unwrap();
    let first = stop_process(&mut process, Platform::Other);
    assert_eq!(first.actions, vec![StopAction::Terminate(321), StopAction::Poll]);
    assert_eq!(first.message, "进程已停止");
    assert!(!is_process_running(&process));
    let second = stop_process(&mut process, Platform::Other);
    assert_eq!(second.actions, vec![StopAction::EmitStopped]);
    assert_eq!(second.message, "进程已停止");
    assert!(!is_process_running(&process));
}

#[test]
fn proxy_command_uses_the_current_listen_address() {
    let mut config = pair();
    let plan = set_system_proxy(&config, Platform::Windows, true, &Ok(String::new())).unwrap();
    assert_eq!(plan.message, "已设置系统代理: 127.0.0.1:30000");
    set_current_server(&mut config, "b".to_string()).unwrap();
    let plan = set_system_proxy(&config, Platform::Windows, true, &Ok(String::new())).unwrap();
    assert_eq!(plan.message, "已设置系统代理: 127.0.0.1:1080");
    assert_eq!(
        plan.actions[1],
        ProxyAction::SetString {
            name: "ProxyServer".to_string(),
            value: "127.0.0.1:1080".to_string(),
            failure: "设置代理服务器失败".to_string(),
        }
    );
}

#[test]
fn proxy_command_falls_back_without_a_current_profile() {
    let config = store(vec![], None);
    let plan = set_system_proxy(&config, Platform::Windows, true, &Ok(String::new())).unwrap();
    assert_eq!(plan.message, "已设置系统代理: 127.0.0.1:30000");
    let listing = Ok("heading\nWi-Fi\n".to_string());
    let plan = set_system_proxy(&config, Platform::MacOS, true, &listing).unwrap();
    assert_eq!(
        plan.actions[0],
        ProxyAction::Run {
            program: "networksetup".to_string(),
            args: vec![
                "-setsocksfirewallproxy".to_string(),
                "Wi-Fi".to_string(),
                "127.0.0.1".to_string(),
                "30000".to_string(),
            ],
        }
    );
}

#[test]
fn proxy_command_is_unsupported_on_other_platforms() {
    assert_eq!(
        set_system_proxy(&pair(), Platform::Other, false, &Ok(String::new())),
        Err("Linux 暂不支持自动设置系统代理".to_string())
    );
}

#[test]
fn proxy_status_command() {
    assert!(get_proxy_status(Platform::Windows, &Reading::Dword(1)));
    assert!(!get_proxy_status(Platform::Windows, &Reading::Dword(0)));
    assert!(!get_proxy_status(Platform::Other, &Reading::Dword(1)));
}
