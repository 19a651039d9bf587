use ech_gui::platform::Platform;
use ech_gui::proxy::{
    get_macos_proxy_status, get_proxy_status, get_windows_proxy_status, network_services,
    parse_listen_addr, services_query, set_macos_proxy, set_system_proxy, set_windows_proxy,
    status_query, ProxyAction, ProxyPlan, ProxyQuery, Reading, RefreshKind,
};

const KEY: &str = "Software\\Microsoft\\Windows\\CurrentVersion\\Internet Settings";

const LISTING: &str = "An asterisk (*) denotes that a network service is disabled.\nWi-Fi\n*Bluetooth PAN\nThunderbolt Bridge\n\nUSB 10/100 LAN\n";

fn strings(items: &[&str]) -> Vec<String> {
    items.iter().map(|s| s.to_string()).collect()
}

fn run(args: &[&str]) -> ProxyAction {
    ProxyAction::Run { program: "networksetup".to_string(), args: strings(args) }
}

fn bypass(service: &str) -> ProxyAction {
    run(&[
        "-setsocksfirewallproxybypassdomains",
        service,
        "localhost",
        "127.*",
        "10.*",
        "172.16.*",
        "172.17.*",
        "172.18.*",
        "172.19.*",
        "172.20.*",
        "172.21.*",
        "172.22.*",
        "172.23.*",
        "172.24.*",
        "172.25.*",
        "172.26.*",
        "172.27.*",
        "172.28.*",
        "172.29.*",
        "172.30.*",
        "172.31.*",
        "192.168.*",
        "*.local",
        "169.254.*",
    ])
}

fn open_key() -> ProxyAction {
    ProxyAction::OpenKey { path: KEY.to_string(), failure: "打开注册表失败".to_string() }
}

fn listed(text: &str) -> Result<String, String> {
    Ok(text.to_string())
}

#[test]
fn listen_addr_without_colon_is_a_port_on_loopback() {
    assert_eq!(parse_listen_addr("8080"), Ok(("127.0.0.1".to_string(), "8080".to_string())));
}

#[test]
fn listen_addr_is_split_at_the_rightmost_colon() {
    assert_eq!(
        parse_listen_addr("[::1]:30000"),
        Ok(("[::1]".to_string(), "30000".to_string()))
    );
    assert_eq!(
        parse_listen_addr("127.0.0.1:30000"),
        Ok(("127.0.0.1".to_string(), "30000".to_string()))
    );
}

#[test]
fn listen_addr_edges() {
    assert_eq!(parse_listen_addr(""), Ok(("127.0.0.1".to_string(), String::new())));
    assert_eq!(parse_listen_addr(":"), Ok((String::new(), String::new())));
    assert_eq!(parse_listen_addr(":1080"), Ok((String::new(), "1080".to_string())));
    assert_eq!(parse_listen_addr("host:"), Ok(("host".to_string(), String::new())));
    assert_eq!(parse_listen_addr("a:b:c"), Ok(("a:b".to_string(), "c".to_string())));
}

#[test]
fn listen_addr_with_wide_characters_is_split_by_character() {
    assert_eq!(
        parse_listen_addr("本机:端口"),
        Ok(("本机".to_string(), "端口".to_string()))
    );
}

#[test]
fn services_are_the_listed_lines_in_use() {
    assert_eq!(
        network_services(LISTING),
        strings(&["Wi-Fi", "Thunderbolt Bridge", "USB 10/100 LAN"])
    );
}

#[test]
fn services_skip_the_heading_even_when_it_looks_like_a_service() {
    assert_eq!(network_services("Wi-Fi\nEthernet"), strings(&["Ethernet"]));
    assert_eq!(network_services("Wi-Fi"), Vec::<String>::new());
    assert_eq!(network_services(""), Vec::<String>::new());
    assert_eq!(network_services("\n"), Vec::<String>::new());
}

#[test]
fn services_lose_the_carriage_return_of_a_crlf_line() {
    assert_eq!(network_services("heading\r\nWi-Fi\r\n*Off\r\nLAN"), strings(&["Wi-Fi", "LAN"]));
    assert_eq!(network_services("heading\n\r\nA\r"), strings(&["A\r"]));
}

#[test]
fn services_query_is_asked_on_macos_only() {
    assert_eq!(
        services_query(Platform::MacOS),
        Some(ProxyQuery::Run {
            program: "networksetup".to_string(),
            args: strings(&["-listallnetworkservices"]),
        })
    );
    assert_eq!(services_query(Platform::Windows), None);
    assert_eq!(services_query(Platform::Other), None);
}

#[test]
fn macos_enable_runs_three_commands_per_service_in_order() {
    let plan = set_macos_proxy(true, "127.0.0.1:30000", &listed(LISTING)).unwrap();
    let mut expected = Vec::new();
    for service in ["Wi-Fi", "Thunderbolt Bridge", "USB 10/100 LAN"] {
        expected.push(run(&["-setsocksfirewallproxy", service, "127.0.0.1", "30000"]));
        expected.push(bypass(service));
        expected.push(run(&["-setsocksfirewallproxystate", service, "on"]));
    }
    assert_eq!(plan.actions, expected);
    assert_eq!(plan.message, "已设置系统代理: 127.0.0.1:30000");
    assert!(plan.message.contains("127.0.0.1:30000"));
}

#[test]
fn macos_disable_turns_every_service_off() {
    let plan = set_macos_proxy(false, "127.0.0.1:30000", &listed(LISTING)).unwrap();
    assert_eq!(
        plan.actions,
        vec![
            run(&["-setsocksfirewallproxystate", "Wi-Fi", "off"]),
            run(&["-setsocksfirewallproxystate", "Thunderbolt Bridge", "off"]),
            run(&["-setsocksfirewallproxystate", "USB 10/100 LAN", "off"]),
        ]
    );
    assert_eq!(plan.message, "已关闭系统代理");
}

#[test]
fn macos_enable_then_disable_covers_the_same_services() {
    let on = set_macos_proxy(true, "127.0.0.1:30000", &listed(LISTING)).unwrap();
    let off = set_macos_proxy(false, "127.0.0.1:30000", &listed(LISTING)).unwrap();
    let state = |plan: &ProxyPlan| -> Vec<(String, String)> {
        let mut out = Vec::new();
        for action in &plan.actions {
            if let ProxyAction::Run { args, .. } = action {
                if args[0] == "-setsocksfirewallproxystate" {
                    out.push((args[1].clone(), args[2].clone()));
                }
            }
        }
        out
    };
    let turned_on: Vec<String> = state(&on).into_iter().map(|(s, v)| {
        assert_eq!(v, "on");
        s
    }).collect();
    let turned_off: Vec<String> = state(&off).into_iter().map(|(s, v)| {
        assert_eq!(v, "off");
        s
    }).collect();
    assert_eq!(turned_on, turned_off);
    assert_eq!(turned_off, network_services(LISTING));
}

#[test]
fn macos_with_no_services_does_nothing_and_succeeds() {
    let plan = set_macos_proxy(true, "8080", &listed("heading only\n")).unwrap();
    assert_eq!(plan.actions, Vec::<ProxyAction>::new());
    assert_eq!(plan.message, "已设置系统代理: 127.0.0.1:8080");
}

#[test]
fn macos_listing_failure_is_reported() {
    assert_eq!(
        set_macos_proxy(true, "127.0.0.1:30000", &Err("No such file".to_string())),
        Err("获取网络服务列表失败: No such file".to_string())
    );
    assert_eq!(
        set_macos_proxy(false, "127.0.0.1:30000", &Err(String::new())),
        Err("获取网络服务列表失败: ".to_string())
    );
}

#[test]
fn windows_enable_writes_server_switch_and_bypass_then_notifies() {
    let plan = set_windows_proxy(true, "127.0.0.1:30000").unwrap();
    assert_eq!(
        plan.actions,
        vec![
            open_key(),
            ProxyAction::SetString {
                name: "ProxyServer".to_string(),
                value: "127.0.0.1:30000".to_string(),
                failure: "设置代理服务器失败".to_string(),
            },
            ProxyAction::SetDword {
                name: "ProxyEnable".to_string(),
                number: 1,
                failure: "启用代理失败".to_string(),
            },
            ProxyAction::SetString {
                name: "ProxyOverride".to_string(),
                value: "localhost;127.*;10.*;172.16.*;172.17.*;172.18.*;172.19.*;172.20.*;172.21.*;172.22.*;172.23.*;172.24.*;172.25.*;172.26.*;172.27.*;172.28.*;172.29.*;172.30.*;172.31.*;192.168.*;<local>".to_string(),
                failure: "设置绕过列表失败".to_string(),
            },
            ProxyAction::Notify(RefreshKind::SettingsChanged),
            ProxyAction::Notify(RefreshKind::Refresh),
        ]
    );
    assert_eq!(plan.message, "已设置系统代理: 127.0.0.1:30000");
}

#[test]
fn windows_enable_with_a_bare_port_uses_loopback() {
    let plan = set_windows_proxy(true, "1080").unwrap();
    assert_eq!(
        plan.actions[1],
        ProxyAction::SetString {
            name: "ProxyServer".to_string(),
            value: "127.0.0.1:1080".to_string(),
            failure: "设置代理服务器失败".to_string(),
        }
    );
}

#[test]
fn windows_disable_clears_the_switch_and_notifies_twice() {
    let plan = set_windows_proxy(false, "127.0.0.1:30000").unwrap();
    assert_eq!(
        plan.actions,
        vec![
            open_key(),
            ProxyAction::SetDword {
                name: "ProxyEnable".to_string(),
                number: 0,
                failure: "禁用代理失败".to_string(),
            },
            ProxyAction::Notify(RefreshKind::SettingsChanged),
            ProxyAction::Notify(RefreshKind::Refresh),
        ]
    );
    assert_eq!(plan.message, "已关闭系统代理");
    assert!(!get_proxy_status(Platform::Windows, &Reading::Dword(0)));
}

#[test]
fn windows_enable_then_disable_ends_with_the_switch_at_zero() {
    let mut switch = None;
    for enabled in [true, false] {
        for action in set_windows_proxy(enabled, "127.0.0.1:30000").unwrap().actions {
            if let ProxyAction::SetDword { name, number, .. } = action {
                assert_eq!(name, "ProxyEnable");
                switch = Some(number);
            }
        }
        if enabled {
            assert_eq!(switch, Some(1));
        }
    }
    assert_eq!(switch, Some(0));
}

#[test]
fn registry_failures_end_the_request_with_their_label() {
    let plan = set_windows_proxy(true, "127.0.0.1:30000").unwrap();
    assert_eq!(
        plan.actions[0].failure_message("access denied"),
        Some("打开注册表失败: access denied".to_string())
    );
    assert_eq!(
        plan.actions[1].failure_message("e"),
        Some("设置代理服务器失败: e".to_string())
    );
    assert_eq!(plan.actions[2].failure_message("e"), Some("启用代理失败: e".to_string()));
    assert_eq!(plan.actions[3].failure_message("e"), Some("设置绕过列表失败: e".to_string()));
    assert_eq!(plan.actions[4].failure_message("e"), None);
    assert_eq!(plan.actions[5].failure_message("e"), None);
    let off = set_windows_proxy(false, "").unwrap();
    assert_eq!(off.actions[1].failure_message("e"), Some("禁用代理失败: e".to_string()));
}

#[test]
fn command_failures_are_passed_over() {
    let plan = set_macos_proxy(true, "127.0.0.1:30000", &listed(LISTING)).unwrap();
    for action in &plan.actions {
        assert_eq!(action.failure_message("exit status 1"), None);
    }
}

#[test]
fn system_proxy_dispatches_by_platform() {
    let listing = listed(LISTING);
    assert_eq!(
        set_system_proxy(Platform::MacOS, true, "127.0.0.1:30000", &listing),
        set_macos_proxy(true, "127.0.0.1:30000", &listing)
    );
    assert_eq!(
        set_system_proxy(Platform::Windows, false, "127.0.0.1:30000", &listing),
        set_windows_proxy(false, "127.0.0.1:30000")
    );
    assert_eq!(
        set_system_proxy(Platform::Windows, true, "127.0.0.1:30000", &Err("unused".to_string())),
        set_windows_proxy(true, "127.0.0.1:30000")
    );
}

#[test]
fn system_proxy_is_unsupported_elsewhere() {
    for enabled in [true, false] {
        assert_eq!(
            set_system_proxy(Platform::Other, enabled, "127.0.0.1:30000", &listed("")),
            Err("Linux 暂不支持自动设置系统代理".to_string())
        );
    }
}

#[test]
fn status_query_by_platform() {
    assert_eq!(
        status_query(Platform::MacOS),
        Some(ProxyQuery::Run {
            program: "networksetup".to_string(),
            args: strings(&["-getsocksfirewallproxy", "Wi-Fi"]),
        })
    );
    assert_eq!(
        status_query(Platform::Windows),
        Some(ProxyQuery::ReadDword { path: KEY.to_string(), name: "ProxyEnable".to_string() })
    );
    assert_eq!(status_query(Platform::Other), None);
}

#[test]
fn macos_status_looks_for_the_marker() {
    assert!(get_macos_proxy_status(Some("Enabled: Yes\nServer: 127.0.0.1\nPort: 30000\n")));
    assert!(get_macos_proxy_status(Some("Enabled: Yes")));
    assert!(get_macos_proxy_status(Some("Authenticated Proxy Enabled: Yes")));
    assert!(!get_macos_proxy_status(Some("Enabled: No\nServer: \nPort: 0\n")));
    assert!(!get_macos_proxy_status(Some("Enabled: Ye")));
    assert!(!get_macos_proxy_status(Some("enabled: yes")));
    assert!(!get_macos_proxy_status(Some("")));
    assert!(!get_macos_proxy_status(None));
}

#[test]
fn windows_status_is_on_only_for_one() {
    assert!(get_windows_proxy_status(Some(1)));
    assert!(!get_windows_proxy_status(Some(0)));
    assert!(!get_windows_proxy_status(Some(2)));
    assert!(!get_windows_proxy_status(None));
}

#[test]
fn proxy_status_by_platform() {
    let on = Reading::Output("Enabled: Yes\n".to_string());
    assert!(get_proxy_status(Platform::MacOS, &on));
    assert!(!get_proxy_status(Platform::MacOS, &Reading::Output("Enabled: No\n".to_string())));
    assert!(!get_proxy_status(Platform::MacOS, &Reading::Unavailable));
    assert!(!get_proxy_status(Platform::MacOS, &Reading::Dword(1)));
    assert!(get_proxy_status(Platform::Windows, &Reading::Dword(1)));
    assert!(!get_proxy_status(Platform::Windows, &Reading::Dword(0)));
    assert!(!get_proxy_status(Platform::Windows, &Reading::Unavailable));
    assert!(!get_proxy_status(Platform::Windows, &on));
    assert!(!get_proxy_status(Platform::Other, &on));
    assert!(!get_proxy_status(Platform::Other, &Reading::Dword(1)));
    assert!(!get_proxy_status(Platform::Other, &Reading::Unavailable));
}
