use chmlfrp::api::{
    api_result, api_url, bearer, delete_tunnel_endpoint, is_login_expired_error, node_info_endpoint,
    offline_result, offline_tunnel_body,
};
use chmlfrp::auth::{
    apply_refreshed_token, choose_token, login_with_access_token, poll_interval_secs, poll_step,
    refresh_result, DeviceTokenResponse, PollStep, TokenChoice,
};
use chmlfrp::config::generate_frpc_config;
use chmlfrp::download::{
    check_complete, choose_download, chunk_step, get_platform_string, matches_arch, range_header,
    update_total, verify_sha256, ChunkStep,
};
use chmlfrp::models::{
    FrpcDownload, FrpcInfoData, FrpcInfoResponse, PersistedTunnelInfo, ProcessGuardState,
    StoredUser, TunnelConfig, UserInfo,
};
use chmlfrp::paths::{frpc_file_name, frpc_file_name_for, get_frpc_path, get_logs_persistence_path, get_persistence_path};
use chmlfrp::persistence::{keep_last_lines, merge_running_ids, recover_running_tunnels, remove_running_tunnel, save_running_tunnel};
use chmlfrp::process::{
    api_start_template, custom_start_template, format_log_line, generated_config_file_name,
    is_generated_config, output_log, start_message, started_log,
};
use chmlfrp::sanitize::sanitize_log;
use chmlfrp::tui::{first_allowed_port, parse_port_bounds, port_is_in_allowed_range, OfficialTunnelMode, OfficialTunnelProtocol};
use std::collections::HashMap;

fn config(ty: &str) -> TunnelConfig {
    TunnelConfig {
        tunnel_id: 1,
        tunnel_name: "demo".to_string(),
        user_token: "usertoken".to_string(),
        server_addr: "frp.example.com".to_string(),
        server_port: 7000,
        node_token: "nodetoken".to_string(),
        tunnel_type: ty.to_string(),
        local_ip: "127.0.0.1".to_string(),
        local_port: 8080,
        remote_port: Some(9000),
        custom_domains: None,
        http_proxy: None,
        log_level: "info".to_string(),
        force_tls: true,
        kcp_optimization: true,
    }
}

fn user() -> StoredUser {
    StoredUser {
        username: "u".to_string(),
        usergroup: "g".to_string(),
        userimg: None,
        usertoken: Some("legacy".to_string()),
        access_token: Some("access".to_string()),
        refresh_token: Some("refresh".to_string()),
        access_token_expires_at: Some(1000),
        token_type: None,
        tunnel_count: None,
        tunnel: None,
    }
}

fn token_response(access: Option<&str>, error: Option<&str>) -> DeviceTokenResponse {
    DeviceTokenResponse {
        access_token: access.map(str::to_string),
        token_type: None,
        expires_in: Some(3600),
        refresh_token: None,
        scope: None,
        error: error.map(str::to_string),
        error_description: None,
    }
}

#[test]
fn frpc_configuration_text() {
    let text = generate_frpc_config(&config("tcp")).unwrap();
    assert_eq!(
        text,
        "[common]\nserver_addr = frp.example.com\nserver_port = 7000\nlog_level = info\ntls_enable = true\ntcp_mux = true\npool_count = 5\nprotocol = kcp\nuser = usertoken\ntoken = nodetoken\n\n[demo]\ntype = tcp\nlocal_ip = 127.0.0.1\nlocal_port = 8080\nremote_port = 9000\n"
    );
    let mut c = config("http");
    assert_eq!(generate_frpc_config(&c).unwrap_err(), "HTTP/HTTPS 隧道缺少 custom_domains 参数");
    c.custom_domains = Some("a.example.com".to_string());
    let text = generate_frpc_config(&c).unwrap();
    assert!(text.ends_with("custom_domains = a.example.com\n"));
    assert!(!text.contains("protocol = kcp"));
    let mut c = config("udp");
    c.remote_port = None;
    assert_eq!(generate_frpc_config(&c).unwrap_err(), "TCP/UDP 隧道缺少 remote_port 参数");
    assert_eq!(generate_frpc_config(&config("xtcp")).unwrap_err(), "不支持的隧道类型: xtcp");
}

#[test]
fn log_lines_hide_tokens() {
    assert_eq!(sanitize_log("login with abcdef.ghijkl done", &["abcdef.ghijkl"]), "login with  done");
    assert_eq!(sanitize_log("user=abcdef.xyz", &["abcdef.xyz"]), "user=");
    assert_eq!(sanitize_log("part abcdefgh", &["abcdef.ghijkl"]), "part ***gh");
    assert_eq!(sanitize_log("nothing here", &["", "zz"]), "nothing here");
    assert_eq!(
        format_log_line("\u{1b}[32mconnected usertok1234\u{1b}[0m", "usertok1234", "", true),
        "[ERR] connected "
    );
}

#[test]
fn start_messages_and_names() {
    assert_eq!(start_message(&api_start_template(), 42), "[I] [ChmlFrpLauncher] frpc 进程已启动 (PID: 42), 开始连接服务器...");
    assert_eq!(start_message(&custom_start_template("my"), 7), "[I] [ChmlFrpLauncher] 自定义隧道 my 进程已启动 (PID: 7)");
    assert_eq!(generated_config_file_name(-3), "g_-3.ini");
    assert!(is_generated_config("g_12.ini"));
    assert!(!is_generated_config("z_12.ini"));
}

#[test]
fn release_feed_choice() {
    assert_eq!(get_platform_string("linux", "x86_64"), Some("linux_amd64"));
    assert_eq!(get_platform_string("plan9", "x86_64"), None);
    assert!(matches_arch("linux", "aarch64", "arm"));
    assert!(!matches_arch("macos", "aarch64", "arm"));
    let d = |platform: &str, size: u64| FrpcDownload {
        hash: format!("h{}", size),
        os: "linux".to_string(),
        hash_type: "sha256".to_string(),
        platform: platform.to_string(),
        link: format!("https://x/{}", size),
        arch: "x86_64".to_string(),
        size,
    };
    let resp = FrpcInfoResponse {
        msg: "ok".to_string(),
        state: "success".to_string(),
        code: 200,
        data: FrpcInfoData {
            downloads: vec![d("linux_amd64", 5), d("linux_amd64", 9), d("linux_arm", 20)],
            version: "1".to_string(),
            release_notes: vec![],
        },
    };
    let info = choose_download(&resp, "linux", "x86_64").unwrap();
    assert_eq!(info.size, 9);
    assert_eq!(info.url, "https://x/9");
    assert_eq!(choose_download(&resp, "plan9", "x").unwrap_err(), "不支持的平台: plan9 x");
    assert_eq!(choose_download(&resp, "windows", "x86").unwrap_err(), "未找到匹配的下载: windows x86");
    let mut bad = resp.clone();
    bad.code = 500;
    bad.msg = "down".to_string();
    assert_eq!(choose_download(&bad, "linux", "x86_64").unwrap_err(), "API 返回错误: down");
}

#[test]
fn download_checks() {
    let digest = "ba7816bf8f01cfea414140de5dae2223b00361a396177a9cb410ff61f20015ad";
    assert!(verify_sha256(b"abc", digest).is_ok());
    assert!(verify_sha256(b"abc", &digest.to_uppercase()).is_ok());
    let err = verify_sha256(b"abd", digest).unwrap_err();
    assert!(err.starts_with("文件 hash 验证失败: 预期 ba7816"));
    assert_eq!(range_header(0, 0), "bytes=0-1048575");
    assert_eq!(range_header(1048576, 1500000), "bytes=1048576-1499999");
    assert_eq!(range_header(0, 100), "bytes=0-99");
    assert_eq!(update_total(0, true, Some("bytes 0-99/5000"), None), 5000);
    assert_eq!(update_total(0, false, None, Some(77)), 77);
    assert_eq!(update_total(10, false, None, Some(77)), 10);
    assert_eq!(chunk_step(false, 100, 100, 100, 0), ChunkStep::Finished);
    assert_eq!(chunk_step(false, 1000, 100, 100, 0), ChunkStep::Next);
    assert_eq!(chunk_step(true, 1000, 100, 100, 3), ChunkStep::Retry(4));
    assert_eq!(chunk_step(true, 1000, 100, 100, 4), ChunkStep::GiveUp);
    assert_eq!(check_complete(100, 50).unwrap_err(), "下载不完整: 预期 100 bytes, 实际 50 bytes");
    assert_eq!(check_complete(0, 0).unwrap_err(), "下载失败: 没有接收到任何数据");
    assert!(check_complete(100, 100).is_ok());
}

#[test]
fn sign_in_answers() {
    assert!(matches!(poll_step(&token_response(Some("a"), None)), PollStep::Done));
    assert!(matches!(poll_step(&token_response(None, Some("authorization_pending"))), PollStep::Wait));
    assert!(matches!(poll_step(&token_response(None, Some("slow_down"))), PollStep::SlowDown));
    match poll_step(&token_response(None, Some("access_denied"))) {
        PollStep::Fail(m) => assert_eq!(m, "用户拒绝了授权"),
        _ => panic!("expected failure"),
    }
    match poll_step(&token_response(None, Some("weird"))) {
        PollStep::Fail(m) => assert_eq!(m, "授权失败: weird"),
        _ => panic!("expected failure"),
    }
    assert_eq!(poll_interval_secs(2), 5);
    assert_eq!(poll_interval_secs(9), 9);
    assert_eq!(refresh_result(token_response(None, None)).unwrap_err(), "刷新 token 失败");
    let info = UserInfo {
        id: 1,
        username: "u".to_string(),
        userimg: "img".to_string(),
        usertoken: "ut".to_string(),
        usergroup: "g".to_string(),
        bandwidth: 1,
        tunnel: 3,
        realname: String::new(),
        integral: 0,
        term: String::new(),
        tunnel_count: 2,
        total_cur_conns: None,
    };
    let u = login_with_access_token(info, "acc", &token_response(Some("acc"), None), 100);
    assert_eq!(u.access_token_expires_at, Some(3700));
    assert_eq!(u.token_type.as_deref(), Some("Bearer"));
    assert_eq!(u.usertoken.as_deref(), Some("ut"));
}

#[test]
fn token_choice_and_refresh() {
    assert!(matches!(choose_token(&user(), 0), TokenChoice::Use(ref t) if t == "access"));
    assert!(matches!(choose_token(&user(), 940), TokenChoice::Refresh(ref t) if t == "refresh"));
    let mut u = user();
    u.refresh_token = None;
    assert!(matches!(choose_token(&u, 2000), TokenChoice::Expired));
    u.access_token = None;
    assert!(matches!(choose_token(&u, 2000), TokenChoice::Use(ref t) if t == "legacy"));
    let mut u = user();
    assert_eq!(apply_refreshed_token(&mut u, token_response(Some("new"), None), 10).unwrap(), "new");
    assert_eq!(u.access_token.as_deref(), Some("new"));
    assert_eq!(u.refresh_token.as_deref(), Some("refresh"));
    assert_eq!(u.access_token_expires_at, Some(3610));
    let mut u = user();
    assert_eq!(apply_refreshed_token(&mut u, token_response(None, None), 10).unwrap_err(), "登录信息已过期，请重新登录");
}

#[test]
fn api_helpers() {
    assert_eq!(api_url("/tunnel"), "https://cf-v2.uapis.cn/tunnel");
    assert_eq!(bearer("t"), "Bearer t");
    assert_eq!(node_info_endpoint("香港 1"), "/nodeinfo?node=%E9%A6%99%E6%B8%AF%201");
    assert_eq!(offline_tunnel_body("a&b"), "tunnel_name=a%26b");
    assert_eq!(delete_tunnel_endpoint(-5), "/delete_tunnel?tunnelid=-5");
    assert_eq!(api_result(200, None, Some(3)).unwrap(), 3);
    assert!(api_result::<i32>(400, Some("bad".to_string()), None).is_err());
    assert!(offline_result(200, "success", None).is_ok());
    assert!(is_login_expired_error("错误: 无效的登录状态"));
    assert!(!is_login_expired_error("网络错误"));
}

#[test]
fn paths_and_records() {
    assert!(frpc_file_name() == "frpc" || frpc_file_name() == "frpc.exe");
    assert_eq!(frpc_file_name_for(true), "frpc.exe");
    let p = get_frpc_path("/data");
    assert!(p == "/data/frpc" || p == "/data\\frpc.exe");
    assert_eq!(get_persistence_path("/data"), "/data/running_tunnels.json");
    assert_eq!(get_logs_persistence_path("/data"), "/data/tunnel_logs.jsonl");
    let mut records: HashMap<i32, PersistedTunnelInfo> = HashMap::new();
    save_running_tunnel(&mut records, 3, 100, "custom", Some("my".to_string()));
    assert_eq!(records[&3].pid, 100);
    assert_eq!(records[&3].tunnel_type, "custom");
    assert!(!records[&3].started_at.is_empty());
    remove_running_tunnel(&mut records, 3);
    assert!(records.is_empty());
    let rec = |id: i32| PersistedTunnelInfo {
        tunnel_id: id,
        pid: id as u32,
        tunnel_type: "api".to_string(),
        original_id: None,
        started_at: String::new(),
    };
    let (alive, map) = recover_running_tunnels(&vec![(1, rec(1)), (2, rec(2))], &vec![false, true]);
    assert_eq!(alive.len(), 1);
    assert_eq!(alive[0].tunnel_id, 2);
    assert!(map.contains_key(&2) && !map.contains_key(&1));
    assert_eq!(merge_running_ids(vec![2, 5], &vec![rec(5), rec(7), rec(7)]), vec![2, 5, 7]);
    assert_eq!(keep_last_lines(vec![1, 2, 3, 4], 2), vec![3, 4]);
    assert_eq!(keep_last_lines(vec![1], 2), vec![1]);
    let guard = ProcessGuardState::new();
    assert!(!guard.enabled && guard.guarded_processes.is_empty());
}

#[test]
fn protocols_and_port_ranges() {
    assert_eq!(OfficialTunnelProtocol::from_tunnel_type("HTTPS"), OfficialTunnelProtocol::Https);
    assert_eq!(OfficialTunnelProtocol::from_tunnel_type("xtcp"), OfficialTunnelProtocol::Tcp);
    for p in [
        OfficialTunnelProtocol::Tcp,
        OfficialTunnelProtocol::Udp,
        OfficialTunnelProtocol::Http,
        OfficialTunnelProtocol::Https,
    ] {
        assert_eq!(p.cycle().cycle().cycle().cycle(), p);
        assert_eq!(OfficialTunnelProtocol::from_tunnel_type(p.label()), p);
    }
    assert!(OfficialTunnelProtocol::Https.is_http());
    assert!(OfficialTunnelMode::Edit { tunnel_id: 1 }.is_edit());
    assert_eq!(parse_port_bounds(" 20000-10000 "), Some((10000, 20000)));
    assert_eq!(parse_port_bounds("x"), None);
    assert_eq!(first_allowed_port("abc， 30000-40000,50000"), Some(30000));
    assert_eq!(first_allowed_port(""), None);
    assert!(port_is_in_allowed_range(35000, "abc， 30000-40000,50000"));
    assert!(port_is_in_allowed_range(50000, "abc， 30000-40000,50000"));
    assert!(!port_is_in_allowed_range(45000, "abc， 30000-40000,50000"));
    let first = first_allowed_port("7000-8000 9000").unwrap();
    assert!(port_is_in_allowed_range(first, "7000-8000 9000"));
}

#[test]
fn log_entries_carry_tunnel_and_text() {
    let started = started_log(7, "PID {pid}", 42);
    assert_eq!(started.tunnel_id, 7);
    assert_eq!(started.message, "PID 42");
    assert_eq!(started.timestamp.len(), 19);
    let line = output_log(3, "\u{1b}[31mboom\u{1b}[0m", "", "", true);
    assert_eq!(line.tunnel_id, 3);
    assert_eq!(line.message, "[ERR] boom");
}

#[test]
fn long_token_is_never_left_in_a_log_line() {
    let token = "abcdefghijkl";
    let message = format!("xxabcdefghij{}kl", token);
    let masked = sanitize_log(&message, &[token]);
    assert!(!masked.contains(token));
    assert_eq!(masked, "xx***");
}

#[test]
fn reformed_secret_is_still_hidden() {
    assert_eq!(sanitize_log("aabb", &["ab"]), "");
    assert!(!sanitize_log("x-aabb-y", &["ab"]).contains("ab"));
    assert_eq!(sanitize_log("keep me", &[]), "keep me");
    assert_eq!(sanitize_log("keep me", &[""]), "keep me");
}

#[test]
fn generated_config_summarises_back() {
    let mut c = config("tcp");
    c.remote_port = Some(20022);
    let text = generate_frpc_config(&c).unwrap();
    let info = chmlfrp::custom_tunnel::parse_ini_config(&text).unwrap();
    assert_eq!(info.server_addr.as_deref(), Some(c.server_addr.as_str()));
    assert_eq!(info.server_port, Some(c.server_port));
    assert_eq!(info.tunnel_names, vec![c.tunnel_name.clone()]);
    assert_eq!(info.tunnel_type.as_deref(), Some("tcp"));
    assert_eq!(info.local_ip.as_deref(), Some(c.local_ip.as_str()));
    assert_eq!(info.local_port, Some(c.local_port));
    assert_eq!(info.remote_port, Some(20022));
    assert_eq!(info.custom_domains, None);
}

#[test]
fn keys_before_the_first_section_change_nothing() {
    let body = "[common]\nserver_addr = a.example.com\nserver_port = 7000\n\n[web]\ntype = http\ncustom_domains = x.example.com\n";
    let plain = chmlfrp::custom_tunnel::parse_ini_config(body).unwrap();
    let with_prefix = format!("server_addr = ignored\n# note\n{}", body);
    let prefixed = chmlfrp::custom_tunnel::parse_ini_config(&with_prefix).unwrap();
    assert_eq!(prefixed.server_addr, plain.server_addr);
    assert_eq!(prefixed.tunnel_names, plain.tunnel_names);
    assert_eq!(prefixed.custom_domains, plain.custom_domains);
}

#[test]
fn split_names_match_summary_names() {
    let body = "[common]\nserver_addr = a\n[one]\ntype = tcp\n[two]\ntype = udp\n";
    let split = chmlfrp::custom_tunnel::split_ini_config(body).unwrap();
    let summary = chmlfrp::custom_tunnel::parse_ini_summary(body).unwrap();
    let names: Vec<String> = split.iter().map(|(n, _)| n.clone()).collect();
    assert_eq!(names, summary.2);
    assert!(chmlfrp::custom_tunnel::split_ini_config("[bad name]\n").is_err());
    assert!(chmlfrp::custom_tunnel::parse_ini_summary("[bad name]\n").is_err());
}

#[test]
fn each_split_text_summarises_to_its_tunnel() {
    let body = "[common]\nserver_addr = a.example.com\nserver_port = 7000\n[one]\ntype = tcp\nremote_port = 1\n[two]\ntype = udp\n";
    let whole = chmlfrp::custom_tunnel::parse_ini_summary(body).unwrap();
    for (name, text) in chmlfrp::custom_tunnel::split_ini_config(body).unwrap() {
        let part = chmlfrp::custom_tunnel::parse_ini_summary(&text).unwrap();
        assert_eq!(part.2, vec![name]);
        assert_eq!(part.0, whole.0);
        assert_eq!(part.1, whole.1);
    }
}
