use chmlfrp::app::{App, AppSettings, TunnelListItem};
use chmlfrp::custom_tunnel::CustomTunnel;
use chmlfrp::models::{LogMessage, Node, NodeInfo, StoredUser, Tunnel};
use chmlfrp::screens::{log_prefixes, log_tone, LogTone};
use chmlfrp::tui::{LoginState, OfficialTunnelMode, OfficialTunnelProtocol, Tab, TunnelEditorMode, TunnelPageMode};
use chmlfrp::view::{node_row, tunnel_row};

fn blank_app(marked: Vec<i32>) -> App {
    App::new(vec![], false, AppSettings { auto_start_tunnels_enabled: false, auto_start_tunnel_ids: marked })
}

fn account_tunnel(id: i32, name: &str, ty: &str, dorp: &str) -> Tunnel {
    Tunnel {
        id,
        name: name.to_string(),
        localip: "127.0.0.1".to_string(),
        tunnel_type: ty.to_string(),
        nport: 8080,
        dorp: dorp.to_string(),
        node: "node-a".to_string(),
        ap: String::new(),
        uptime: None,
        client_version: None,
        cur_conns: None,
        nodestate: "online".to_string(),
        ip: "1.2.3.4".to_string(),
        node_ip: "5.6.7.8".to_string(),
        node_ipv6: None,
        server_port: 7000,
        node_token: "nodetok".to_string(),
    }
}

fn own_tunnel(id: &str) -> CustomTunnel {
    CustomTunnel {
        id: id.to_string(),
        name: id.to_string(),
        config_file: format!("z_{}.ini", id),
        server_addr: Some("srv.example.com".to_string()),
        server_port: Some(7000),
        tunnels: vec![id.to_string()],
        tunnel_type: None,
        custom_domains: None,
        subdomain: None,
        local_ip: None,
        local_port: Some(22),
        remote_port: Some(2222),
        created_at: "t".to_string(),
        hashed_id: Some(77),
    }
}

fn plain_node(name: &str) -> Node {
    Node {
        id: 1,
        name: name.to_string(),
        area: "华东".to_string(),
        nodegroup: "vip".to_string(),
        china: "yes".to_string(),
        web: "yes".to_string(),
        udp: "no".to_string(),
        fangyu: String::new(),
        notes: String::new(),
    }
}

fn info_with_rport(rport: &str) -> NodeInfo {
    NodeInfo {
        id: 1,
        name: "node-a".to_string(),
        area: String::new(),
        nodegroup: String::new(),
        china: String::new(),
        web: String::new(),
        udp: String::new(),
        fangyu: String::new(),
        notes: String::new(),
        ip: "5.6.7.8".to_string(),
        port: 7000,
        admin_port: None,
        rport: rport.to_string(),
        state: "online".to_string(),
        nodetoken: "t".to_string(),
        real_ip: None,
        ipv6: None,
        version: None,
    }
}

#[test]
fn account_rows_show_remote_by_type() {
    let web = tunnel_row(&TunnelListItem::Api(account_tunnel(5, "web", "http", "a.example.com")), true, true);
    assert_eq!(web.source, "API");
    assert_eq!(web.id, "5");
    assert_eq!(web.name, "[A] web");
    assert_eq!(web.tunnel_type, "http");
    assert_eq!(web.node_or_server, "node-a");
    assert_eq!(web.local_addr, "127.0.0.1:8080");
    assert_eq!(web.remote_addr, "a.example.com");
    assert!(web.running);
    let ssh = tunnel_row(&TunnelListItem::Api(account_tunnel(-6, "ssh", "tcp", "20022")), false, false);
    assert_eq!(ssh.id, "-6");
    assert_eq!(ssh.name, "ssh");
    assert_eq!(ssh.remote_addr, "5.6.7.8:20022");
    assert!(!ssh.running);
}

#[test]
fn local_rows_fall_back_to_dashes() {
    let t = own_tunnel("mine");
    let row = tunnel_row(&TunnelListItem::Local(t.clone()), false, false);
    assert_eq!(row.source, "LOCAL");
    assert_eq!(row.id, "mine");
    assert_eq!(row.tunnel_type, "-");
    assert_eq!(row.node_or_server, "srv.example.com");
    assert_eq!(row.local_addr, "-");
    assert_eq!(row.remote_addr, "srv.example.com:2222");
    let mut with_domain = t.clone();
    with_domain.subdomain = Some("sub".to_string());
    with_domain.local_ip = Some("10.0.0.2".to_string());
    let row = tunnel_row(&TunnelListItem::Local(with_domain.clone()), false, false);
    assert_eq!(row.remote_addr, "sub");
    assert_eq!(row.local_addr, "10.0.0.2:22");
    with_domain.custom_domains = Some("a.com,b.com".to_string());
    let row = tunnel_row(&TunnelListItem::Local(with_domain), false, false);
    assert_eq!(row.remote_addr, "a.com,b.com");
    let mut bare = t;
    bare.server_addr = None;
    let row = tunnel_row(&TunnelListItem::Local(bare), false, false);
    assert_eq!(row.remote_addr, "-");
    assert_eq!(row.node_or_server, "-");
}

#[test]
fn list_rows_follow_running_and_marks() {
    let mut a = blank_app(vec![77]);
    a.tunnels = vec![account_tunnel(5, "web", "http", "a.example.com")];
    a.custom_tunnels = vec![own_tunnel("mine")];
    a.rebuild_tunnel_items();
    a.running_tunnels = vec![5];
    let rows = a.tunnel_rows();
    assert_eq!(rows.len(), 2);
    assert!(rows[0].running);
    assert_eq!(rows[0].name, "web");
    assert!(!rows[1].running);
    assert_eq!(rows[1].name, "[A] mine");
}

#[test]
fn node_rows_list_area_group_and_support() {
    let (name, rest) = node_row(&plain_node("沪-1"));
    assert_eq!(name, "沪-1 ");
    assert_eq!(rest, "华东 | vip | web:yes udp:no");
}

#[test]
fn form_rows_switch_with_protocol() {
    let mut a = blank_app(vec![]);
    let rows = a.official_form_rows();
    assert_eq!(rows.len(), 8);
    assert_eq!(rows[0], ("隧道名称".to_string(), String::new(), true));
    assert_eq!(rows[1], ("本地 IP".to_string(), "127.0.0.1".to_string(), false));
    assert_eq!(rows[3], ("远程端口".to_string(), " (允许: -)".to_string(), false));
    assert_eq!(rows[4].1, "TCP");
    assert_eq!(rows[5].1, "关闭");
    assert_eq!(rows[7], ("可用端口".to_string(), "-".to_string(), false));
    a.official_node_info = Some(info_with_rport("10000-20000"));
    a.official_tunnel_form.remote_port = "12345".to_string();
    a.official_tunnel_form.encryption = true;
    a.official_tunnel_form.selected_field = 3;
    let rows = a.official_form_rows();
    assert_eq!(rows[3], ("远程端口".to_string(), "12345 (允许: 10000-20000)".to_string(), true));
    assert_eq!(rows[5].1, "开启");
    assert_eq!(rows[7].1, "10000-20000");
    a.official_tunnel_form.protocol = OfficialTunnelProtocol::Https;
    a.official_tunnel_form.domain = "x.example.com".to_string();
    let rows = a.official_form_rows();
    assert_eq!(rows[3].0, "域名");
    assert_eq!(rows[3].1, "x.example.com");
    assert_eq!(rows[4].1, "HTTPS");
}

#[test]
fn form_title_names_mode_and_node() {
    let mut a = blank_app(vec![]);
    let (title, help) = a.official_form_title();
    assert_eq!(title, " 创建官方隧道 | 节点: - ");
    assert_eq!(help, " ↑↓ 切换字段 Tab/空格切换 Enter 提交 Esc 返回节点 ");
    a.official_nodes = vec![plain_node("沪-1")];
    a.official_tunnel_mode = OfficialTunnelMode::Edit { tunnel_id: 3 };
    let (title, help) = a.official_form_title();
    assert_eq!(title, " 编辑官方隧道 | 节点: 沪-1 ");
    assert_eq!(help, " ↑↓ 切换字段 Tab/空格切换 Enter 保存 Esc 返回节点 ");
}

#[test]
fn delete_confirmation_lines() {
    let mut a = blank_app(vec![]);
    let lines = a.api_delete_lines();
    assert_eq!(lines.len(), 8);
    assert_eq!(lines[2], "名称: -");
    assert_eq!(lines[5], "远程地址: -");
    a.api_delete_target = Some(account_tunnel(6, "ssh", "tcp", "20022"));
    let lines = a.api_delete_lines();
    assert_eq!(lines[0], "确认删除官方隧道");
    assert_eq!(lines[1], "");
    assert_eq!(lines[2], "名称: ssh");
    assert_eq!(lines[3], "类型: tcp");
    assert_eq!(lines[4], "节点: node-a");
    assert_eq!(lines[5], "远程地址: 5.6.7.8:20022");
    assert_eq!(lines[7], "按 Enter / y 确认删除，按 Esc / n 取消");
}

#[test]
fn editor_titles() {
    let mut a = blank_app(vec![]);
    assert_eq!(a.editor_title(), " 编辑器 ");
    a.tunnel_editor = Some(TunnelEditorMode::New);
    assert_eq!(a.editor_title(), " 新建本地隧道 ");
    a.tunnel_editor = Some(TunnelEditorMode::Edit { tunnel_id: "x".to_string() });
    assert_eq!(a.editor_title(), " 编辑本地隧道 ");
}

#[test]
fn login_screen_lines_by_state() {
    let mut a = blank_app(vec![]);
    let idle = a.login_lines();
    assert_eq!(idle.len(), 7);
    assert_eq!(idle[1], "欢迎使用 ChmlFrp Launcher TUI");
    a.login_state = LoginState::WaitingForAuth;
    assert_eq!(a.login_lines().len(), 7);
    a.login_verification_uri = "https://example.com/device".to_string();
    a.login_user_code = "ABCD".to_string();
    let waiting = a.login_lines();
    assert_eq!(waiting.len(), 10);
    assert_eq!(waiting[3], "访问: https://example.com/device");
    assert_eq!(waiting[5], "输入验证码: ABCD");
    assert_eq!(waiting[7], "等待授权中...");
    a.login_state = LoginState::Error;
    a.login_error = "网络错误".to_string();
    let failed = a.login_lines();
    assert_eq!(failed.len(), 6);
    assert_eq!(failed[1], "登录失败");
    assert_eq!(failed[3], "网络错误");
}

#[test]
fn user_bar_counts_tunnels() {
    let mut a = blank_app(vec![]);
    assert_eq!(a.user_bar(true), " 未登录");
    a.stored_user = Some(StoredUser {
        username: "alice".to_string(),
        usergroup: "vip".to_string(),
        userimg: None,
        usertoken: None,
        access_token: None,
        refresh_token: None,
        access_token_expires_at: None,
        token_type: None,
        tunnel_count: None,
        tunnel: None,
    });
    a.tunnels = vec![account_tunnel(5, "web", "http", "a.example.com")];
    a.rebuild_tunnel_items();
    a.running_tunnels = vec![5];
    assert_eq!(a.user_bar(false), " 用户: alice | 组: vip | 隧道总数: 1 | 运行中: 1 | frpc: 未安装");
}

#[test]
fn help_and_tab_follow_state() {
    let mut a = blank_app(vec![]);
    assert_eq!(a.tab_index(), 0);
    assert!(a.help_text().starts_with(" ↑↓选择 Enter启动/停止"));
    a.tunnel_page_mode = TunnelPageMode::OfficialForm;
    assert_eq!(a.help_text(), " ↑↓切字段 输入内容 Backspace删除 Tab/空格切换 Enter提交 Esc返回");
    a.official_tunnel_mode = OfficialTunnelMode::Edit { tunnel_id: 1 };
    assert_eq!(a.help_text(), " ↑↓切字段 输入内容 Backspace删除 Tab/空格切换 Enter保存 Esc返回");
    a.tab = Tab::Logs;
    assert_eq!(a.tab_index(), 1);
    assert_eq!(a.help_text(), " ↑↓滚动 r刷新 q退出");
    a.tunnel_editor = Some(TunnelEditorMode::New);
    assert_eq!(a.help_text(), " 输入内容 Enter换行 Backspace删除 s保存 Esc取消");
}

#[test]
fn status_line_shows_quit_prompt() {
    let mut a = blank_app(vec![]);
    a.status_message = "就绪".to_string();
    assert_eq!(a.status_line(), " 就绪 ");
    a.show_confirm_quit = true;
    assert_eq!(a.status_line(), " 就绪  [y]确认退出 [其他键]取消");
}

#[test]
fn log_tones_and_prefixes() {
    assert_eq!(log_tone("[ERR] boom"), LogTone::Error);
    assert_eq!(log_tone("[W] slow"), LogTone::Warning);
    assert_eq!(log_tone("a warning"), LogTone::Warning);
    assert_eq!(log_tone("[I] [ChmlFrpLauncher] started"), LogTone::Launcher);
    assert_eq!(log_tone("plain"), LogTone::Plain);
    let l = LogMessage { tunnel_id: -3, message: "m".to_string(), timestamp: "2024/01/02 03:04:05".to_string() };
    let (stamp, tunnel) = log_prefixes(&l);
    assert_eq!(stamp, "[2024/01/02 03:04:05] ");
    assert_eq!(tunnel, "T-3 ");
}

fn with_logs(n: usize) -> App {
    let logs = (0..n)
        .map(|i| LogMessage { tunnel_id: 1, message: format!("{}", i), timestamp: String::new() })
        .collect();
    App::new(logs, false, AppSettings { auto_start_tunnels_enabled: false, auto_start_tunnel_ids: vec![] })
}

#[test]
fn log_scroll_follows_the_end_until_scrolled() {
    let mut a = with_logs(30);
    assert_eq!(a.log_title(), " 日志 (30) ");
    assert_eq!(a.log_view_scroll(12), 20);
    a.log_scroll = 5;
    assert_eq!(a.log_view_scroll(12), 5);
    a.log_scroll = 25;
    assert_eq!(a.log_view_scroll(12), 20);
    assert_eq!(a.log_view_scroll(1), 25);
    let short = with_logs(3);
    assert_eq!(short.log_view_scroll(12), 0);
}

#[test]
fn settings_lines_list_marked_tunnels() {
    let mut a = blank_app(vec![]);
    let lines = a.settings_lines();
    assert_eq!(lines.len(), 5);
    assert_eq!(lines[0], " [*] 系统服务 (开机自启/进程守护): 未安装  <依赖 deb 包安装>");
    assert_eq!(lines[1], " [ ] 软件打开/后台启动时自动连接标记的隧道: 已关闭");
    assert_eq!(lines[2], "");
    assert_eq!(lines[4], "   (暂无)");
    a.selected_setting = 1;
    a.is_systemd_installed = true;
    a.settings.auto_start_tunnels_enabled = true;
    a.settings.auto_start_tunnel_ids = vec![5, 9];
    a.tunnels = vec![account_tunnel(5, "web", "http", "a.example.com")];
    let lines = a.settings_lines();
    assert_eq!(lines.len(), 6);
    assert_eq!(lines[0], " [ ] 系统服务 (开机自启/进程守护): 已安装");
    assert_eq!(lines[1], " [*] 软件打开/后台启动时自动连接标记的隧道: 已开启  <按 Enter 切换>");
    assert_eq!(lines[4], "   - web (ID: 5)");
    assert_eq!(lines[5], "   - 未知隧道 (ID: 9)");
}
