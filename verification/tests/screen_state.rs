use chmlfrp::app::{
    created_local_message, created_outcome, daemon_start_candidates, updated_outcome, default_custom_tunnel_template,
    generate_systemd_service, labelled_message, started_message, tunnel_form, App, AppSettings,
    TunnelListItem,
};
use chmlfrp::custom_tunnel::{get_custom_tunnel_hash, CustomTunnel};
use chmlfrp::keys::{Key, KeyAction};
use chmlfrp::models::{LogMessage, Node, NodeInfo, StoredUser, Tunnel};
use chmlfrp::tui::{LoginState, OfficialTunnelMode, OfficialTunnelProtocol, Screen, Tab, TunnelEditorMode, TunnelPageMode};

fn settings() -> AppSettings {
    AppSettings { auto_start_tunnels_enabled: true, auto_start_tunnel_ids: vec![] }
}

fn app() -> App {
    App::new(vec![], false, settings())
}

fn api_tunnel(id: i32, name: &str, ty: &str, dorp: &str) -> Tunnel {
    Tunnel {
        id,
        name: name.to_string(),
        localip: "127.0.0.1".to_string(),
        tunnel_type: ty.to_string(),
        nport: 8080,
        dorp: dorp.to_string(),
        node: "node-a".to_string(),
        ap: String::new(),
        uptime: None,
        client_version: None,
        cur_conns: None,
        nodestate: "online".to_string(),
        ip: "1.2.3.4".to_string(),
        node_ip: "5.6.7.8".to_string(),
        node_ipv6: None,
        server_port: 7000,
        node_token: "nodetok".to_string(),
    }
}

fn local_tunnel(id: &str) -> CustomTunnel {
    CustomTunnel {
        id: id.to_string(),
        name: id.to_string(),
        config_file: format!("z_{}.ini", id),
        server_addr: Some("srv.example.com".to_string()),
        server_port: Some(7000),
        tunnels: vec![id.to_string()],
        tunnel_type: Some("tcp".to_string()),
        custom_domains: None,
        subdomain: None,
        local_ip: None,
        local_port: Some(22),
        remote_port: Some(2222),
        created_at: "t".to_string(),
        hashed_id: None,
    }
}

fn node(name: &str) -> Node {
    Node {
        id: 1,
        name: name.to_string(),
        area: String::new(),
        nodegroup: String::new(),
        china: String::new(),
        web: String::new(),
        udp: String::new(),
        fangyu: String::new(),
        notes: String::new(),
    }
}

fn node_info(rport: &str) -> NodeInfo {
    NodeInfo {
        id: 1,
        name: "node-a".to_string(),
        area: String::new(),
        nodegroup: String::new(),
        china: String::new(),
        web: String::new(),
        udp: String::new(),
        fangyu: String::new(),
        notes: String::new(),
        ip: "5.6.7.8".to_string(),
        port: 7000,
        admin_port: None,
        rport: rport.to_string(),
        state: "online".to_string(),
        nodetoken: "t".to_string(),
        real_ip: None,
        ipv6: None,
        version: None,
    }
}

fn listed_app() -> App {
    let mut a = app();
    a.screen = Screen::Main;
    a.tunnels = vec![api_tunnel(5, "web", "http", "a.example.com"), api_tunnel(6, "ssh", "tcp", "20022")];
    a.custom_tunnels = vec![local_tunnel("mine")];
    a.rebuild_tunnel_items();
    a
}

#[test]
fn start_up_state() {
    let a = app();
    assert_eq!(a.screen, Screen::Login);
    assert_eq!(a.tab, Tab::Tunnels);
    assert_eq!(a.official_tunnel_form.local_ip, "127.0.0.1");
    assert!(a.is_in_tunnel_list_mode());
    assert!(!a.is_editing_tunnel());
}

#[test]
fn rebuild_lists_account_then_local_tunnels() {
    let mut a = listed_app();
    assert_eq!(a.tunnel_items.len(), 3);
    assert_eq!(a.tunnel_items[0].name(), "web");
    assert_eq!(a.tunnel_items[2].name(), "mine");
    assert_eq!(a.tunnel_items[2].id(), get_custom_tunnel_hash("mine"));
    a.selected_tunnel = 7;
    a.rebuild_tunnel_items();
    assert_eq!(a.selected_tunnel, 2);
    a.tunnels.clear();
    a.custom_tunnels.clear();
    a.rebuild_tunnel_items();
    assert_eq!(a.selected_tunnel, 0);
}

#[test]
fn selection_moves_within_the_list() {
    let mut a = listed_app();
    a.move_tunnel_selection_up();
    assert_eq!(a.selected_tunnel, 0);
    a.move_tunnel_selection_down();
    a.move_tunnel_selection_down();
    a.move_tunnel_selection_down();
    assert_eq!(a.selected_tunnel, 2);
    assert_eq!(a.selected_tunnel_id(), Some(get_custom_tunnel_hash("mine")));
}

#[test]
fn urls_for_rows() {
    let mut a = listed_app();
    assert_eq!(a.open_selected_tunnel_url().as_deref(), Some("http://a.example.com"));
    assert_eq!(a.status_message, "在浏览器中打开: http://a.example.com");
    a.selected_tunnel = 1;
    assert_eq!(a.open_selected_tunnel_url().as_deref(), Some("http://5.6.7.8:20022"));
    a.selected_tunnel = 2;
    assert_eq!(a.open_selected_tunnel_url().as_deref(), Some("http://srv.example.com:2222"));
    let mut web = local_tunnel("site");
    web.tunnel_type = Some("https".to_string());
    web.custom_domains = Some(" a.example.com , b.example.com".to_string());
    a.custom_tunnels = vec![web];
    a.rebuild_tunnel_items();
    assert_eq!(a.open_selected_tunnel_url().as_deref(), Some("https://a.example.com"));
    let mut bare = local_tunnel("bare");
    bare.remote_port = None;
    a.custom_tunnels = vec![bare];
    a.rebuild_tunnel_items();
    assert_eq!(a.open_selected_tunnel_url(), None);
    assert_eq!(a.status_message, "该本地隧道没有可打开的远程地址");
}

#[test]
fn form_typing_follows_the_selected_field() {
    let mut a = app();
    a.append_official_form_char('x');
    assert_eq!(a.official_tunnel_form.tunnel_name, "x");
    a.official_tunnel_form.selected_field = 2;
    a.append_official_form_char('a');
    a.append_official_form_char('8');
    assert_eq!(a.official_tunnel_form.local_port, "8");
    a.backspace_official_form();
    assert_eq!(a.official_tunnel_form.local_port, "");
    a.official_tunnel_form.selected_field = 3;
    a.append_official_form_char('9');
    assert_eq!(a.official_tunnel_form.remote_port, "9");
    a.official_tunnel_form.protocol = OfficialTunnelProtocol::Http;
    a.append_official_form_char('d');
    assert_eq!(a.official_tunnel_form.domain, "d");
    for _ in 0..10 {
        a.move_official_form_field_down();
    }
    assert_eq!(a.official_tunnel_form.selected_field, 6);
}

#[test]
fn protocol_toggle_suggests_remote_port() {
    let mut a = app();
    a.apply_official_node_info(node_info("10000-20000, 30000"));
    assert_eq!(a.official_tunnel_form.remote_port, "10000");
    a.official_tunnel_form.selected_field = 4;
    a.toggle_current_official_form_field();
    assert_eq!(a.official_tunnel_form.protocol, OfficialTunnelProtocol::Udp);
    a.toggle_current_official_form_field();
    assert_eq!(a.official_tunnel_form.protocol, OfficialTunnelProtocol::Http);
    assert_eq!(a.official_tunnel_form.remote_port, "");
    a.toggle_current_official_form_field();
    a.toggle_current_official_form_field();
    assert_eq!(a.official_tunnel_form.protocol, OfficialTunnelProtocol::Tcp);
    assert_eq!(a.official_tunnel_form.remote_port, "10000");
    a.official_tunnel_form.selected_field = 5;
    a.toggle_current_official_form_field();
    assert!(a.official_tunnel_form.encryption);
}

#[test]
fn submission_is_checked() {
    let mut a = app();
    assert!(a.prepare_official_submission().is_none());
    assert_eq!(a.status_message, "请选择节点");
    a.official_nodes = vec![node("node-a")];
    assert!(a.prepare_official_submission().is_none());
    assert_eq!(a.status_message, "请输入隧道名称");
    a.official_tunnel_form.tunnel_name = "  demo ".to_string();
    a.official_tunnel_form.local_port = "0".to_string();
    assert!(a.prepare_official_submission().is_none());
    assert_eq!(a.status_message, "请输入有效的本地端口");
    a.official_tunnel_form.local_port = "8080".to_string();
    a.official_tunnel_form.remote_port = "25000".to_string();
    a.official_node_info = Some(node_info("10000-20000"));
    assert!(a.prepare_official_submission().is_none());
    assert_eq!(a.status_message, "远程端口必须在节点允许范围内: 10000-20000");
    a.official_tunnel_form.remote_port = "15000".to_string();
    let req = a.prepare_official_submission().unwrap();
    assert_eq!(req.tunnelname, "demo");
    assert_eq!(req.node, "node-a");
    assert_eq!(req.porttype, "TCP");
    assert_eq!(req.localport, 8080);
    assert_eq!(req.remoteport, Some(15000));
    assert_eq!(req.banddomain, None);
    assert_eq!(req.tunnel_id, None);
    a.official_submission_started(&req);
    assert_eq!(a.status_message, "正在创建官方隧道 demo...");
    assert!(a.prepare_official_submission().is_none());
    a.official_submission_failed(&req, "boom");
    assert_eq!(a.status_message, "创建官方隧道失败: boom");
    assert!(!a.is_submitting_official_tunnel);
}

#[test]
fn http_submission_needs_domain() {
    let mut a = app();
    a.official_nodes = vec![node("node-a")];
    a.official_tunnel_form.tunnel_name = "w".to_string();
    a.official_tunnel_form.local_port = "80".to_string();
    a.official_tunnel_form.protocol = OfficialTunnelProtocol::Https;
    a.official_tunnel_mode = OfficialTunnelMode::Edit { tunnel_id: 9 };
    assert!(a.prepare_official_submission().is_none());
    assert_eq!(a.status_message, "请输入域名");
    a.official_tunnel_form.domain = "w.example.com".to_string();
    let req = a.prepare_official_submission().unwrap();
    assert_eq!(req.banddomain.as_deref(), Some("w.example.com"));
    assert_eq!(req.porttype, "HTTPS");
    assert_eq!(req.tunnel_id, Some(9));
}

#[test]
fn editing_an_account_tunnel() {
    let mut a = listed_app();
    let t = api_tunnel(6, "ssh", "tcp", "20022");
    assert!(!a.edit_nodes_loaded(&t, Ok(vec![node("other")])));
    assert_eq!(a.status_message, "当前节点 node-a 不在可选节点列表中，无法编辑");
    assert!(a.edit_nodes_loaded(&t, Ok(vec![node("other"), node("node-a")])));
    assert_eq!(a.selected_official_node, 1);
    assert_eq!(a.official_tunnel_mode, OfficialTunnelMode::Edit { tunnel_id: 6 });
    a.edit_node_info_loaded(&t, Ok(node_info("1-65535")));
    assert_eq!(a.tunnel_page_mode, TunnelPageMode::OfficialForm);
    assert_eq!(a.official_tunnel_form.remote_port, "20022");
    assert_eq!(a.official_tunnel_form.local_port, "8080");
    assert_eq!(a.status_message, "正在编辑官方隧道 ssh");
    let f = tunnel_form(&api_tunnel(1, "w", "HTTP", "d.example.com"));
    assert_eq!(f.protocol, OfficialTunnelProtocol::Http);
    assert_eq!(f.remote_port, "d.example.com");
}

#[test]
fn official_flow_messages() {
    let mut a = app();
    a.begin_official_tunnel_creation();
    assert_eq!(a.status_message, "正在加载节点列表...");
    a.official_nodes_loaded(Ok(vec![]));
    assert_eq!(a.status_message, "暂无可用节点");
    a.official_nodes_loaded(Ok(vec![node("n1")]));
    assert_eq!(a.tunnel_page_mode, TunnelPageMode::OfficialNodeSelect);
    a.official_node_info_loaded("n1", Ok(node_info("7000")));
    assert_eq!(a.status_message, "正在为节点 n1 创建官方隧道");
    a.return_official_form_to_node_select();
    assert!(a.official_node_info.is_none());
    a.cancel_official_node_select();
    assert_eq!(a.status_message, "已取消创建官方隧道");
    assert!(a.official_nodes.is_empty());
    a.official_nodes_loaded(Err("down".to_string()));
    assert_eq!(a.status_message, "获取节点列表失败: down");
}

#[test]
fn start_and_stop_decisions() {
    let mut a = listed_app();
    a.selected_tunnel = 1;
    assert!(a.start_selected_tunnel(false).is_none());
    assert_eq!(a.status_message, "frpc 未下载，请按 d 下载");
    let item = a.start_selected_tunnel(true).unwrap();
    assert!(matches!(item, TunnelListItem::Api(ref t) if t.id == 6));
    assert!(a.stop_selected_tunnel().is_none());
    assert_eq!(a.status_message, "隧道未在运行");
    a.tunnel_started(6, started_message(false, false, "ssh", 42));
    assert_eq!(a.status_message, "隧道 ssh 已启动 (PID: 42)");
    assert!(a.start_selected_tunnel(true).is_none());
    assert_eq!(a.status_message, "隧道已在运行中");
    let (id, name) = a.stop_selected_tunnel().unwrap();
    a.tunnel_stopped(id, &name, "frpc 已停止");
    assert_eq!(a.status_message, "ssh: frpc 已停止");
    assert!(!a.is_running(6));
}

#[test]
fn api_tunnel_settings() {
    let mut a = app();
    a.stored_user = Some(StoredUser {
        username: "u".to_string(),
        usergroup: "g".to_string(),
        userimg: None,
        usertoken: Some("utok".to_string()),
        access_token: None,
        refresh_token: None,
        access_token_expires_at: None,
        token_type: None,
        tunnel_count: None,
        tunnel: None,
    });
    let c = a.api_tunnel_config(&api_tunnel(6, "ssh", "tcp", "20022"));
    assert_eq!(c.user_token, "utok");
    assert_eq!(c.remote_port, Some(20022));
    assert_eq!(c.custom_domains, None);
    assert_eq!(c.local_port, 8080);
    assert_eq!(c.log_level, "info");
    assert!(c.force_tls);
    let c = a.api_tunnel_config(&api_tunnel(5, "web", "http", "a.example.com"));
    assert_eq!(c.remote_port, None);
    assert_eq!(c.custom_domains.as_deref(), Some("a.example.com"));
    let mut big = api_tunnel(7, "big", "tcp", "x");
    big.nport = 70000;
    assert_eq!(app().api_tunnel_config(&big).local_port, 70000u32 as u16);
    assert_eq!(app().api_tunnel_config(&big).user_token, "");
}

#[test]
fn marked_tunnels_start_at_launch() {
    let mut a = listed_app();
    let marked = vec![6, get_custom_tunnel_hash("mine"), 5];
    let picked = a.auto_start_candidates(true, true, &marked, &vec![5], false);
    let names: Vec<&str> = picked.iter().map(|i| i.name()).collect();
    assert_eq!(names, vec!["mine"]);
    let picked = a.auto_start_candidates(true, true, &marked, &vec![5], true);
    assert_eq!(picked.len(), 2);
    assert!(a.auto_start_candidates(true, false, &marked, &vec![], true).is_empty());
    assert_eq!(a.status_message, "frpc 未下载，无法自动启动隧道");
    assert!(a.auto_start_candidates(false, true, &marked, &vec![], true).is_empty());
    let t = vec![api_tunnel(1, "a", "tcp", "1"), api_tunnel(2, "b", "tcp", "2")];
    let d = daemon_start_candidates(&t, &vec![1], &vec![1, 2]);
    assert_eq!(d.len(), 1);
    assert_eq!(d[0].id, 2);
}

#[test]
fn logs_keep_the_newest_lines() {
    let mut a = app();
    for i in 0..5003 {
        a.push_log(LogMessage { tunnel_id: i, message: String::new(), timestamp: String::new() });
    }
    assert_eq!(a.logs.len(), 5000);
    assert_eq!(a.logs[0].tunnel_id, 3);
    assert_eq!(a.logs[4999].tunnel_id, 5002);
}

#[test]
fn refresh_outcomes() {
    let mut a = listed_app();
    assert!(a.account_tunnels_loaded(Some(Err("Token无效".to_string()))));
    assert!(a.stored_user.is_none());
    assert!(a.tunnels.is_empty());
    a.finish_refresh(vec![1]);
    assert_eq!(a.status_message, "登录已过期，请按 L 重新登录");
    a.status_message = String::new();
    assert!(!a.account_tunnels_loaded(Some(Ok(vec![api_tunnel(1, "x", "tcp", "1")]))));
    a.finish_refresh(vec![]);
    assert_eq!(a.status_message, "已加载 1 个官方隧道，1 个本地隧道");
    a.local_tunnels_loaded(Err("e".to_string()));
    assert_eq!(a.status_message, "加载本地隧道失败: e");
    a.finish_refresh(vec![]);
    assert_eq!(a.status_message, "加载本地隧道失败: e");
}

#[test]
fn editor_saves_and_deletions() {
    let mut a = listed_app();
    a.start_new_tunnel_editor();
    assert_eq!(a.tunnel_editor_content, default_custom_tunnel_template());
    a.append_tunnel_editor_char('x');
    a.append_tunnel_editor_newline();
    a.backspace_tunnel_editor();
    a.editor_indent();
    assert!(a.tunnel_editor_content.ends_with("x    "));
    a.local_tunnels_saved(
        Ok(vec![local_tunnel("one"), local_tunnel("two")]),
        Some("two".to_string()),
        created_local_message(2),
    );
    assert!(a.tunnel_editor.is_none());
    assert_eq!(a.selected_tunnel, 3);
    assert_eq!(a.status_message, "已创建 2 个本地隧道");
    a.local_tunnel_deleted(Ok(vec![local_tunnel("one")]), "two");
    assert_eq!(a.status_message, "已删除本地隧道 two");
    assert_eq!(a.selected_tunnel, 2);
    a.selected_tunnel = 0;
    assert!(a.request_delete_selected_tunnel().is_none());
    assert_eq!(a.tunnel_page_mode, TunnelPageMode::ApiDeleteConfirm);
    assert_eq!(a.status_message, "确认删除官方隧道 web 吗？");
    a.cancel_api_delete_confirm();
    assert_eq!(a.status_message, "已取消删除官方隧道 web");
    a.selected_tunnel = 2;
    assert_eq!(a.request_delete_selected_tunnel().unwrap().id, "one");
    assert!(a.confirm_api_delete().is_none());
    assert_eq!(a.status_message, "没有可删除的官方隧道");
}

#[test]
fn keys_decide_actions() {
    let mut a = listed_app();
    assert_eq!(a.key_action(Key::Char('q'), false), KeyAction::Quit);
    a.running_tunnels = vec![6];
    assert_eq!(a.key_action(Key::Char('q'), false), KeyAction::AskQuitConfirmation);
    a.ask_quit_confirmation();
    assert_eq!(a.key_action(Key::Char('Y'), false), KeyAction::Quit);
    assert_eq!(a.key_action(Key::Enter, false), KeyAction::DismissQuitPrompt);
    a.dismiss_quit_prompt();
    a.selected_tunnel = 1;
    assert_eq!(a.key_action(Key::Enter, false), KeyAction::StopSelected);
    a.selected_tunnel = 0;
    assert_eq!(a.key_action(Key::Enter, false), KeyAction::StartSelected);
    assert_eq!(a.key_action(Key::Char('c'), true), KeyAction::Quit);
    assert_eq!(a.key_action(Key::Char('k'), false), KeyAction::MoveUp);
    assert_eq!(a.key_action(Key::Char('2'), false), KeyAction::SelectTab(Tab::Logs));
    a.tab = Tab::Logs;
    assert_eq!(a.key_action(Key::Char('c'), false), KeyAction::Nothing);
    assert_eq!(a.key_action(Key::Char('o'), false), KeyAction::Nothing);
    a.move_down();
    a.move_down();
    a.move_up();
    assert_eq!(a.log_scroll, 1);
    a.tab = Tab::Settings;
    assert_eq!(a.key_action(Key::Enter, false), KeyAction::ShowServiceHelp);
    a.tunnel_editor = Some(chmlfrp::tui::TunnelEditorMode::New);
    assert_eq!(a.key_action(Key::Char('s'), false), KeyAction::SaveEditor);
    assert_eq!(a.key_action(Key::Char('z'), false), KeyAction::EditorChar('z'));
    a.screen = Screen::Login;
    assert_eq!(a.key_action(Key::Enter, false), KeyAction::StartDeviceLogin);
    a.login_state = LoginState::WaitingForAuth;
    assert_eq!(a.key_action(Key::Char('c'), false), KeyAction::CopyUserCode);
    assert_eq!(a.key_action(Key::Enter, false), KeyAction::Nothing);
}

#[test]
fn start_up_marks_toggle() {
    let mut a = listed_app();
    a.selected_tunnel = 1;
    a.toggle_tunnel_auto_start();
    assert_eq!(a.settings.auto_start_tunnel_ids, vec![6]);
    assert_eq!(a.status_message, "隧道 ssh (ID: 6) 已设为自动启动");
    a.toggle_tunnel_auto_start();
    assert!(a.settings.auto_start_tunnel_ids.is_empty());
    assert_eq!(a.status_message, "已取消隧道 ssh (ID: 6) 的自启标记");
    a.toggle_auto_start_setting();
    assert!(!a.settings.auto_start_tunnels_enabled);
    assert_eq!(a.status_message, "已关闭软件启动时自动开启隧道");
}

#[test]
fn sign_in_and_out() {
    let mut a = app();
    a.device_login_started();
    assert_eq!(a.login_state, LoginState::WaitingForAuth);
    let open = a.device_authorization_received(Err("x".to_string()));
    assert!(open.is_none());
    assert_eq!(a.login_error, "申请设备授权失败: x");
    a.login_finished(Err("no".to_string()));
    assert_eq!(a.login_state, LoginState::Error);
    a.needs_refresh = false;
    a.login_finished(Ok(StoredUser {
        username: "u".to_string(),
        usergroup: "g".to_string(),
        userimg: None,
        usertoken: None,
        access_token: None,
        refresh_token: None,
        access_token_expires_at: None,
        token_type: None,
        tunnel_count: None,
        tunnel: None,
    }));
    assert_eq!(a.screen, Screen::Main);
    assert!(a.take_refresh_request());
    assert!(a.take_auto_start_request());
    assert!(!a.take_refresh_request());
    a.logout();
    assert_eq!(a.screen, Screen::Login);
    assert_eq!(a.status_message, "已注销");
}

#[test]
fn messages_and_service_unit() {
    assert_eq!(labelled_message("下载失败", "x"), "下载失败: x");
    assert_eq!(started_message(true, true, "a", 7), "自动启动本地隧道 a (PID: 7)");
    let unit = generate_systemd_service("alice", "/usr/bin/chmlfrp-tui");
    assert!(unit.contains("User=alice\nExecStart=/usr/bin/chmlfrp-tui --daemon\n"));
    assert!(unit.starts_with("[Unit]\nDescription=ChmlFrp Launcher TUI Daemon\n"));
    let mut a = app();
    a.download_started();
    a.download_finished(Ok("/tmp/frpc".to_string()));
    assert_eq!(a.status_message, "frpc 下载完成: /tmp/frpc");
    assert!(!a.is_downloading);
}

#[test]
fn editor_save_outcomes() {
    let (sel, status) = created_outcome(&vec![local_tunnel("a"), local_tunnel("b")]);
    assert_eq!(sel, Some("a".to_string()));
    assert_eq!(status, "已创建 2 个本地隧道");
    let (sel, status) = created_outcome(&vec![]);
    assert_eq!(sel, None);
    assert_eq!(status, "已创建 0 个本地隧道");
    let mut t = local_tunnel("c");
    t.name = "名字".to_string();
    let (sel, status) = updated_outcome(&t);
    assert_eq!(sel, Some("c".to_string()));
    assert_eq!(status, "已更新本地隧道 名字");
}

#[test]
fn editing_a_local_tunnel_opens_its_config() {
    let mut a = listed_app();
    a.local_config_loaded(&local_tunnel("mine"), Err("没有文件".to_string()));
    assert!(a.tunnel_editor.is_none());
    assert_eq!(a.status_message, "读取配置失败: 没有文件");
    a.local_config_loaded(&local_tunnel("mine"), Ok("[mine]\ntype = tcp".to_string()));
    assert!(matches!(&a.tunnel_editor, Some(TunnelEditorMode::Edit { tunnel_id }) if tunnel_id == "mine"));
    assert_eq!(a.tunnel_editor_content, "[mine]\ntype = tcp");
    assert_eq!(a.status_message, "正在编辑本地隧道 mine");
    a.tunnel_editor_save_failed("坏配置");
    assert!(a.tunnel_editor.is_some());
    assert_eq!(a.status_message, "保存失败: 坏配置");
}

#[test]
fn marking_a_row_twice_restores_the_marks() {
    let mut a = listed_app();
    a.settings.auto_start_tunnel_ids = vec![9, 5, 9];
    a.selected_tunnel = 1;
    a.toggle_tunnel_auto_start();
    assert_eq!(a.settings.auto_start_tunnel_ids, vec![9, 5, 9, 6]);
    a.toggle_tunnel_auto_start();
    assert_eq!(a.settings.auto_start_tunnel_ids, vec![9, 5, 9]);
    a.selected_tunnel = 0;
    a.toggle_tunnel_auto_start();
    assert_eq!(a.settings.auto_start_tunnel_ids, vec![9, 9]);
}

#[test]
fn many_log_lines_keep_the_last_five_thousand() {
    let mut a = app();
    for i in 0..5003 {
        a.push_log(LogMessage { tunnel_id: 1, message: format!("{}", i), timestamp: String::new() });
    }
    assert_eq!(a.logs.len(), 5000);
    assert_eq!(a.logs[0].message, "3");
    assert_eq!(a.logs[4999].message, "5002");
}
