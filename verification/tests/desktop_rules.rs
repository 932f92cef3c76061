use chmlfrp::desktop::{
    auto_start_key, check_local_port, enable_tls, find_background_video, get_auto_start_tunnels,
    get_tunnel_auto_start, import_background_plan, parse_ports, slide_file_name, tray_click_toggle,
    tray_menu_action, PortInfo, PortTool, TrayAction, WindowToggle,
};

#[test]
fn linux_netstat_lines() {
    let out = "tcp        0      0 0.0.0.0:22              0.0.0.0:*               LISTEN      812/sshd: /usr/sbin\ntcp6       0      0 :::8080                 :::*                    LISTEN      1234/java\nshort line\n";
    let ports = parse_ports(PortTool::LinuxNetstat, out, "");
    assert_eq!(ports.len(), 2);
    assert_eq!(ports[0].port, "22");
    assert_eq!(ports[0].pid, "812");
    assert_eq!(ports[0].process, "sshd:");
    assert_eq!(ports[1].port, "8080");
    assert_eq!(ports[1].pid, "1234");
    assert_eq!(ports[1].process, "java");
}

#[test]
fn linux_netstat_without_process() {
    let out = "tcp 0 0 127.0.0.1:631 0.0.0.0:* LISTEN -\n";
    let ports = parse_ports(PortTool::LinuxNetstat, out, "");
    assert_eq!(ports[0].port, "631");
    assert_eq!(ports[0].pid, "-");
    assert_eq!(ports[0].process, "");
}

#[test]
fn mac_lsof_skips_header() {
    let out = "COMMAND PID USER FD TYPE DEVICE SIZE/OFF NODE NAME\nrapportd 501 me 4u IPv4 0x1 0t0 TCP *:49152 (LISTEN)\n";
    let ports = parse_ports(PortTool::MacLsof, out, "");
    assert_eq!(ports.len(), 1);
    assert_eq!(ports[0].port, "49152");
    assert_eq!(ports[0].pid, "501");
    assert_eq!(ports[0].process, "rapportd");
}

#[test]
fn windows_netstat_names_processes() {
    let out = "  TCP    0.0.0.0:135            0.0.0.0:0              LISTENING       1044\r\n  TCP    [::]:445               [::]:0                 LISTENING       4\r\n";
    let tasks = "\"svchost.exe\",\"1044\",\"Services\",\"0\",\"10,000 K\"\r\n\"System\",\"4\",\"Services\",\"0\",\"144 K\"\r\n";
    let ports = parse_ports(PortTool::WindowsNetstat, out, tasks);
    assert_eq!(ports.len(), 2);
    assert_eq!(ports[0].port, "135");
    assert_eq!(ports[0].process, "svchost.exe");
    assert_eq!(ports[1].port, "445");
    assert_eq!(ports[1].pid, "4");
    assert_eq!(ports[1].process, "svchost.exe");
}

#[test]
fn port_check_answers() {
    let ports = vec![
        PortInfo { port: "22".to_string(), pid: "1".to_string(), process: "sshd".to_string() },
        PortInfo { port: "22".to_string(), pid: "2".to_string(), process: "other".to_string() },
    ];
    let r = check_local_port(ports.clone(), "22");
    assert!(r.occupied);
    assert_eq!(r.pid.as_deref(), Some("1"));
    assert_eq!(r.process.as_deref(), Some("sshd"));
    let r = check_local_port(ports, "80");
    assert!(!r.occupied);
    assert!(r.pid.is_none() && r.process.is_none());
}

#[test]
fn start_up_marks() {
    assert_eq!(auto_start_key("api", "12"), "api_12");
    let entries = vec![
        ("api_12".to_string(), Some(true)),
        ("custom_my_tunnel".to_string(), Some(true)),
        ("api_13".to_string(), Some(false)),
        ("broken".to_string(), Some(true)),
        ("api_14".to_string(), None),
    ];
    let marked = get_auto_start_tunnels(&entries);
    assert_eq!(
        marked,
        vec![
            ("api".to_string(), "12".to_string()),
            ("custom".to_string(), "my_tunnel".to_string()),
        ]
    );
    assert!(get_tunnel_auto_start(&entries, "api", "12"));
    assert!(!get_tunnel_auto_start(&entries, "api", "13"));
    assert!(!get_tunnel_auto_start(&entries, "api", "14"));
    assert!(!get_tunnel_auto_start(&entries, "api", "99"));
}

#[test]
fn slideshow_names() {
    assert_eq!(slide_file_name(0, Some("My Photo"), "png"), "000_My_Photo.png");
    assert_eq!(slide_file_name(12, None, "jpg"), "012_image.jpg");
    assert_eq!(slide_file_name(1234, Some("a-b_c"), "gif"), "1234_a-b_c.gif");
    let entries = vec![
        (true, Some("PNG".to_string()), Some("one".to_string())),
        (false, Some("png".to_string()), Some("dir".to_string())),
        (true, Some("txt".to_string()), Some("notes".to_string())),
        (true, None, Some("noext".to_string())),
        (true, Some("Jpeg".to_string()), Some("两".to_string())),
    ];
    let plan = import_background_plan(&entries);
    assert_eq!(plan, vec![(0, "000_one.png".to_string()), (4, "001__.jpeg".to_string())]);
}

#[test]
fn background_video_is_found() {
    let entries = vec![
        (true, Some("png".to_string())),
        (false, Some("mp4".to_string())),
        (true, Some("MOV".to_string())),
        (true, Some("webm".to_string())),
    ];
    assert_eq!(find_background_video(&entries), Some(2));
    assert_eq!(find_background_video(&entries[..2].to_vec()), None);
}

#[test]
fn tls_repair() {
    assert_eq!(
        enable_tls("[common]\ntls_enable = false\n").unwrap(),
        "[common]\ntls_enable = true\n"
    );
    assert_eq!(
        enable_tls("[common]\ntls_enable = true\n").unwrap_err(),
        "配置文件中未找到 tls_enable = false"
    );
}

#[test]
fn tray_reactions() {
    assert_eq!(tray_menu_action("show"), TrayAction::ShowWindow);
    assert_eq!(tray_menu_action("quit"), TrayAction::Quit);
    assert_eq!(tray_menu_action("other"), TrayAction::Nothing);
    assert_eq!(tray_click_toggle(Some(true)), WindowToggle::Hide);
    assert_eq!(tray_click_toggle(Some(false)), WindowToggle::Show);
    assert_eq!(tray_click_toggle(None), WindowToggle::ShowAndFocus);
}

#[test]
fn repaired_config_needs_no_second_repair() {
    let once = enable_tls("a\ntls_enable = false\ntls_enable = falsetls_enable = false\n").unwrap();
    assert_eq!(once, "a\ntls_enable = true\ntls_enable = truetls_enable = true\n");
    assert!(!once.contains("tls_enable = false"));
    assert_eq!(enable_tls(&once).unwrap_err(), "配置文件中未找到 tls_enable = false");
}
