use chmlfrp::custom_tunnel::{
    get_custom_tunnel_hash, name_allowed, parse_ini_config, prepare_custom_tunnels,
    refresh_custom_tunnel, remove_custom_tunnel, split_texts, updated_custom_tunnel,
    upsert_custom_tunnel, CustomTunnel,
};
use chmlfrp::ini::{summarize_ini, validate_tunnel_name};

const TWO_TUNNELS: &str = "[common]\nserver_addr = test.example.com\nserver_port = 7000\n\n[tcp_demo]\ntype = tcp\nlocal_ip = 127.0.0.1\nlocal_port = 8080\nremote_port = 9000\n\n[http_demo]\ntype = http\nlocal_ip = 127.0.0.1\nlocal_port = 3000\ncustom_domains = demo.example.com\n";

fn record(id: &str, created_at: &str) -> CustomTunnel {
    CustomTunnel {
        id: id.to_string(),
        name: id.to_string(),
        config_file: format!("z_{}.ini", id),
        server_addr: Some("old.example.com".to_string()),
        server_port: Some(7001),
        tunnels: vec![id.to_string()],
        tunnel_type: Some("udp".to_string()),
        custom_domains: None,
        subdomain: Some("sub".to_string()),
        local_ip: Some("10.0.0.1".to_string()),
        local_port: Some(53),
        remote_port: Some(5353),
        created_at: created_at.to_string(),
        hashed_id: None,
    }
}

#[test]
fn split_gives_each_tunnel_its_own_text() {
    let texts = split_texts(TWO_TUNNELS, true).unwrap();
    assert_eq!(texts.len(), 2);
    assert_eq!(
        texts[0].1,
        "[common]\nserver_addr = test.example.com\nserver_port = 7000\n\n[tcp_demo]\ntype = tcp\nlocal_ip = 127.0.0.1\nlocal_port = 8080\nremote_port = 9000"
    );
    assert_eq!(
        texts[1].1,
        "[common]\nserver_addr = test.example.com\nserver_port = 7000\n\n[http_demo]\ntype = http\nlocal_ip = 127.0.0.1\nlocal_port = 3000\ncustom_domains = demo.example.com"
    );
}

#[test]
fn split_without_common_part_keeps_block_alone() {
    let texts = split_texts("[a]\ntype = tcp\n", true).unwrap();
    assert_eq!(texts, vec![("a".to_string(), "[a]\ntype = tcp".to_string())]);
}

#[test]
fn unchecked_split_accepts_any_name() {
    let texts = split_texts("[bad name]\ntype = tcp\n", false).unwrap();
    assert_eq!(texts[0].0, "bad name");
    assert!(split_texts("[bad name]\ntype = tcp\n", true).is_err());
}

#[test]
fn prepare_builds_records_for_every_tunnel() {
    let prepared = prepare_custom_tunnels(TWO_TUNNELS, true).unwrap();
    assert_eq!(prepared.len(), 2);
    let (text, tcp) = &prepared[0];
    assert!(text.starts_with("[common]"));
    assert_eq!(tcp.id, "tcp_demo");
    assert_eq!(tcp.name, "tcp_demo");
    assert_eq!(tcp.config_file, "z_tcp_demo.ini");
    assert_eq!(tcp.server_addr.as_deref(), Some("test.example.com"));
    assert_eq!(tcp.server_port, Some(7000));
    assert_eq!(tcp.tunnels, vec!["tcp_demo".to_string()]);
    assert_eq!(tcp.tunnel_type.as_deref(), Some("tcp"));
    assert_eq!(tcp.local_port, Some(8080));
    assert_eq!(tcp.remote_port, Some(9000));
    assert_eq!(tcp.hashed_id, Some(get_custom_tunnel_hash("tcp_demo")));
    assert!(!tcp.created_at.is_empty());
    let http = &prepared[1].1;
    assert_eq!(http.custom_domains.as_deref(), Some("demo.example.com"));
    assert_eq!(http.remote_port, None);
}

#[test]
fn prepare_without_tunnels_is_refused() {
    let err = prepare_custom_tunnels("[common]\nserver_addr = a\n", true).unwrap_err();
    assert_eq!(err, "配置文件中未找到隧道名称");
}

#[test]
fn prepare_with_bad_name_is_refused() {
    let err = prepare_custom_tunnels("[bad name]\ntype = tcp\n", true).unwrap_err();
    assert_eq!(err, "配置文件中的隧道名称只能包含字母、数字、下划线和连字符");
    let err = prepare_custom_tunnels("[bad name]\ntype = tcp\n", false).unwrap_err();
    assert_eq!(err, "配置文件中的隧道名称只能包含字母、数字、下划线和连字符");
}

#[test]
fn desktop_names_may_use_unicode_letters() {
    assert!(name_allowed("隧道_1", false));
    assert!(!name_allowed("隧道_1", true));
    assert!(name_allowed("tcp-demo_1", true));
    assert!(name_allowed("tcp-demo_1", false));
    assert!(!name_allowed("a b", false));
    let prepared = prepare_custom_tunnels("[隧道]\ntype = tcp\n", false).unwrap();
    assert_eq!(prepared[0].1.id, "隧道");
}

#[test]
fn naming_rule_errors() {
    assert!(validate_tunnel_name("ok_name-1").is_ok());
    assert_eq!(
        validate_tunnel_name("").unwrap_err(),
        "配置文件中的隧道名称只能包含字母、数字、下划线和连字符"
    );
    assert!(parse_ini_config("[x y]\n").is_err());
    assert!(summarize_ini("[x y]\n", false).is_ok());
}

#[test]
fn refresh_takes_values_from_the_configuration() {
    let config = "[common]\nserver_addr = new.example.com\n\n[demo]\ntype = tcp\nremote_port = 6000\n";
    let t = refresh_custom_tunnel(record("demo", "t0"), Some(config), true);
    assert_eq!(t.server_addr.as_deref(), Some("new.example.com"));
    assert_eq!(t.server_port, Some(7001));
    assert_eq!(t.tunnels, vec!["demo".to_string()]);
    assert_eq!(t.tunnel_type.as_deref(), Some("tcp"));
    assert_eq!(t.subdomain.as_deref(), Some("sub"));
    assert_eq!(t.local_port, Some(53));
    assert_eq!(t.remote_port, Some(6000));
    assert_eq!(t.created_at, "t0");
    assert_eq!(t.hashed_id, Some(get_custom_tunnel_hash("demo")));
}

#[test]
fn refresh_without_readable_configuration_keeps_record() {
    let t = refresh_custom_tunnel(record("demo", "t0"), None, true);
    assert_eq!(t.server_addr.as_deref(), Some("old.example.com"));
    assert_eq!(t.tunnel_type.as_deref(), Some("udp"));
    assert_eq!(t.hashed_id, Some(get_custom_tunnel_hash("demo")));
    let t = refresh_custom_tunnel(record("demo", "t0"), Some("[bad name]\n"), true);
    assert_eq!(t.tunnels, vec!["demo".to_string()]);
}

#[test]
fn update_keeps_creation_time_of_listed_tunnel() {
    let existing = vec![record("other", "t1"), record("demo", "t2")];
    let t = updated_custom_tunnel("demo", "[demo]\ntype = udp\nlocal_port = 99\n", &existing, true).unwrap();
    assert_eq!(t.created_at, "t2");
    assert_eq!(t.local_port, Some(99));
    assert_eq!(t.config_file, "z_demo.ini");
    let fresh = updated_custom_tunnel("new", "[new]\n", &existing, true).unwrap();
    assert!(!fresh.created_at.is_empty());
    assert!(updated_custom_tunnel("bad id", "[x]\n", &existing, true).is_err());
    assert!(updated_custom_tunnel("bad id", "[x]\n", &existing, false).is_ok());
}

#[test]
fn saving_replaces_or_appends() {
    let mut list = vec![record("a", "1"), record("b", "2")];
    upsert_custom_tunnel(&mut list, record("b", "3"));
    assert_eq!(list.len(), 2);
    assert_eq!(list[1].created_at, "3");
    upsert_custom_tunnel(&mut list, record("c", "4"));
    assert_eq!(list.len(), 3);
    assert_eq!(list[2].id, "c");
}

#[test]
fn removing_drops_every_record_with_the_id() {
    let mut list = vec![record("a", "1"), record("b", "2"), record("a", "3"), record("c", "4")];
    remove_custom_tunnel(&mut list, "a");
    let ids: Vec<&str> = list.iter().map(|t| t.id.as_str()).collect();
    assert_eq!(ids, vec!["b", "c"]);
}

#[test]
fn hash_differs_between_ids() {
    assert_ne!(get_custom_tunnel_hash("demo"), get_custom_tunnel_hash("demo2"));
    assert!(get_custom_tunnel_hash("demo") >= 0 || get_custom_tunnel_hash("demo") == i32::MIN);
}
