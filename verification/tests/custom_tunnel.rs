use chmlfrp::custom_tunnel::{get_config_file_name, get_custom_tunnel_hash, parse_ini_summary, split_ini_config};

#[test]
fn split_ini_keeps_common_and_sections() {
    let content = "[common]\nserver_addr = test.example.com\nserver_port = 7000\n\n[tcp_demo]\ntype = tcp\nlocal_ip = 127.0.0.1\nlocal_port = 8080\nremote_port = 9000\n\n[http_demo]\ntype = http\nlocal_ip = 127.0.0.1\nlocal_port = 3000\ncustom_domains = demo.example.com\n";

    let tunnels = split_ini_config(content).unwrap();
    assert_eq!(tunnels.len(), 2);
    assert_eq!(tunnels[0].0, "tcp_demo");
    assert!(tunnels[0].1.contains("[common]"));
    assert!(tunnels[0].1.contains("[tcp_demo]"));
    assert_eq!(tunnels[1].0, "http_demo");
}

#[test]
fn parse_ini_summary_reads_primary_fields() {
    let content = "[common]\nserver_addr = frp.example.com\nserver_port = 7000\n\n[tcp_demo]\ntype = tcp\nlocal_ip = 127.0.0.1\nlocal_port = 8080\nremote_port = 9000\n";

    let (server_addr, server_port, tunnels, tunnel_type, custom_domains, subdomain, local_ip, local_port, remote_port) =
        parse_ini_summary(content).unwrap();

    assert_eq!(server_addr.as_deref(), Some("frp.example.com"));
    assert_eq!(server_port, Some(7000));
    assert_eq!(tunnels, vec!["tcp_demo"]);
    assert_eq!(tunnel_type.as_deref(), Some("tcp"));
    assert_eq!(custom_domains, None);
    assert_eq!(subdomain, None);
    assert_eq!(local_ip.as_deref(), Some("127.0.0.1"));
    assert_eq!(local_port, Some(8080));
    assert_eq!(remote_port, Some(9000));
}

#[test]
fn invalid_tunnel_name_is_rejected() {
    let content = "[common]\nserver_addr = frp.example.com\n\n[bad name]\ntype = tcp\n";
    let err = split_ini_config(content).unwrap_err();
    assert!(err.contains("隧道名称"));
}

#[test]
fn helpers_are_stable() {
    assert_eq!(get_config_file_name("demo"), "z_demo.ini");
    assert_eq!(get_custom_tunnel_hash("demo"), get_custom_tunnel_hash("demo"));
}
