//! The frpc INI configuration written for an API tunnel.

use vstd::prelude::*;
use crate::models::TunnelConfig;
use crate::numbers::{decimal, u64_decimal};
use crate::text::{chars_of, push_str, string_from};

verus! {

broadcast use vstd::string::group_string_axioms;

/// `true` or `false`, as `Display for bool` writes it.
pub open spec fn bool_text(b: bool) -> Seq<char> {
    if b {
        "true"@
    } else {
        "false"@
    }
}

/// Whether the tunnel type is `tcp` or `udp`.
pub open spec fn is_port_type(t: Seq<char>) -> bool {
    t == "tcp"@ || t == "udp"@
}

/// Whether the tunnel type is `http` or `https`.
pub open spec fn is_domain_type(t: Seq<char>) -> bool {
    t == "http"@ || t == "https"@
}

/// The `[common]` section and the start of the tunnel section, up to and
/// including `local_port`.
pub open spec fn config_head(c: TunnelConfig) -> Seq<char> {
    "[common]\n"@
        + "server_addr = "@ + c.server_addr@ + "\n"@
        + "server_port = "@ + decimal(c.server_port as nat) + "\n"@
        + match c.http_proxy {
            Some(p) => "http_proxy = "@ + p@ + "\n"@,
            None => Seq::empty(),
        }
        + "log_level = "@ + c.log_level@ + "\n"@
        + "tls_enable = "@ + bool_text(c.force_tls) + "\n"@
        + "tcp_mux = true\n"@
        + "pool_count = 5\n"@
        + (if c.kcp_optimization && is_port_type(c.tunnel_type@) {
            "protocol = kcp\n"@
        } else {
            Seq::empty()
        })
        + "user = "@ + c.user_token@ + "\n"@
        + "token = "@ + c.node_token@ + "\n"@
        + "\n"@
        + "["@ + c.tunnel_name@ + "]\n"@
        + "type = "@ + c.tunnel_type@ + "\n"@
        + "local_ip = "@ + c.local_ip@ + "\n"@
        + "local_port = "@ + decimal(c.local_port as nat) + "\n"@
}

/// The configuration text for a tunnel, or the reason none can be written:
/// TCP/UDP needs a remote port, HTTP/HTTPS needs custom domains, and other
/// types are not supported.
pub open spec fn frpc_config(c: TunnelConfig) -> Result<Seq<char>, Seq<char>> {
    if is_port_type(c.tunnel_type@) {
        match c.remote_port {
            Some(p) => Ok(config_head(c) + "remote_port = "@ + decimal(p as nat) + "\n"@),
            None => Err("TCP/UDP 隧道缺少 remote_port 参数"@),
        }
    } else if is_domain_type(c.tunnel_type@) {
        match c.custom_domains {
            Some(d) => Ok(config_head(c) + "custom_domains = "@ + d@ + "\n"@),
            None => Err("HTTP/HTTPS 隧道缺少 custom_domains 参数"@),
        }
    } else {
        Err("不支持的隧道类型: "@ + c.tunnel_type@)
    }
}

fn str_eq(a: &str, b: &str) -> (r: bool)
    ensures
        r == (a@ == b@),
{
    crate::text::chars_eq(&chars_of(a), &chars_of(b))
}

/// Writes `key`, `value` and a newline.
fn push_entry(buf: &mut Vec<char>, key: &str, value: &str)
    ensures
        final(buf)@ == old(buf)@ + key@ + value@ + "\n"@,
{
    push_str(buf, key);
    push_str(buf, value);
    push_str(buf, "\n");
}

/// Writes `key`, a number in decimal and a newline.
fn push_number(buf: &mut Vec<char>, key: &str, value: u16)
    ensures
        final(buf)@ == old(buf)@ + key@ + decimal(value as nat) + "\n"@,
{
    push_str(buf, key);
    let mut d = u64_decimal(value as u64);
    buf.append(&mut d);
    push_str(buf, "\n");
}

/// Generates the frpc INI configuration of a tunnel.
pub fn generate_frpc_config(config: &TunnelConfig) -> (r: Result<String, String>)
    ensures
        r matches Ok(s) ==> frpc_config(*config) == Ok::<Seq<char>, Seq<char>>(s@),
        r matches Err(e) ==> frpc_config(*config) == Err::<Seq<char>, Seq<char>>(e@),
{
    let c = config;
    let mut content: Vec<char> = Vec::new();
    push_str(&mut content, "[common]\n");
    push_entry(&mut content, "server_addr = ", c.server_addr.as_str());
    push_number(&mut content, "server_port = ", c.server_port);
    let ghost before_proxy = content@;
    match &c.http_proxy {
        Some(p) => push_entry(&mut content, "http_proxy = ", p.as_str()),
        None => {},
    }
    push_entry(&mut content, "log_level = ", c.log_level.as_str());
    push_entry(&mut content, "tls_enable = ", if c.force_tls { "true" } else { "false" });
    push_str(&mut content, "tcp_mux = true\n");
    push_str(&mut content, "pool_count = 5\n");
    let port_type = str_eq(c.tunnel_type.as_str(), "tcp") || str_eq(c.tunnel_type.as_str(), "udp");
    let domain_type = str_eq(c.tunnel_type.as_str(), "http") || str_eq(
        c.tunnel_type.as_str(),
        "https",
    );
    if c.kcp_optimization && port_type {
        push_str(&mut content, "protocol = kcp\n");
    }
    push_entry(&mut content, "user = ", c.user_token.as_str());
    push_entry(&mut content, "token = ", c.node_token.as_str());
    push_str(&mut content, "\n");
    push_str(&mut content, "[");
    push_str(&mut content, c.tunnel_name.as_str());
    push_str(&mut content, "]\n");
    push_entry(&mut content, "type = ", c.tunnel_type.as_str());
    push_entry(&mut content, "local_ip = ", c.local_ip.as_str());
    push_number(&mut content, "local_port = ", c.local_port);
    assert(content@ =~= config_head(*c));
    if port_type {
        match c.remote_port {
            Some(p) => {
                push_number(&mut content, "remote_port = ", p);
                Ok(string_from(&content))
            },
            None => Err("TCP/UDP 隧道缺少 remote_port 参数".to_owned()),
        }
    } else if domain_type {
        match &c.custom_domains {
            Some(d) => {
                push_entry(&mut content, "custom_domains = ", d.as_str());
                Ok(string_from(&content))
            },
            None => Err("HTTP/HTTPS 隧道缺少 custom_domains 参数".to_owned()),
        }
    } else {
        let mut msg = chars_of("不支持的隧道类型: ");
        push_str(&mut msg, c.tunnel_type.as_str());
        Err(string_from(&msg))
    }
}

} // verus!
