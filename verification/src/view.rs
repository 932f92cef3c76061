//! The text of the tunnel page: the cells of each row of the tunnel list,
//! the rows of the node list, the official-tunnel form and the delete
//! confirmation. Colours, widths and layout are the renderer's.

use vstd::prelude::*;
use crate::app::{is_web_type, item_id, item_name, web_type, App, TunnelListItem};
use crate::custom_tunnel::CustomTunnel;
use crate::models::{Node, Tunnel};
use crate::tui::{is_http_protocol, protocol_label, OfficialTunnelForm, OfficialTunnelMode, TunnelEditorMode};
use crate::numbers::{decimal, i64_decimal, int_decimal, u64_decimal};
use crate::persistence::contains_id;
use crate::text::{chars_of, push_str, string_from};

verus! {

broadcast use vstd::string::group_string_axioms;

/// The cells of one row of the tunnel list.
#[derive(Debug, Clone)]
pub struct TunnelRow {
    pub source: String,
    pub id: String,
    pub name: String,
    pub tunnel_type: String,
    pub node_or_server: String,
    pub local_addr: String,
    pub remote_addr: String,
    pub running: bool,
}

/// The text of an optional value, `-` when absent.
pub open spec fn dash_or(o: Option<String>) -> Seq<char> {
    match o {
        Some(s) => s@,
        None => "-"@,
    }
}

/// The remote address shown for an account tunnel: its domain for HTTP(S),
/// otherwise the node address and the remote port.
pub open spec fn api_remote(t: Tunnel) -> Seq<char> {
    if is_web_type(t.tunnel_type@) {
        t.dorp@
    } else {
        t.node_ip@ + ":"@ + t.dorp@
    }
}

/// The remote address shown for a local tunnel: its custom domains, else
/// its subdomain, else server address and remote port, else `-`.
pub open spec fn local_remote(t: CustomTunnel) -> Seq<char> {
    match t.custom_domains {
        Some(d) => d@,
        None => match t.subdomain {
            Some(s) => s@,
            None => match (t.server_addr, t.remote_port) {
                (Some(a), Some(p)) => a@ + ":"@ + decimal(p as nat),
                _ => "-"@,
            },
        },
    }
}

/// The local address shown for a local tunnel: `ip:port`, or `-` when
/// either is missing.
pub open spec fn local_address(t: CustomTunnel) -> Seq<char> {
    match (t.local_ip, t.local_port) {
        (Some(ip), Some(p)) => ip@ + ":"@ + decimal(p as nat),
        _ => "-"@,
    }
}

/// What a row shows of a list item: where it comes from, its raw id, its
/// name (after `[A] ` when marked for auto-start), type, node or server,
/// local and remote addresses, and whether its process runs.
pub open spec fn row_shows(r: TunnelRow, item: TunnelListItem, running: bool, marked: bool) -> bool {
    &&& r.running == running
    &&& r.name@ == (if marked { "[A] "@ } else { ""@ }) + item_name(item)
    &&& match item {
        TunnelListItem::Api(t) => {
            &&& r.source@ == "API"@
            &&& r.id@ == int_decimal(t.id as int)
            &&& r.tunnel_type@ == t.tunnel_type@
            &&& r.node_or_server@ == t.node@
            &&& r.local_addr@ == t.localip@ + ":"@ + int_decimal(t.nport as int)
            &&& r.remote_addr@ == api_remote(t)
        },
        TunnelListItem::Local(t) => {
            &&& r.source@ == "LOCAL"@
            &&& r.id@ == t.id@
            &&& r.tunnel_type@ == dash_or(t.tunnel_type)
            &&& r.node_or_server@ == dash_or(t.server_addr)
            &&& r.local_addr@ == local_address(t)
            &&& r.remote_addr@ == local_remote(t)
        },
    }
}

fn dash_or_exec(o: &Option<String>) -> (r: String)
    ensures
        r@ == dash_or(*o),
{
    match o {
        Some(s) => s.clone(),
        None => "-".to_owned(),
    }
}

fn host_port(host: &str, port: u16) -> (r: String)
    ensures
        r@ == host@ + ":"@ + decimal(port as nat),
{
    let mut v = chars_of(host);
    push_str(&mut v, ":");
    let mut d = u64_decimal(port as u64);
    v.append(&mut d);
    string_from(&v)
}

fn api_remote_exec(t: &Tunnel) -> (r: String)
    ensures
        r@ == api_remote(*t),
{
    if web_type(t.tunnel_type.as_str()) {
        t.dorp.clone()
    } else {
        let mut v = chars_of(t.node_ip.as_str());
        push_str(&mut v, ":");
        push_str(&mut v, t.dorp.as_str());
        string_from(&v)
    }
}

fn local_remote_exec(t: &CustomTunnel) -> (r: String)
    ensures
        r@ == local_remote(*t),
{
    match &t.custom_domains {
        Some(d) => d.clone(),
        None => match &t.subdomain {
            Some(s) => s.clone(),
            None => match (&t.server_addr, t.remote_port) {
                (Some(a), Some(p)) => host_port(a.as_str(), p),
                _ => "-".to_owned(),
            },
        },
    }
}

/// The cells of the row of a list item.
pub fn tunnel_row(item: &TunnelListItem, running: bool, marked: bool) -> (r: TunnelRow)
    ensures
        row_shows(r, *item, running, marked),
{
    let mut name = if marked {
        chars_of("[A] ")
    } else {
        chars_of("")
    };
    push_str(&mut name, item.name());
    let name = string_from(&name);
    match item {
        TunnelListItem::Api(t) => {
            let mut local = chars_of(t.localip.as_str());
            push_str(&mut local, ":");
            let mut port = i64_decimal(t.nport as i64);
            local.append(&mut port);
            TunnelRow {
                source: "API".to_owned(),
                id: string_from(&i64_decimal(t.id as i64)),
                name,
                tunnel_type: t.tunnel_type.clone(),
                node_or_server: t.node.clone(),
                local_addr: string_from(&local),
                remote_addr: api_remote_exec(t),
                running,
            }
        },
        TunnelListItem::Local(t) => {
            let local_addr = match (&t.local_ip, t.local_port) {
                (Some(ip), Some(p)) => host_port(ip.as_str(), p),
                _ => "-".to_owned(),
            };
            TunnelRow {
                source: "LOCAL".to_owned(),
                id: t.id.clone(),
                name,
                tunnel_type: dash_or_exec(&t.tunnel_type),
                node_or_server: dash_or_exec(&t.server_addr),
                local_addr,
                remote_addr: local_remote_exec(t),
                running,
            }
        },
    }
}

impl App {
    /// The rows of the tunnel list, one per item in order; a row is marked
    /// running when its process id is among the running ones, and its name
    /// carries `[A] ` when its id is marked for auto-start.
    pub fn tunnel_rows(&self) -> (r: Vec<TunnelRow>)
        ensures
            r.len() == self.tunnel_items.len(),
            forall|i: int|
                0 <= i < r.len() ==> #[trigger] row_shows(
                    r@[i],
                    self.tunnel_items@[i],
                    self.running_tunnels@.contains(item_id(self.tunnel_items@[i])),
                    self.settings.auto_start_tunnel_ids@.contains(item_id(self.tunnel_items@[i])),
                ),
    {
        let mut rows: Vec<TunnelRow> = Vec::new();
        let mut i: usize = 0;
        while i < self.tunnel_items.len()
            invariant
                i <= self.tunnel_items.len(),
                rows.len() == i,
                forall|j: int|
                    0 <= j < i ==> #[trigger] row_shows(
                        rows@[j],
                        self.tunnel_items@[j],
                        self.running_tunnels@.contains(item_id(self.tunnel_items@[j])),
                        self.settings.auto_start_tunnel_ids@.contains(item_id(self.tunnel_items@[j])),
                    ),
            decreases self.tunnel_items.len() - i,
        {
            let item = &self.tunnel_items[i];
            let id = item.id();
            let running = contains_id(&self.running_tunnels, id);
            let marked = contains_id(&self.settings.auto_start_tunnel_ids, id);
            rows.push(tunnel_row(item, running, marked));
            i += 1;
        }
        rows
    }
}

/// The two parts of a node's row in the node list: its name, and its
/// area, group and web and UDP support.
pub open spec fn node_row_of(n: Node) -> (Seq<char>, Seq<char>) {
    (
        n.name@ + " "@,
        n.area@ + " | "@ + n.nodegroup@ + " | web:"@ + n.web@ + " udp:"@ + n.udp@,
    )
}

/// The text of a node's row in the node list.
pub fn node_row(n: &Node) -> (r: (String, String))
    ensures
        (r.0@, r.1@) == node_row_of(*n),
{
    let mut name = chars_of(n.name.as_str());
    push_str(&mut name, " ");
    let mut rest = chars_of(n.area.as_str());
    push_str(&mut rest, " | ");
    push_str(&mut rest, n.nodegroup.as_str());
    push_str(&mut rest, " | web:");
    push_str(&mut rest, n.web.as_str());
    push_str(&mut rest, " udp:");
    push_str(&mut rest, n.udp.as_str());
    (string_from(&name), string_from(&rest))
}

/// `开启` for on, `关闭` for off.
pub open spec fn on_off(b: bool) -> Seq<char> {
    if b {
        "开启"@
    } else {
        "关闭"@
    }
}

/// The rows of the official-tunnel form: label, value and whether the row
/// is the selected field. The fourth row asks for a domain (HTTP(S)) or a
/// remote port followed by the node's allowed ports; the last row shows the
/// allowed ports and is never selected.
pub open spec fn form_rows_of(form: OfficialTunnelForm, rport: Seq<char>) -> Seq<(Seq<char>, Seq<char>, bool)> {
    let http = is_http_protocol(form.protocol);
    seq![
        ("隧道名称"@, form.tunnel_name@, form.selected_field == 0),
        ("本地 IP"@, form.local_ip@, form.selected_field == 1),
        ("本地端口"@, form.local_port@, form.selected_field == 2),
        (
            if http { "域名"@ } else { "远程端口"@ },
            if http { form.domain@ } else { form.remote_port@ + " (允许: "@ + rport + ")"@ },
            form.selected_field == 3,
        ),
        ("协议"@, protocol_label(form.protocol), form.selected_field == 4),
        ("加密"@, on_off(form.encryption), form.selected_field == 5),
        ("压缩"@, on_off(form.compression), form.selected_field == 6),
        ("可用端口"@, rport, false),
    ]
}

/// The views of a list of form rows.
pub open spec fn rows_view(v: Seq<(String, String, bool)>) -> Seq<(Seq<char>, Seq<char>, bool)> {
    v.map_values(|r: (String, String, bool)| (r.0@, r.1@, r.2))
}

/// The views of a list of lines.
pub open spec fn lines_view(v: Seq<String>) -> Seq<Seq<char>> {
    v.map_values(|s: String| s@)
}

/// The allowed remote ports of the loaded node, `-` before any is loaded.
pub open spec fn shown_rport(app: App) -> Seq<char> {
    match app.official_node_info {
        Some(info) => info.rport@,
        None => "-"@,
    }
}

/// The name of the selected node, `-` when none is selected.
pub open spec fn shown_node_name(app: App) -> Seq<char> {
    if app.selected_official_node < app.official_nodes.len() {
        app.official_nodes@[app.selected_official_node as int].name@
    } else {
        "-"@
    }
}

/// The title and the key help of the official-tunnel form.
pub open spec fn form_title_of(mode: OfficialTunnelMode, node_name: Seq<char>) -> (Seq<char>, Seq<char>) {
    match mode {
        OfficialTunnelMode::Create => (
            " 创建官方隧道 | 节点: "@ + node_name + " "@,
            " ↑↓ 切换字段 Tab/空格切换 Enter 提交 Esc 返回节点 "@,
        ),
        OfficialTunnelMode::Edit { .. } => (
            " 编辑官方隧道 | 节点: "@ + node_name + " "@,
            " ↑↓ 切换字段 Tab/空格切换 Enter 保存 Esc 返回节点 "@,
        ),
    }
}

/// The lines of the delete confirmation of an account tunnel; `-` stands
/// for what is unknown when no tunnel is targeted.
pub open spec fn delete_lines_of(target: Option<Tunnel>) -> Seq<Seq<char>> {
    let (name, ty, node, remote) = match target {
        Some(t) => (t.name@, t.tunnel_type@, t.node@, api_remote(t)),
        None => ("-"@, "-"@, "-"@, "-"@),
    };
    seq![
        "确认删除官方隧道"@,
        ""@,
        "名称: "@ + name,
        "类型: "@ + ty,
        "节点: "@ + node,
        "远程地址: "@ + remote,
        ""@,
        "按 Enter / y 确认删除，按 Esc / n 取消"@,
    ]
}

/// The title of the local-tunnel editor.
pub open spec fn editor_title_of(mode: Option<TunnelEditorMode>) -> Seq<char> {
    match mode {
        Some(TunnelEditorMode::New) => " 新建本地隧道 "@,
        Some(TunnelEditorMode::Edit { .. }) => " 编辑本地隧道 "@,
        None => " 编辑器 "@,
    }
}

fn labelled(label: &str, value: &str) -> (r: String)
    ensures
        r@ == label@ + value@,
{
    let mut v = chars_of(label);
    push_str(&mut v, value);
    string_from(&v)
}

fn on_off_exec(b: bool) -> (r: String)
    ensures
        r@ == on_off(b),
{
    if b {
        "开启".to_owned()
    } else {
        "关闭".to_owned()
    }
}

impl App {
    /// The rows of the official-tunnel form.
    pub fn official_form_rows(&self) -> (r: Vec<(String, String, bool)>)
        ensures
            rows_view(r@) == form_rows_of(self.official_tunnel_form, shown_rport(*self)),
    {
        let form = &self.official_tunnel_form;
        let rport: &str = match self.current_official_rport() {
            Some(p) => p,
            None => "-",
        };
        let http = form.protocol.is_http();
        let (port_label, port_value) = if http {
            ("域名".to_owned(), form.domain.clone())
        } else {
            let mut v = chars_of(form.remote_port.as_str());
            push_str(&mut v, " (允许: ");
            push_str(&mut v, rport);
            push_str(&mut v, ")");
            ("远程端口".to_owned(), string_from(&v))
        };
        let mut rows: Vec<(String, String, bool)> = Vec::new();
        rows.push(("隧道名称".to_owned(), form.tunnel_name.clone(), form.selected_field == 0));
        rows.push(("本地 IP".to_owned(), form.local_ip.clone(), form.selected_field == 1));
        rows.push(("本地端口".to_owned(), form.local_port.clone(), form.selected_field == 2));
        rows.push((port_label, port_value, form.selected_field == 3));
        rows.push(("协议".to_owned(), form.protocol.label().to_owned(), form.selected_field == 4));
        rows.push(("加密".to_owned(), on_off_exec(form.encryption), form.selected_field == 5));
        rows.push(("压缩".to_owned(), on_off_exec(form.compression), form.selected_field == 6));
        rows.push(("可用端口".to_owned(), rport.to_owned(), false));
        assert(rows_view(rows@) =~= form_rows_of(self.official_tunnel_form, shown_rport(*self)));
        rows
    }

    /// The title and key help of the official-tunnel form.
    pub fn official_form_title(&self) -> (r: (String, String))
        ensures
            (r.0@, r.1@) == form_title_of(self.official_tunnel_mode, shown_node_name(*self)),
    {
        let node_name: &str = match self.selected_official_node() {
            Some(n) => n.name.as_str(),
            None => "-",
        };
        let (head, help) = match self.official_tunnel_mode {
            OfficialTunnelMode::Create => (
                " 创建官方隧道 | 节点: ",
                " ↑↓ 切换字段 Tab/空格切换 Enter 提交 Esc 返回节点 ",
            ),
            OfficialTunnelMode::Edit { .. } => (
                " 编辑官方隧道 | 节点: ",
                " ↑↓ 切换字段 Tab/空格切换 Enter 保存 Esc 返回节点 ",
            ),
        };
        let mut title = chars_of(head);
        push_str(&mut title, node_name);
        push_str(&mut title, " ");
        (string_from(&title), help.to_owned())
    }

    /// The lines of the delete confirmation of the targeted account tunnel.
    pub fn api_delete_lines(&self) -> (r: Vec<String>)
        ensures
            lines_view(r@) == delete_lines_of(self.api_delete_target),
    {
        let (name, ty, node, remote) = match &self.api_delete_target {
            Some(t) => (t.name.clone(), t.tunnel_type.clone(), t.node.clone(), api_remote_exec(t)),
            None => ("-".to_owned(), "-".to_owned(), "-".to_owned(), "-".to_owned()),
        };
        let mut lines: Vec<String> = Vec::new();
        lines.push("确认删除官方隧道".to_owned());
        lines.push("".to_owned());
        lines.push(labelled("名称: ", name.as_str()));
        lines.push(labelled("类型: ", ty.as_str()));
        lines.push(labelled("节点: ", node.as_str()));
        lines.push(labelled("远程地址: ", remote.as_str()));
        lines.push("".to_owned());
        lines.push("按 Enter / y 确认删除，按 Esc / n 取消".to_owned());
        assert(lines_view(lines@) =~= delete_lines_of(self.api_delete_target));
        lines
    }

    /// The title of the local-tunnel editor.
    pub fn editor_title(&self) -> (r: &'static str)
        ensures
            r@ == editor_title_of(self.tunnel_editor),
    {
        match self.tunnel_editor {
            Some(TunnelEditorMode::New) => " 新建本地隧道 ",
            Some(TunnelEditorMode::Edit { .. }) => " 编辑本地隧道 ",
            None => " 编辑器 ",
        }
    }
}

} // verus!
