//! The terminal launcher's screen state and the decisions taken on key
//! presses: selections, the official-tunnel form, the local-tunnel editor and
//! the tunnel list. Network, disk and process work is done by the caller,
//! which hands the outcomes back to these methods.

use vstd::prelude::*;
use crate::custom_tunnel::{custom_tunnel_hash, get_custom_tunnel_hash, CustomTunnel};
use crate::models::{LogMessage, Node, NodeInfo, StoredUser, Tunnel, TunnelConfig};
use crate::text::{find_char, find_char_exec, starts_with, starts_with_exec, sub_chars, trim, trim_chars};
use crate::api::{contains_chars, contains_text, is_login_expired, is_login_expired_error};
use crate::tui::{port_allowed, port_is_in_allowed_range, protocol_label, protocol_of};
use crate::numbers::{parse_u16, parse_u16_exec};
use crate::numbers::{decimal, i64_decimal, int_decimal, u64_decimal};
use crate::persistence::{contains_id, copy_opt_string, keep_last};
use crate::text::{chars_of, push_str, string_from, string_pop, string_push};
use crate::tui::{
    first_allowed_port, first_port, is_http_protocol, next_protocol, pieces, LoginState, OfficialTunnelForm, OfficialTunnelMode,
    OfficialTunnelProtocol, Screen, Tab, TunnelEditorMode, TunnelPageMode,
};

verus! {

broadcast use vstd::string::group_string_axioms;

/// One row of the tunnel list: a tunnel of the account, or a local one.
#[derive(Debug, Clone)]
pub enum TunnelListItem {
    Api(Tunnel),
    Local(CustomTunnel),
}

/// The process id of a list row: the account tunnel's id, or the local
/// tunnel's stored hash (computed from its id when none is stored).
pub open spec fn item_id(item: TunnelListItem) -> i32 {
    match item {
        TunnelListItem::Api(t) => t.id,
        TunnelListItem::Local(t) => match t.hashed_id {
            Some(h) => h,
            None => custom_tunnel_hash(t.id@),
        },
    }
}

/// The displayed name of a list row.
pub open spec fn item_name(item: TunnelListItem) -> Seq<char> {
    match item {
        TunnelListItem::Api(t) => t.name@,
        TunnelListItem::Local(t) => t.name@,
    }
}

impl TunnelListItem {
    /// The process id of the row.
    pub fn id(&self) -> (r: i32)
        ensures
            r == item_id(*self),
    {
        match self {
            TunnelListItem::Api(tunnel) => tunnel.id,
            TunnelListItem::Local(tunnel) => match tunnel.hashed_id {
                Some(h) => h,
                None => get_custom_tunnel_hash(tunnel.id.as_str()),
            },
        }
    }

    /// The displayed name of the row.
    pub fn name(&self) -> (r: &str)
        ensures
            r@ == item_name(*self),
    {
        match self {
            TunnelListItem::Api(tunnel) => tunnel.name.as_str(),
            TunnelListItem::Local(tunnel) => tunnel.name.as_str(),
        }
    }
}

/// The terminal launcher's state, as far as its decisions read it. The
/// channels, running processes, settings and download progress are held by
/// the caller.
pub struct App {
    pub screen: Screen,
    pub tab: Tab,
    pub stored_user: Option<StoredUser>,
    pub tunnels: Vec<Tunnel>,
    pub custom_tunnels: Vec<CustomTunnel>,
    pub tunnel_items: Vec<TunnelListItem>,
    pub tunnel_page_mode: TunnelPageMode,
    pub official_nodes: Vec<Node>,
    pub selected_official_node: usize,
    pub official_tunnel_mode: OfficialTunnelMode,
    pub official_tunnel_form: OfficialTunnelForm,
    pub official_node_info: Option<NodeInfo>,
    pub is_submitting_official_tunnel: bool,
    pub api_delete_target: Option<Tunnel>,
    pub running_tunnels: Vec<i32>,
    pub selected_tunnel: usize,
    pub tunnel_editor: Option<TunnelEditorMode>,
    pub tunnel_editor_content: String,
    pub selected_setting: usize,
    pub is_systemd_installed: bool,
    pub logs: Vec<LogMessage>,
    pub log_scroll: u16,
    pub status_message: String,
    pub login_state: LoginState,
    pub login_user_code: String,
    pub login_verification_uri: String,
    pub login_error: String,
    pub login_device_code: String,
    pub is_downloading: bool,
    pub show_confirm_quit: bool,
    pub needs_refresh: bool,
    pub needs_auto_start: bool,
    pub settings: AppSettings,
}

/// The launcher's saved preferences that its decisions read: whether
/// marked tunnels start with the launcher, and which ones are marked.
#[derive(Debug, Clone)]
pub struct AppSettings {
    pub auto_start_tunnels_enabled: bool,
    pub auto_start_tunnel_ids: Vec<i32>,
}

impl App {
    /// The state at start-up: the sign-in screen, the tunnel tab in list
    /// mode, nothing loaded, with the persisted log lines, whether the
    /// service unit is installed, and the saved preferences.
    pub fn new(logs: Vec<LogMessage>, is_systemd_installed: bool, settings: AppSettings) -> (r: Self)
        ensures
            r.screen == Screen::Login,
            r.tab == Tab::Tunnels,
            r.stored_user is None,
            r.tunnels@.len() == 0,
            r.custom_tunnels@.len() == 0,
            r.tunnel_items@.len() == 0,
            r.tunnel_page_mode == TunnelPageMode::List,
            r.official_nodes@.len() == 0,
            r.selected_official_node == 0,
            r.official_tunnel_mode == OfficialTunnelMode::Create,
            fresh_form(r.official_tunnel_form),
            r.official_node_info is None,
            !r.is_submitting_official_tunnel,
            r.api_delete_target is None,
            r.running_tunnels@.len() == 0,
            r.selected_tunnel == 0,
            r.tunnel_editor is None,
            r.tunnel_editor_content@.len() == 0,
            r.selected_setting == 0,
            r.is_systemd_installed == is_systemd_installed,
            r.logs == logs,
            r.log_scroll == 0,
            r.status_message@.len() == 0,
            r.login_state == LoginState::Idle,
            r.login_user_code@.len() == 0,
            r.login_verification_uri@.len() == 0,
            r.login_error@.len() == 0,
            r.login_device_code@.len() == 0,
            !r.is_downloading,
            !r.show_confirm_quit,
            !r.needs_refresh,
            !r.needs_auto_start,
            r.settings == settings,
    {
        App {
            screen: Screen::Login,
            tab: Tab::Tunnels,
            stored_user: None,
            tunnels: Vec::new(),
            custom_tunnels: Vec::new(),
            tunnel_items: Vec::new(),
            tunnel_page_mode: TunnelPageMode::List,
            official_nodes: Vec::new(),
            selected_official_node: 0,
            official_tunnel_mode: OfficialTunnelMode::Create,
            official_tunnel_form: OfficialTunnelForm::default(),
            official_node_info: None,
            is_submitting_official_tunnel: false,
            api_delete_target: None,
            running_tunnels: Vec::new(),
            selected_tunnel: 0,
            tunnel_editor: None,
            tunnel_editor_content: String::new(),
            selected_setting: 0,
            is_systemd_installed,
            logs,
            log_scroll: 0,
            status_message: String::new(),
            login_state: LoginState::Idle,
            login_user_code: String::new(),
            login_verification_uri: String::new(),
            login_error: String::new(),
            login_device_code: String::new(),
            is_downloading: false,
            show_confirm_quit: false,
            needs_refresh: false,
            needs_auto_start: false,
            settings,
        }
    }

    /// Whether the local-tunnel editor is open.
    pub fn is_editing_tunnel(&self) -> (r: bool)
        ensures
            r == self.tunnel_editor is Some,
    {
        self.tunnel_editor.is_some()
    }

    /// Whether the tunnel page shows the plain list.
    pub fn is_in_tunnel_list_mode(&self) -> (r: bool)
        ensures
            r == (self.tunnel_page_mode == TunnelPageMode::List && self.tunnel_editor is None),
    {
        self.tunnel_page_mode == TunnelPageMode::List && !self.is_editing_tunnel()
    }

    /// The node selected for an official tunnel.
    pub fn selected_official_node(&self) -> (r: Option<&Node>)
        ensures
            self.selected_official_node < self.official_nodes.len() ==> r == Some(
                &self.official_nodes@[self.selected_official_node as int],
            ),
            self.selected_official_node >= self.official_nodes.len() ==> r is None,
    {
        if self.selected_official_node < self.official_nodes.len() {
            Some(&self.official_nodes[self.selected_official_node])
        } else {
            None
        }
    }

    /// The port range of the node whose details were loaded.
    pub fn current_official_rport(&self) -> (r: Option<&str>)
        ensures
            match self.official_node_info {
                Some(info) => r matches Some(s) && s@ == info.rport@,
                None => r is None,
            },
    {
        match &self.official_node_info {
            Some(info) => Some(info.rport.as_str()),
            None => None,
        }
    }

    /// Moves the node selection one up, stopping at the first node.
    pub fn move_official_node_selection_up(&mut self)
        ensures
            *final(self) == (App {
                selected_official_node: if old(self).selected_official_node > 0 {
                    (old(self).selected_official_node - 1) as usize
                } else {
                    old(self).selected_official_node
                },
                ..*old(self)
            }),
    {
        if self.selected_official_node > 0 {
            self.selected_official_node = self.selected_official_node - 1;
        }
    }

    /// Moves the node selection one down, stopping at the last node.
    pub fn move_official_node_selection_down(&mut self)
        ensures
            *final(self) == (App {
                selected_official_node: if old(self).selected_official_node + 1 < old(
                    self,
                ).official_nodes.len() {
                    (old(self).selected_official_node + 1) as usize
                } else {
                    old(self).selected_official_node
                },
                ..*old(self)
            }),
    {
        if self.selected_official_node < self.official_nodes.len()
            && self.selected_official_node + 1 < self.official_nodes.len() {
            self.selected_official_node = self.selected_official_node + 1;
        }
    }
}

/// A form as `OfficialTunnelForm::default` makes it.
pub open spec fn fresh_form(f: OfficialTunnelForm) -> bool {
    &&& f.tunnel_name@.len() == 0
    &&& f.local_ip@ == "127.0.0.1"@
    &&& f.local_port@.len() == 0
    &&& f.remote_port@.len() == 0
    &&& f.domain@.len() == 0
    &&& f.protocol == OfficialTunnelProtocol::Tcp
    &&& !f.encryption
    &&& !f.compression
    &&& f.selected_field == 0
}

} // verus!

verus! {

/// Number of fields of the official-tunnel form.
pub const OFFICIAL_FORM_FIELDS: usize = 7;

/// The port a node's details suggest for the remote port: the first port
/// its range list allows, as text; empty when there is none.
pub open spec fn suggested_remote_port(rport: Seq<char>) -> Seq<char> {
    match first_port(pieces(rport)) {
        Some(p) => decimal(p as nat),
        None => Seq::empty(),
    }
}

/// The remote port suggested by the loaded node details, if any.
pub open spec fn suggested_for(info: Option<NodeInfo>) -> Seq<char> {
    match info {
        Some(i) => suggested_remote_port(i.rport@),
        None => Seq::empty(),
    }
}

fn suggested_port_text(rport: &str) -> (r: String)
    ensures
        r@ == suggested_remote_port(rport@),
{
    match first_allowed_port(rport) {
        Some(p) => string_from(&u64_decimal(p as u64)),
        None => String::new(),
    }
}

/// Whether a character is an ASCII digit.
pub open spec fn is_ascii_digit(c: char) -> bool {
    '0' <= c <= '9'
}

impl App {
    /// Moves the form selection one field up, stopping at the first.
    pub fn move_official_form_field_up(&mut self)
        ensures
            *final(self) == (App {
                official_tunnel_form: OfficialTunnelForm {
                    selected_field: if old(self).official_tunnel_form.selected_field > 0 {
                        (old(self).official_tunnel_form.selected_field - 1) as usize
                    } else {
                        old(self).official_tunnel_form.selected_field
                    },
                    ..old(self).official_tunnel_form
                },
                ..*old(self)
            }),
    {
        if self.official_tunnel_form.selected_field > 0 {
            self.official_tunnel_form.selected_field = self.official_tunnel_form.selected_field - 1;
        }
    }

    /// Moves the form selection one field down, stopping at the last.
    pub fn move_official_form_field_down(&mut self)
        ensures
            *final(self) == (App {
                official_tunnel_form: OfficialTunnelForm {
                    selected_field: if old(self).official_tunnel_form.selected_field + 1
                        < OFFICIAL_FORM_FIELDS {
                        (old(self).official_tunnel_form.selected_field + 1) as usize
                    } else {
                        old(self).official_tunnel_form.selected_field
                    },
                    ..old(self).official_tunnel_form
                },
                ..*old(self)
            }),
    {
        if self.official_tunnel_form.selected_field < OFFICIAL_FORM_FIELDS - 1 {
            self.official_tunnel_form.selected_field = self.official_tunnel_form.selected_field + 1;
        }
    }

    /// Leaves the official-tunnel flow: creating again, no node details, no
    /// tunnel to delete, nothing being submitted, an empty form.
    fn reset_official_flow_state(&mut self)
        ensures
            *final(self) == (App {
                official_tunnel_mode: OfficialTunnelMode::Create,
                official_node_info: None,
                api_delete_target: None,
                is_submitting_official_tunnel: false,
                official_tunnel_form: final(self).official_tunnel_form,
                ..*old(self)
            }),
            fresh_form(final(self).official_tunnel_form),
    {
        self.official_tunnel_mode = OfficialTunnelMode::Create;
        self.official_node_info = None;
        self.api_delete_target = None;
        self.is_submitting_official_tunnel = false;
        self.official_tunnel_form = OfficialTunnelForm::default();
    }

    /// Takes in a node's details: the remote port becomes the first port
    /// the node allows (empty when none), and the details are kept.
    pub fn apply_official_node_info(&mut self, node_info: NodeInfo)
        ensures
            *final(self) == (App {
                official_tunnel_form: OfficialTunnelForm {
                    remote_port: final(self).official_tunnel_form.remote_port,
                    ..old(self).official_tunnel_form
                },
                official_node_info: Some(node_info),
                ..*old(self)
            }),
            final(self).official_tunnel_form.remote_port@ == suggested_remote_port(node_info.rport@),
    {
        self.official_tunnel_form.remote_port = suggested_port_text(node_info.rport.as_str());
        self.official_node_info = Some(node_info);
    }

    /// Leaves node selection for the tunnel list, dropping the nodes.
    pub fn cancel_official_node_select(&mut self)
        ensures
            *final(self) == (App {
                tunnel_page_mode: TunnelPageMode::List,
                official_nodes: final(self).official_nodes,
                official_tunnel_mode: OfficialTunnelMode::Create,
                official_node_info: None,
                api_delete_target: None,
                is_submitting_official_tunnel: false,
                official_tunnel_form: final(self).official_tunnel_form,
                status_message: final(self).status_message,
                ..*old(self)
            }),
            final(self).official_nodes@.len() == 0,
            fresh_form(final(self).official_tunnel_form),
            final(self).status_message@ == (if old(self).official_tunnel_mode is Edit {
                "已取消编辑官方隧道"@
            } else {
                "已取消创建官方隧道"@
            }),
    {
        let status = if self.official_tunnel_mode.is_edit() {
            "已取消编辑官方隧道"
        } else {
            "已取消创建官方隧道"
        };
        self.tunnel_page_mode = TunnelPageMode::List;
        self.official_nodes = Vec::new();
        self.reset_official_flow_state();
        self.status_message = status.to_owned();
    }

    /// Goes back from the form to node selection, dropping the details.
    pub fn return_official_form_to_node_select(&mut self)
        ensures
            *final(self) == (App {
                tunnel_page_mode: TunnelPageMode::OfficialNodeSelect,
                official_node_info: None,
                status_message: final(self).status_message,
                ..*old(self)
            }),
            final(self).status_message@ == "已返回节点选择"@,
    {
        self.tunnel_page_mode = TunnelPageMode::OfficialNodeSelect;
        self.official_node_info = None;
        self.status_message = "已返回节点选择".to_owned();
    }

    /// Changes the selected choice field: the protocol (field 4) moves to
    /// the next one, clearing the remote port for HTTP(S) or, when it is
    /// empty, filling in the port the node suggests; encryption (5) and
    /// compression (6) are switched. Other fields are not choices.
    pub fn toggle_current_official_form_field(&mut self)
        ensures
            ({
                let f = old(self).official_tunnel_form;
                let g = final(self).official_tunnel_form;
                if f.selected_field == 4 {
                    let p = next_protocol(f.protocol);
                    &&& *final(self) == (App {
                        official_tunnel_form: OfficialTunnelForm {
                            protocol: p,
                            remote_port: g.remote_port,
                            ..f
                        },
                        ..*old(self)
                    })
                    &&& g.remote_port@ == (if is_http_protocol(p) {
                        Seq::empty()
                    } else if f.remote_port@.len() == 0 {
                        suggested_for(old(self).official_node_info)
                    } else {
                        f.remote_port@
                    })
                } else if f.selected_field == 5 {
                    *final(self) == (App {
                        official_tunnel_form: OfficialTunnelForm { encryption: !f.encryption, ..f },
                        ..*old(self)
                    })
                } else if f.selected_field == 6 {
                    *final(self) == (App {
                        official_tunnel_form: OfficialTunnelForm {
                            compression: !f.compression,
                            ..f
                        },
                        ..*old(self)
                    })
                } else {
                    *final(self) == *old(self)
                }
            }),
    {
        let field = self.official_tunnel_form.selected_field;
        if field == 4 {
            let p = self.official_tunnel_form.protocol.cycle();
            self.official_tunnel_form.protocol = p;
            if p.is_http() {
                self.official_tunnel_form.remote_port = String::new();
            } else if self.official_tunnel_form.remote_port.as_str().is_empty() {
                let suggestion = match &self.official_node_info {
                    Some(info) => suggested_port_text(info.rport.as_str()),
                    None => String::new(),
                };
                self.official_tunnel_form.remote_port = suggestion;
            }
        } else if field == 5 {
            self.official_tunnel_form.encryption = !self.official_tunnel_form.encryption;
        } else if field == 6 {
            self.official_tunnel_form.compression = !self.official_tunnel_form.compression;
        }
    }
}

} // verus!

verus! {

// ---------------------------------------------------------------------------
// Copies of list rows
// ---------------------------------------------------------------------------

/// A copy of an account tunnel.
pub fn copy_tunnel(t: &Tunnel) -> (r: Tunnel)
    ensures
        r == *t,
{
    Tunnel {
        id: t.id,
        name: t.name.clone(),
        localip: t.localip.clone(),
        tunnel_type: t.tunnel_type.clone(),
        nport: t.nport,
        dorp: t.dorp.clone(),
        node: t.node.clone(),
        ap: t.ap.clone(),
        uptime: copy_opt_string(&t.uptime),
        client_version: copy_opt_string(&t.client_version),
        cur_conns: t.cur_conns,
        nodestate: t.nodestate.clone(),
        ip: t.ip.clone(),
        node_ip: t.node_ip.clone(),
        node_ipv6: copy_opt_string(&t.node_ipv6),
        server_port: t.server_port,
        node_token: t.node_token.clone(),
    }
}

/// Two local tunnels hold the same values (their name lists compared by content).
pub open spec fn same_custom_tunnel(a: CustomTunnel, b: CustomTunnel) -> bool {
    &&& a.id == b.id
    &&& a.name == b.name
    &&& a.config_file == b.config_file
    &&& a.server_addr == b.server_addr
    &&& a.server_port == b.server_port
    &&& a.tunnels@ == b.tunnels@
    &&& a.tunnel_type == b.tunnel_type
    &&& a.custom_domains == b.custom_domains
    &&& a.subdomain == b.subdomain
    &&& a.local_ip == b.local_ip
    &&& a.local_port == b.local_port
    &&& a.remote_port == b.remote_port
    &&& a.created_at == b.created_at
    &&& a.hashed_id == b.hashed_id
}

/// A copy of a vector of strings.
pub fn copy_strings(v: &Vec<String>) -> (r: Vec<String>)
    ensures
        r@ == v@,
{
    let mut r: Vec<String> = Vec::new();
    let mut i: usize = 0;
    while i < v.len()
        invariant
            i <= v.len(),
            r@ == v@.take(i as int),
        decreases v.len() - i,
    {
        assert(v@.take(i + 1) =~= v@.take(i as int).push(v@[i as int]));
        r.push(v[i].clone());
        i = i + 1;
    }
    assert(v@.take(v.len() as int) =~= v@);
    r
}

/// A copy of a local tunnel.
pub fn copy_custom_tunnel(t: &CustomTunnel) -> (r: CustomTunnel)
    ensures
        same_custom_tunnel(r, *t),
{
    CustomTunnel {
        id: t.id.clone(),
        name: t.name.clone(),
        config_file: t.config_file.clone(),
        server_addr: copy_opt_string(&t.server_addr),
        server_port: t.server_port,
        tunnels: copy_strings(&t.tunnels),
        tunnel_type: copy_opt_string(&t.tunnel_type),
        custom_domains: copy_opt_string(&t.custom_domains),
        subdomain: copy_opt_string(&t.subdomain),
        local_ip: copy_opt_string(&t.local_ip),
        local_port: t.local_port,
        remote_port: t.remote_port,
        created_at: t.created_at.clone(),
        hashed_id: t.hashed_id,
    }
}

/// Two list rows hold the same values.
pub open spec fn same_item(a: TunnelListItem, b: TunnelListItem) -> bool {
    match (a, b) {
        (TunnelListItem::Api(x), TunnelListItem::Api(y)) => x == y,
        (TunnelListItem::Local(x), TunnelListItem::Local(y)) => same_custom_tunnel(x, y),
        _ => false,
    }
}

/// A copy of a list row.
pub fn copy_item(item: &TunnelListItem) -> (r: TunnelListItem)
    ensures
        same_item(r, *item),
{
    match item {
        TunnelListItem::Api(t) => TunnelListItem::Api(copy_tunnel(t)),
        TunnelListItem::Local(t) => TunnelListItem::Local(copy_custom_tunnel(t)),
    }
}

/// The list rows for the given tunnels: the account's tunnels first, then
/// the local ones, in order.
pub open spec fn items_of(
    items: Seq<TunnelListItem>,
    tunnels: Seq<Tunnel>,
    customs: Seq<CustomTunnel>,
) -> bool {
    &&& items.len() == tunnels.len() + customs.len()
    &&& forall|i: int| 0 <= i < tunnels.len() ==> #[trigger] items[i] == TunnelListItem::Api(tunnels[i])
    &&& forall|j: int|
        0 <= j < customs.len() ==> (#[trigger] items[tunnels.len() + j] matches TunnelListItem::Local(
            t,
        ) && same_custom_tunnel(t, customs[j]))
}

// ---------------------------------------------------------------------------
// Finding rows
// ---------------------------------------------------------------------------

/// What a row is looked up by.
pub enum ItemKey<'a> {
    /// A local tunnel with this id.
    LocalId(&'a str),
    /// An account tunnel with this id.
    ApiId(i32),
    /// An account tunnel with this name.
    ApiName(&'a str),
}

/// What a row is looked up by, as values.
pub enum KeyView {
    LocalId(Seq<char>),
    ApiId(i32),
    ApiName(Seq<char>),
}

/// The values of a lookup key.
pub open spec fn key_view(key: ItemKey) -> KeyView {
    match key {
        ItemKey::LocalId(id) => KeyView::LocalId(id@),
        ItemKey::ApiId(id) => KeyView::ApiId(id),
        ItemKey::ApiName(name) => KeyView::ApiName(name@),
    }
}

/// Whether a row is the one a key looks for.
pub open spec fn key_matches(item: TunnelListItem, key: KeyView) -> bool {
    match key {
        KeyView::LocalId(id) => match item {
            TunnelListItem::Local(t) => t.id@ == id,
            TunnelListItem::Api(_) => false,
        },
        KeyView::ApiId(id) => match item {
            TunnelListItem::Api(t) => t.id == id,
            TunnelListItem::Local(_) => false,
        },
        KeyView::ApiName(name) => match item {
            TunnelListItem::Api(t) => t.name@ == name,
            TunnelListItem::Local(_) => false,
        },
    }
}

/// `k` is the first position of a row the key looks for.
pub open spec fn first_match_at(items: Seq<TunnelListItem>, key: KeyView, k: int) -> bool {
    &&& 0 <= k < items.len()
    &&& key_matches(items[k], key)
    &&& forall|j: int| 0 <= j < k ==> !key_matches(#[trigger] items[j], key)
}

/// Some row is the one the key looks for.
pub open spec fn has_match(items: Seq<TunnelListItem>, key: KeyView) -> bool {
    exists|k: int| 0 <= k < items.len() && key_matches(#[trigger] items[k], key)
}

pub(crate) fn str_equal(a: &str, b: &str) -> (r: bool)
    ensures
        r == (a@ == b@),
{
    crate::text::chars_eq(&chars_of(a), &chars_of(b))
}

fn item_matches(item: &TunnelListItem, key: &ItemKey) -> (r: bool)
    ensures
        r == key_matches(*item, key_view(*key)),
{
    match key {
        ItemKey::LocalId(id) => match item {
            TunnelListItem::Local(t) => str_equal(t.id.as_str(), id),
            TunnelListItem::Api(_) => false,
        },
        ItemKey::ApiId(id) => match item {
            TunnelListItem::Api(t) => t.id == *id,
            TunnelListItem::Local(_) => false,
        },
        ItemKey::ApiName(name) => match item {
            TunnelListItem::Api(t) => str_equal(t.name.as_str(), name),
            TunnelListItem::Local(_) => false,
        },
    }
}

/// The first position of a row the key looks for.
pub fn find_item(items: &Vec<TunnelListItem>, key: &ItemKey) -> (r: Option<usize>)
    ensures
        r matches Some(k) ==> first_match_at(items@, key_view(*key), k as int),
        r is None ==> !has_match(items@, key_view(*key)),
{
    let mut i: usize = 0;
    while i < items.len()
        invariant
            i <= items.len(),
            forall|j: int| 0 <= j < i ==> !key_matches(#[trigger] items@[j], key_view(*key)),
        decreases items.len() - i,
    {
        if item_matches(&items[i], key) {
            return Some(i);
        }
        i = i + 1;
    }
    None
}

/// The default text of a new local tunnel configuration.
pub open spec fn custom_tunnel_template() -> Seq<char> {
    "[common]\nserver_addr = your.server.com\nserver_port = 7000\n\n[demo_tcp]\ntype = tcp\nlocal_ip = 127.0.0.1\nlocal_port = 8080\nremote_port = 10080\n"@
}

/// The default text of a new local tunnel configuration.
pub fn default_custom_tunnel_template() -> (r: String)
    ensures
        r@ == custom_tunnel_template(),
{
    "[common]\nserver_addr = your.server.com\nserver_port = 7000\n\n[demo_tcp]\ntype = tcp\nlocal_ip = 127.0.0.1\nlocal_port = 8080\nremote_port = 10080\n".to_owned()
}

impl App {
    /// Types a character into the selected text field: the name and local IP
    /// take any character, the local port only digits, and field 3 is the
    /// domain for HTTP(S) and the remote port (digits only) otherwise.
    pub fn append_official_form_char(&mut self, ch: char)
        ensures
            ({
                let f = old(self).official_tunnel_form;
                let g = final(self).official_tunnel_form;
                if f.selected_field == 0 {
                    *final(self) == (App {
                        official_tunnel_form: OfficialTunnelForm { tunnel_name: g.tunnel_name, ..f },
                        ..*old(self)
                    }) && g.tunnel_name@ == f.tunnel_name@.push(ch)
                } else if f.selected_field == 1 {
                    *final(self) == (App {
                        official_tunnel_form: OfficialTunnelForm { local_ip: g.local_ip, ..f },
                        ..*old(self)
                    }) && g.local_ip@ == f.local_ip@.push(ch)
                } else if f.selected_field == 2 && is_ascii_digit(ch) {
                    *final(self) == (App {
                        official_tunnel_form: OfficialTunnelForm { local_port: g.local_port, ..f },
                        ..*old(self)
                    }) && g.local_port@ == f.local_port@.push(ch)
                } else if f.selected_field == 3 && is_http_protocol(f.protocol) {
                    *final(self) == (App {
                        official_tunnel_form: OfficialTunnelForm { domain: g.domain, ..f },
                        ..*old(self)
                    }) && g.domain@ == f.domain@.push(ch)
                } else if f.selected_field == 3 && is_ascii_digit(ch) {
                    *final(self) == (App {
                        official_tunnel_form: OfficialTunnelForm { remote_port: g.remote_port, ..f },
                        ..*old(self)
                    }) && g.remote_port@ == f.remote_port@.push(ch)
                } else {
                    *final(self) == *old(self)
                }
            }),
    {
        let field = self.official_tunnel_form.selected_field;
        let digit = '0' <= ch && ch <= '9';
        if field == 0 {
            string_push(&mut self.official_tunnel_form.tunnel_name, ch);
        } else if field == 1 {
            string_push(&mut self.official_tunnel_form.local_ip, ch);
        } else if field == 2 {
            if digit {
                string_push(&mut self.official_tunnel_form.local_port, ch);
            }
        } else if field == 3 {
            if self.official_tunnel_form.protocol.is_http() {
                string_push(&mut self.official_tunnel_form.domain, ch);
            } else if digit {
                string_push(&mut self.official_tunnel_form.remote_port, ch);
            }
        }
    }

    /// Deletes the last character of the selected text field.
    pub fn backspace_official_form(&mut self)
        ensures
            ({
                let f = old(self).official_tunnel_form;
                let g = final(self).official_tunnel_form;
                if f.selected_field == 0 {
                    *final(self) == (App {
                        official_tunnel_form: OfficialTunnelForm { tunnel_name: g.tunnel_name, ..f },
                        ..*old(self)
                    }) && g.tunnel_name@ == without_last(f.tunnel_name@)
                } else if f.selected_field == 1 {
                    *final(self) == (App {
                        official_tunnel_form: OfficialTunnelForm { local_ip: g.local_ip, ..f },
                        ..*old(self)
                    }) && g.local_ip@ == without_last(f.local_ip@)
                } else if f.selected_field == 2 {
                    *final(self) == (App {
                        official_tunnel_form: OfficialTunnelForm { local_port: g.local_port, ..f },
                        ..*old(self)
                    }) && g.local_port@ == without_last(f.local_port@)
                } else if f.selected_field == 3 && is_http_protocol(f.protocol) {
                    *final(self) == (App {
                        official_tunnel_form: OfficialTunnelForm { domain: g.domain, ..f },
                        ..*old(self)
                    }) && g.domain@ == without_last(f.domain@)
                } else if f.selected_field == 3 {
                    *final(self) == (App {
                        official_tunnel_form: OfficialTunnelForm { remote_port: g.remote_port, ..f },
                        ..*old(self)
                    }) && g.remote_port@ == without_last(f.remote_port@)
                } else {
                    *final(self) == *old(self)
                }
            }),
    {
        let field = self.official_tunnel_form.selected_field;
        if field == 0 {
            string_pop(&mut self.official_tunnel_form.tunnel_name);
        } else if field == 1 {
            string_pop(&mut self.official_tunnel_form.local_ip);
        } else if field == 2 {
            string_pop(&mut self.official_tunnel_form.local_port);
        } else if field == 3 {
            if self.official_tunnel_form.protocol.is_http() {
                string_pop(&mut self.official_tunnel_form.domain);
            } else {
                string_pop(&mut self.official_tunnel_form.remote_port);
            }
        }
    }

    /// The selected row of the tunnel list.
    pub fn selected_tunnel_item(&self) -> (r: Option<&TunnelListItem>)
        ensures
            self.selected_tunnel < self.tunnel_items.len() ==> r == Some(
                &self.tunnel_items@[self.selected_tunnel as int],
            ),
            self.selected_tunnel >= self.tunnel_items.len() ==> r is None,
    {
        if self.selected_tunnel < self.tunnel_items.len() {
            Some(&self.tunnel_items[self.selected_tunnel])
        } else {
            None
        }
    }

    /// The process id of the selected row.
    pub fn selected_tunnel_id(&self) -> (r: Option<i32>)
        ensures
            self.selected_tunnel < self.tunnel_items.len() ==> r == Some(
                item_id(self.tunnel_items@[self.selected_tunnel as int]),
            ),
            self.selected_tunnel >= self.tunnel_items.len() ==> r is None,
    {
        match self.selected_tunnel_item() {
            Some(item) => Some(item.id()),
            None => None,
        }
    }

    /// Moves the list selection one up, stopping at the first row.
    pub fn move_tunnel_selection_up(&mut self)
        ensures
            *final(self) == (App {
                selected_tunnel: if old(self).selected_tunnel > 0 {
                    (old(self).selected_tunnel - 1) as usize
                } else {
                    old(self).selected_tunnel
                },
                ..*old(self)
            }),
    {
        if self.selected_tunnel > 0 {
            self.selected_tunnel = self.selected_tunnel - 1;
        }
    }

    /// Moves the list selection one down, stopping at the last row.
    pub fn move_tunnel_selection_down(&mut self)
        ensures
            *final(self) == (App {
                selected_tunnel: if old(self).selected_tunnel + 1 < old(self).tunnel_items.len() {
                    (old(self).selected_tunnel + 1) as usize
                } else {
                    old(self).selected_tunnel
                },
                ..*old(self)
            }),
    {
        if self.selected_tunnel < self.tunnel_items.len() && self.selected_tunnel + 1
            < self.tunnel_items.len() {
            self.selected_tunnel = self.selected_tunnel + 1;
        }
    }

    /// Opens the editor on a new local configuration, filled with the template.
    pub fn start_new_tunnel_editor(&mut self)
        ensures
            *final(self) == (App {
                tunnel_editor: final(self).tunnel_editor,
                tunnel_editor_content: final(self).tunnel_editor_content,
                status_message: final(self).status_message,
                ..*old(self)
            }),
            final(self).tunnel_editor matches Some(TunnelEditorMode::New),
            final(self).tunnel_editor_content@ == custom_tunnel_template(),
            final(self).status_message@ == "已进入新建自定义隧道模式，编辑后按 s 保存"@,
    {
        self.tunnel_editor = Some(TunnelEditorMode::New);
        self.tunnel_editor_content = default_custom_tunnel_template();
        self.status_message = "已进入新建自定义隧道模式，编辑后按 s 保存".to_owned();
    }

    /// Closes the editor without saving.
    pub fn cancel_tunnel_editor(&mut self)
        ensures
            *final(self) == (App {
                tunnel_editor: None,
                tunnel_editor_content: final(self).tunnel_editor_content,
                status_message: final(self).status_message,
                ..*old(self)
            }),
            final(self).tunnel_editor_content@.len() == 0,
            final(self).status_message@ == "已取消编辑本地隧道"@,
    {
        self.tunnel_editor = None;
        self.tunnel_editor_content = String::new();
        self.status_message = "已取消编辑本地隧道".to_owned();
    }

    /// Types a character into the editor.
    pub fn append_tunnel_editor_char(&mut self, ch: char)
        ensures
            *final(self) == (App {
                tunnel_editor_content: final(self).tunnel_editor_content,
                ..*old(self)
            }),
            final(self).tunnel_editor_content@ == old(self).tunnel_editor_content@.push(ch),
    {
        string_push(&mut self.tunnel_editor_content, ch);
    }

    /// Starts a new line in the editor.
    pub fn append_tunnel_editor_newline(&mut self)
        ensures
            *final(self) == (App {
                tunnel_editor_content: final(self).tunnel_editor_content,
                ..*old(self)
            }),
            final(self).tunnel_editor_content@ == old(self).tunnel_editor_content@.push('\n'),
    {
        string_push(&mut self.tunnel_editor_content, '\n');
    }

    /// Deletes the last character in the editor.
    pub fn backspace_tunnel_editor(&mut self)
        ensures
            *final(self) == (App {
                tunnel_editor_content: final(self).tunnel_editor_content,
                ..*old(self)
            }),
            final(self).tunnel_editor_content@ == without_last(old(self).tunnel_editor_content@),
    {
        string_pop(&mut self.tunnel_editor_content);
    }

    /// Leaves the deletion prompt for an account tunnel.
    pub fn cancel_api_delete_confirm(&mut self)
        ensures
            *final(self) == (App {
                tunnel_page_mode: TunnelPageMode::List,
                api_delete_target: None,
                status_message: final(self).status_message,
                ..*old(self)
            }),
            final(self).status_message@ == (match old(self).api_delete_target {
                Some(t) => if t.name@.len() == 0 {
                    "已取消删除官方隧道"@
                } else {
                    "已取消删除官方隧道 "@ + t.name@
                },
                None => "已取消删除官方隧道"@,
            }),
    {
        let msg = match &self.api_delete_target {
            Some(t) => {
                if t.name.as_str().is_empty() {
                    chars_of("已取消删除官方隧道")
                } else {
                    let mut m = chars_of("已取消删除官方隧道 ");
                    push_str(&mut m, t.name.as_str());
                    m
                }
            },
            None => chars_of("已取消删除官方隧道"),
        };
        self.tunnel_page_mode = TunnelPageMode::List;
        self.api_delete_target = None;
        self.status_message = string_from(&msg);
    }

    /// Selects the first row the key looks for; the selection stays when
    /// there is none.
    pub fn select_item(&mut self, key: &ItemKey)
        ensures
            *final(self) == (App { selected_tunnel: final(self).selected_tunnel, ..*old(self) }),
            has_match(old(self).tunnel_items@, key_view(*key)) ==> first_match_at(
                old(self).tunnel_items@,
                key_view(*key),
                final(self).selected_tunnel as int,
            ),
            !has_match(old(self).tunnel_items@, key_view(*key)) ==> final(self).selected_tunnel == old(
                self,
            ).selected_tunnel,
    {
        match find_item(&self.tunnel_items, key) {
            Some(k) => {
                self.selected_tunnel = k;
            },
            None => {},
        }
    }

    /// Rebuilds the list rows from the account's and the local tunnels, and
    /// keeps the selection on a row (0 for an empty list).
    pub fn rebuild_tunnel_items(&mut self)
        ensures
            *final(self) == (App {
                tunnel_items: final(self).tunnel_items,
                selected_tunnel: final(self).selected_tunnel,
                ..*old(self)
            }),
            items_of(final(self).tunnel_items@, old(self).tunnels@, old(self).custom_tunnels@),
            final(self).selected_tunnel == clamped_selection(
                old(self).selected_tunnel,
                final(self).tunnel_items@.len(),
            ),
    {
        let mut items: Vec<TunnelListItem> = Vec::new();
        let mut i: usize = 0;
        while i < self.tunnels.len()
            invariant
                i <= self.tunnels.len(),
                items@.len() == i,
                forall|k: int| 0 <= k < i ==> #[trigger] items@[k] == TunnelListItem::Api(self.tunnels@[k]),
            decreases self.tunnels.len() - i,
        {
            items.push(TunnelListItem::Api(copy_tunnel(&self.tunnels[i])));
            i = i + 1;
        }
        let n = self.tunnels.len();
        let mut j: usize = 0;
        while j < self.custom_tunnels.len()
            invariant
                j <= self.custom_tunnels.len(),
                n == self.tunnels.len(),
                items@.len() == n + j,
                forall|k: int| 0 <= k < n ==> #[trigger] items@[k] == TunnelListItem::Api(self.tunnels@[k]),
                forall|k: int|
                    0 <= k < j ==> (#[trigger] items@[n + k] matches TunnelListItem::Local(t)
                        && same_custom_tunnel(t, self.custom_tunnels@[k])),
            decreases self.custom_tunnels.len() - j,
        {
            let ghost before = items@;
            items.push(TunnelListItem::Local(copy_custom_tunnel(&self.custom_tunnels[j])));
            assert(forall|k: int| 0 <= k < n + j ==> before[k] == items@[k]);
            j = j + 1;
        }
        let len = items.len();
        self.tunnel_items = items;
        if len == 0 {
            self.selected_tunnel = 0;
        } else if self.selected_tunnel >= len {
            self.selected_tunnel = len - 1;
        }
    }
}

/// `s` without its last character, if it has one.
pub open spec fn without_last(s: Seq<char>) -> Seq<char> {
    if s.len() > 0 {
        s.drop_last()
    } else {
        s
    }
}

/// A selection kept on a list of `len` rows: 0 for an empty list, else at
/// most the last row.
pub open spec fn clamped_selection(selected: usize, len: nat) -> usize {
    if len == 0 {
        0
    } else if selected >= len {
        (len - 1) as usize
    } else {
        selected
    }
}

} // verus!

verus! {

// ---------------------------------------------------------------------------
// Opening, deleting, starting and stopping the selected row
// ---------------------------------------------------------------------------

/// The part of `s` before its first comma (all of it when there is none).
pub open spec fn before_comma(s: Seq<char>) -> Seq<char> {
    match find_char(s, ',') {
        Some(p) => s.take(p),
        None => s,
    }
}

/// Whether a tunnel type is served by domain.
pub open spec fn is_web_type(t: Seq<char>) -> bool {
    t == "http"@ || t == "https"@
}

/// The address a row opens in a browser, or the status given when it has
/// none: an account tunnel opens its domain (HTTP(S)) or node address and
/// port; a local one opens its first custom domain (HTTP(S)) or its server
/// address and remote port.
pub open spec fn item_url(item: TunnelListItem) -> Result<Seq<char>, Seq<char>> {
    match item {
        TunnelListItem::Api(t) => if is_web_type(t.tunnel_type@) {
            Ok(t.tunnel_type@ + "://"@ + t.dorp@)
        } else {
            Ok("http://"@ + t.node_ip@ + ":"@ + t.dorp@)
        },
        TunnelListItem::Local(t) => {
            let ty = match t.tunnel_type {
                Some(x) => x@,
                None => "tcp"@,
            };
            if is_web_type(ty) {
                match t.custom_domains {
                    Some(d) => {
                        let domain = trim(before_comma(d@));
                        if domain.len() > 0 {
                            Ok(ty + "://"@ + domain)
                        } else {
                            Err("该本地隧道没有可打开的域名"@)
                        }
                    },
                    None => Err("该本地隧道没有可打开的域名"@),
                }
            } else {
                match (t.server_addr, t.remote_port) {
                    (Some(a), Some(p)) => Ok("http://"@ + a@ + ":"@ + decimal(p as nat)),
                    _ => Err("该本地隧道没有可打开的远程地址"@),
                }
            }
        },
    }
}

pub(crate) fn web_type(t: &str) -> (r: bool)
    ensures
        r == is_web_type(t@),
{
    str_equal(t, "http") || str_equal(t, "https")
}

fn url_of(item: &TunnelListItem) -> (r: Result<String, String>)
    ensures
        match item_url(*item) {
            Ok(u) => r matches Ok(x) && x@ == u,
            Err(m) => r matches Err(x) && x@ == m,
        },
{
    match item {
        TunnelListItem::Api(t) => {
            if web_type(t.tunnel_type.as_str()) {
                let mut v = chars_of(t.tunnel_type.as_str());
                push_str(&mut v, "://");
                push_str(&mut v, t.dorp.as_str());
                Ok(string_from(&v))
            } else {
                let mut v = chars_of("http://");
                push_str(&mut v, t.node_ip.as_str());
                push_str(&mut v, ":");
                push_str(&mut v, t.dorp.as_str());
                Ok(string_from(&v))
            }
        },
        TunnelListItem::Local(t) => {
            let ty: &str = match &t.tunnel_type {
                Some(x) => x.as_str(),
                None => "tcp",
            };
            if web_type(ty) {
                match &t.custom_domains {
                    Some(d) => {
                        let dv = chars_of(d.as_str());
                        let first = match find_char_exec(&dv, ',') {
                            Some(p) => sub_chars(&dv, 0, p),
                            None => dv,
                        };
                        assert(first@ == before_comma(d@));
                        let domain = trim_chars(&first);
                        if domain.len() > 0 {
                            let mut v = chars_of(ty);
                            push_str(&mut v, "://");
                            let mut dm = domain;
                            v.append(&mut dm);
                            Ok(string_from(&v))
                        } else {
                            Err("该本地隧道没有可打开的域名".to_owned())
                        }
                    },
                    None => Err("该本地隧道没有可打开的域名".to_owned()),
                }
            } else {
                match (&t.server_addr, t.remote_port) {
                    (Some(a), Some(p)) => {
                        let mut v = chars_of("http://");
                        push_str(&mut v, a.as_str());
                        push_str(&mut v, ":");
                        let mut digits = u64_decimal(p as u64);
                        v.append(&mut digits);
                        Ok(string_from(&v))
                    },
                    _ => Err("该本地隧道没有可打开的远程地址".to_owned()),
                }
            }
        },
    }
}

/// A status made of a label and a detail: `<label>: <detail>`.
pub open spec fn labelled_text(what: Seq<char>, err: Seq<char>) -> Seq<char> {
    what + ": "@ + err
}

/// A status made of a label and a detail: `<label>: <detail>`.
pub fn labelled_message(what: &str, err: &str) -> (r: String)
    ensures
        r@ == labelled_text(what@, err@),
{
    let mut v = chars_of(what);
    push_str(&mut v, ": ");
    push_str(&mut v, err);
    string_from(&v)
}

/// The status after a tunnel process was started:
/// `[自动启动][本地]隧道 <name> [已启动] (PID: <pid>)`.
pub open spec fn started_text(local: bool, automatic: bool, name: Seq<char>, pid: u32) -> Seq<char> {
    let head = if automatic {
        if local {
            "自动启动本地隧道 "@
        } else {
            "自动启动隧道 "@
        }
    } else if local {
        "本地隧道 "@
    } else {
        "隧道 "@
    };
    let mid = if automatic {
        " (PID: "@
    } else {
        " 已启动 (PID: "@
    };
    head + name + mid + decimal(pid as nat) + ")"@
}

/// The status after a tunnel process was started.
pub fn started_message(local: bool, automatic: bool, name: &str, pid: u32) -> (r: String)
    ensures
        r@ == started_text(local, automatic, name@, pid),
{
    let mut v = if automatic {
        if local {
            chars_of("自动启动本地隧道 ")
        } else {
            chars_of("自动启动隧道 ")
        }
    } else if local {
        chars_of("本地隧道 ")
    } else {
        chars_of("隧道 ")
    };
    push_str(&mut v, name);
    if automatic {
        push_str(&mut v, " (PID: ");
    } else {
        push_str(&mut v, " 已启动 (PID: ");
    }
    let mut digits = u64_decimal(pid as u64);
    v.append(&mut digits);
    push_str(&mut v, ")");
    string_from(&v)
}

/// The process settings of an account tunnel: its node's address, port and
/// token, the user's token, the local side, the remote port (TCP/UDP, when
/// the stored value is a port number) or the domain (HTTP/HTTPS), `info`
/// logging, TLS forced and no KCP. The local port keeps the low 16 bits of
/// the stored number.
pub open spec fn api_config(t: Tunnel, user_token: Seq<char>, c: TunnelConfig) -> bool {
    &&& c.tunnel_id == t.id
    &&& c.tunnel_name@ == t.name@
    &&& c.user_token@ == user_token
    &&& c.server_addr@ == t.node_ip@
    &&& c.server_port == t.server_port
    &&& c.node_token@ == t.node_token@
    &&& c.tunnel_type@ == t.tunnel_type@
    &&& c.local_ip@ == t.localip@
    &&& c.local_port == t.nport as u16
    &&& c.remote_port == (if t.tunnel_type@ == "tcp"@ || t.tunnel_type@ == "udp"@ {
        parse_u16(t.dorp@)
    } else {
        None
    })
    &&& (if is_web_type(t.tunnel_type@) {
        c.custom_domains matches Some(d) && d@ == t.dorp@
    } else {
        c.custom_domains is None
    })
    &&& c.http_proxy is None
    &&& c.log_level@ == "info"@
    &&& c.force_tls
    &&& !c.kcp_optimization
}

/// The user token of a stored sign-in, empty when there is none.
pub open spec fn user_token_of(u: Option<StoredUser>) -> Seq<char> {
    match u {
        Some(u) => match u.usertoken {
            Some(t) => t@,
            None => Seq::empty(),
        },
        None => Seq::empty(),
    }
}

/// Whether `id` is in the list.
pub open spec fn listed(v: Seq<i32>, id: i32) -> bool {
    v.contains(id)
}

/// The ids of `v` other than `id`, in order.
pub open spec fn without_value(v: Seq<i32>, id: i32) -> Seq<i32>
    decreases v.len(),
{
    if v.len() == 0 {
        v
    } else if v.last() == id {
        without_value(v.drop_last(), id)
    } else {
        without_value(v.drop_last(), id).push(v.last())
    }
}

/// The ids of `v` other than `id`, in order.
pub fn remove_value(v: &Vec<i32>, id: i32) -> (r: Vec<i32>)
    ensures
        r@ == without_value(v@, id),
{
    let mut kept: Vec<i32> = Vec::new();
    let mut i: usize = 0;
    assert(v@.take(0) =~= Seq::<i32>::empty());
    while i < v.len()
        invariant
            i <= v.len(),
            kept@ == without_value(v@.take(i as int), id),
        decreases v.len() - i,
    {
        assert(v@.take(i + 1).drop_last() =~= v@.take(i as int));
        if v[i] != id {
            kept.push(v[i]);
        }
        i = i + 1;
    }
    assert(v@.take(v.len() as int) =~= v@);
    kept
}

impl App {
    /// Whether a tunnel process is known to run.
    pub fn is_running(&self, tunnel_id: i32) -> (r: bool)
        ensures
            r == listed(self.running_tunnels@, tunnel_id),
    {
        contains_id(&self.running_tunnels, tunnel_id)
    }

    /// Drops a tunnel from the running ones.
    pub fn forget_running(&mut self, tunnel_id: i32)
        ensures
            *final(self) == (App { running_tunnels: final(self).running_tunnels, ..*old(self) }),
            final(self).running_tunnels@ == without_value(old(self).running_tunnels@, tunnel_id),
    {
        let kept = remove_value(&self.running_tunnels, tunnel_id);
        self.running_tunnels = kept;
    }

    /// Records a started tunnel process and its status.
    pub fn tunnel_started(&mut self, tunnel_id: i32, status: String)
        ensures
            *final(self) == (App {
                running_tunnels: final(self).running_tunnels,
                status_message: status,
                ..*old(self)
            }),
            final(self).running_tunnels@ == old(self).running_tunnels@.push(tunnel_id),
    {
        self.running_tunnels.push(tunnel_id);
        self.status_message = status;
    }

    /// Sets the status line.
    pub fn set_status(&mut self, status: String)
        ensures
            *final(self) == (App { status_message: status, ..*old(self) }),
    {
        self.status_message = status;
    }

    /// Picks the address the selected row opens in a browser. The status
    /// says what is opened, or why nothing can be; no row, no change.
    pub fn open_selected_tunnel_url(&mut self) -> (r: Option<String>)
        ensures
            old(self).selected_tunnel >= old(self).tunnel_items.len() ==> r is None && *final(self)
                == *old(self),
            old(self).selected_tunnel < old(self).tunnel_items.len() ==> {
                &&& *final(self) == (App { status_message: final(self).status_message, ..*old(self) })
                &&& match item_url(old(self).tunnel_items@[old(self).selected_tunnel as int]) {
                    Ok(u) => r matches Some(x) && x@ == u && final(self).status_message@
                        == "在浏览器中打开: "@ + u,
                    Err(m) => r is None && final(self).status_message@ == m,
                }
            },
    {
        if self.selected_tunnel >= self.tunnel_items.len() {
            return None;
        }
        match url_of(&self.tunnel_items[self.selected_tunnel]) {
            Ok(url) => {
                let mut v = chars_of("在浏览器中打开: ");
                push_str(&mut v, url.as_str());
                self.status_message = string_from(&v);
                Some(url)
            },
            Err(msg) => {
                self.status_message = msg;
                None
            },
        }
    }

    /// Asks to delete the selected row. An account tunnel is kept for the
    /// confirmation prompt; a local tunnel is handed back to be deleted.
    pub fn request_delete_selected_tunnel(&mut self) -> (r: Option<CustomTunnel>)
        ensures
            old(self).selected_tunnel >= old(self).tunnel_items.len() ==> r is None && *final(self)
                == *old(self),
            old(self).selected_tunnel < old(self).tunnel_items.len() ==> match old(
                self,
            ).tunnel_items@[old(self).selected_tunnel as int] {
                TunnelListItem::Api(t) => {
                    &&& r is None
                    &&& *final(self) == (App {
                        api_delete_target: Some(t),
                        tunnel_page_mode: TunnelPageMode::ApiDeleteConfirm,
                        status_message: final(self).status_message,
                        ..*old(self)
                    })
                    &&& final(self).status_message@ == "确认删除官方隧道 "@ + t.name@ + " 吗？"@
                },
                TunnelListItem::Local(t) => {
                    &&& r matches Some(x) && same_custom_tunnel(x, t)
                    &&& *final(self) == *old(self)
                },
            },
    {
        if self.selected_tunnel >= self.tunnel_items.len() {
            return None;
        }
        match &self.tunnel_items[self.selected_tunnel] {
            TunnelListItem::Api(t) => {
                let target = copy_tunnel(t);
                let mut v = chars_of("确认删除官方隧道 ");
                push_str(&mut v, t.name.as_str());
                push_str(&mut v, " 吗？");
                self.status_message = string_from(&v);
                self.api_delete_target = Some(target);
                self.tunnel_page_mode = TunnelPageMode::ApiDeleteConfirm;
                None
            },
            TunnelListItem::Local(t) => Some(copy_custom_tunnel(t)),
        }
    }

    /// Picks the selected row to start: refused, with a status, when it
    /// already runs or when frpc is missing.
    pub fn start_selected_tunnel(&mut self, frpc_exists: bool) -> (r: Option<TunnelListItem>)
        ensures
            old(self).selected_tunnel >= old(self).tunnel_items.len() ==> r is None && *final(self)
                == *old(self),
            old(self).selected_tunnel < old(self).tunnel_items.len() ==> {
                let item = old(self).tunnel_items@[old(self).selected_tunnel as int];
                if listed(old(self).running_tunnels@, item_id(item)) {
                    &&& r is None
                    &&& *final(self) == (App { status_message: final(self).status_message, ..*old(self) })
                    &&& final(self).status_message@ == "隧道已在运行中"@
                } else if !frpc_exists {
                    &&& r is None
                    &&& *final(self) == (App { status_message: final(self).status_message, ..*old(self) })
                    &&& final(self).status_message@ == "frpc 未下载，请按 d 下载"@
                } else {
                    &&& r matches Some(x) && same_item(x, item)
                    &&& *final(self) == *old(self)
                }
            },
    {
        if self.selected_tunnel >= self.tunnel_items.len() {
            return None;
        }
        let id = self.tunnel_items[self.selected_tunnel].id();
        if self.is_running(id) {
            self.status_message = "隧道已在运行中".to_owned();
            return None;
        }
        if !frpc_exists {
            self.status_message = "frpc 未下载，请按 d 下载".to_owned();
            return None;
        }
        Some(copy_item(&self.tunnel_items[self.selected_tunnel]))
    }

    /// Picks the selected row to stop, with its id: refused, with a status,
    /// when it does not run.
    pub fn stop_selected_tunnel(&mut self) -> (r: Option<(i32, String)>)
        ensures
            old(self).selected_tunnel >= old(self).tunnel_items.len() ==> r is None && *final(self)
                == *old(self),
            old(self).selected_tunnel < old(self).tunnel_items.len() ==> {
                let item = old(self).tunnel_items@[old(self).selected_tunnel as int];
                if listed(old(self).running_tunnels@, item_id(item)) {
                    &&& r matches Some(x) && x.0 == item_id(item) && x.1@ == item_name(item)
                    &&& *final(self) == *old(self)
                } else {
                    &&& r is None
                    &&& *final(self) == (App { status_message: final(self).status_message, ..*old(self) })
                    &&& final(self).status_message@ == "隧道未在运行"@
                }
            },
    {
        if self.selected_tunnel >= self.tunnel_items.len() {
            return None;
        }
        let item = &self.tunnel_items[self.selected_tunnel];
        let id = item.id();
        if !contains_id(&self.running_tunnels, id) {
            self.status_message = "隧道未在运行".to_owned();
            return None;
        }
        Some((id, item.name().to_owned()))
    }

    /// Records a stopped tunnel: it leaves the running ones and the status
    /// reads `<name>: <message>`.
    pub fn tunnel_stopped(&mut self, tunnel_id: i32, name: &str, message: &str)
        ensures
            *final(self) == (App {
                running_tunnels: final(self).running_tunnels,
                status_message: final(self).status_message,
                ..*old(self)
            }),
            final(self).running_tunnels@ == without_value(old(self).running_tunnels@, tunnel_id),
            final(self).status_message@ == labelled_text(name@, message@),
    {
        self.forget_running(tunnel_id);
        self.status_message = labelled_message(name, message);
    }

    /// The process settings for starting an account tunnel with the signed-in
    /// user's token.
    pub fn api_tunnel_config(&self, tunnel: &Tunnel) -> (r: TunnelConfig)
        ensures
            api_config(*tunnel, user_token_of(self.stored_user), r),
    {
        let user_token = match &self.stored_user {
            Some(u) => match &u.usertoken {
                Some(t) => t.clone(),
                None => String::new(),
            },
            None => String::new(),
        };
        let tcp_or_udp = str_equal(tunnel.tunnel_type.as_str(), "tcp") || str_equal(
            tunnel.tunnel_type.as_str(),
            "udp",
        );
        let remote_port = if tcp_or_udp {
            parse_u16_exec(&chars_of(tunnel.dorp.as_str()))
        } else {
            None
        };
        let custom_domains = if web_type(tunnel.tunnel_type.as_str()) {
            Some(tunnel.dorp.clone())
        } else {
            None
        };
        TunnelConfig {
            tunnel_id: tunnel.id,
            tunnel_name: tunnel.name.clone(),
            user_token,
            server_addr: tunnel.node_ip.clone(),
            server_port: tunnel.server_port,
            node_token: tunnel.node_token.clone(),
            tunnel_type: tunnel.tunnel_type.clone(),
            local_ip: tunnel.localip.clone(),
            local_port: #[verifier::truncate] (tunnel.nport as u16),
            remote_port,
            custom_domains,
            http_proxy: None,
            log_level: "info".to_owned(),
            force_tls: true,
            kcp_optimization: false,
        }
    }
}

} // verus!

verus! {

// ---------------------------------------------------------------------------
// Loading tunnels
// ---------------------------------------------------------------------------

/// The summary after a refresh: `已加载 <n> 个官方隧道，<m> 个本地隧道`.
pub open spec fn loaded_text(official: nat, local: nat) -> Seq<char> {
    "已加载 "@ + decimal(official) + " 个官方隧道，"@ + decimal(local) + " 个本地隧道"@
}

/// Whether the status reports a failed step of the refresh, which the
/// summary must not hide.
pub open spec fn refresh_failed(status: Seq<char>) -> bool {
    ||| starts_with(status, "获取官方隧道失败"@)
    ||| starts_with(status, "加载本地隧道失败"@)
    ||| contains_text(status, "登录已过期"@)
}

impl App {
    /// Takes in the local tunnels read from disk, or reports that they could
    /// not be read (the list then stays as it was).
    pub fn local_tunnels_loaded(&mut self, loaded: Result<Vec<CustomTunnel>, String>)
        ensures
            match loaded {
                Ok(v) => *final(self) == (App { custom_tunnels: v, ..*old(self) }),
                Err(e) => {
                    &&& *final(self) == (App { status_message: final(self).status_message, ..*old(self) })
                    &&& final(self).status_message@ == labelled_text("加载本地隧道失败"@, e@)
                },
            },
    {
        match loaded {
            Ok(v) => {
                self.custom_tunnels = v;
            },
            Err(e) => {
                self.status_message = labelled_message("加载本地隧道失败", e.as_str());
            },
        }
    }

    /// Takes in the account's tunnels: `None` when no one is signed in (the
    /// list empties), else what the server answered. An answer saying that
    /// the sign-in expired signs the user out and empties the list; another
    /// error is reported. Returns whether the user was signed out.
    pub fn account_tunnels_loaded(&mut self, fetched: Option<Result<Vec<Tunnel>, String>>) -> (r:
        bool)
        ensures
            match fetched {
                None => !r && *final(self) == (App { tunnels: final(self).tunnels, ..*old(self) })
                    && final(self).tunnels@.len() == 0,
                Some(Ok(v)) => !r && *final(self) == (App { tunnels: v, ..*old(self) }),
                Some(Err(e)) => if is_login_expired(e@) {
                    &&& r
                    &&& *final(self) == (App {
                        tunnels: final(self).tunnels,
                        stored_user: None,
                        status_message: final(self).status_message,
                        ..*old(self)
                    })
                    &&& final(self).tunnels@.len() == 0
                    &&& final(self).status_message@ == "登录已过期，请按 L 重新登录"@
                } else {
                    &&& !r
                    &&& *final(self) == (App { status_message: final(self).status_message, ..*old(self) })
                    &&& final(self).status_message@ == labelled_text("获取官方隧道失败"@, e@)
                },
            },
    {
        match fetched {
            None => {
                self.tunnels = Vec::new();
                false
            },
            Some(Ok(v)) => {
                self.tunnels = v;
                false
            },
            Some(Err(e)) => {
                if is_login_expired_error(e.as_str()) {
                    self.status_message = "登录已过期，请按 L 重新登录".to_owned();
                    self.stored_user = None;
                    self.tunnels = Vec::new();
                    true
                } else {
                    self.status_message = labelled_message("获取官方隧道失败", e.as_str());
                    false
                }
            },
        }
    }

    /// Ends a refresh: takes in the running tunnels, rebuilds the list, and
    /// sums up what was loaded unless the status reports a failure.
    pub fn finish_refresh(&mut self, running: Vec<i32>)
        ensures
            *final(self) == (App {
                running_tunnels: running,
                tunnel_items: final(self).tunnel_items,
                selected_tunnel: final(self).selected_tunnel,
                status_message: final(self).status_message,
                ..*old(self)
            }),
            items_of(final(self).tunnel_items@, old(self).tunnels@, old(self).custom_tunnels@),
            final(self).selected_tunnel == clamped_selection(
                old(self).selected_tunnel,
                final(self).tunnel_items@.len(),
            ),
            refresh_failed(old(self).status_message@) ==> final(self).status_message
                == old(self).status_message,
            !refresh_failed(old(self).status_message@) ==> final(self).status_message@
                == loaded_text(old(self).tunnels@.len(), old(self).custom_tunnels@.len()),
    {
        self.running_tunnels = running;
        self.rebuild_tunnel_items();
        let status = chars_of(self.status_message.as_str());
        let failed = starts_with_exec(&status, &chars_of("获取官方隧道失败")) || starts_with_exec(
            &status,
            &chars_of("加载本地隧道失败"),
        ) || contains_chars(&status, &chars_of("登录已过期"));
        if !failed {
            let mut v = chars_of("已加载 ");
            let mut a = u64_decimal(self.tunnels.len() as u64);
            v.append(&mut a);
            push_str(&mut v, " 个官方隧道，");
            let mut b = u64_decimal(self.custom_tunnels.len() as u64);
            v.append(&mut b);
            push_str(&mut v, " 个本地隧道");
            self.status_message = string_from(&v);
        }
    }

    /// Ends a save in the local-tunnel editor: the editor closes; the local
    /// tunnels read back are listed and the saved one selected, with the
    /// given status; a failed read is reported instead.
    pub fn local_tunnels_saved(
        &mut self,
        reloaded: Result<Vec<CustomTunnel>, String>,
        selected_id: Option<String>,
        status: String,
    )
        ensures
            final(self).tunnel_editor is None,
            final(self).tunnel_editor_content@.len() == 0,
            match reloaded {
                Err(e) => {
                    &&& *final(self) == (App {
                        tunnel_editor: None,
                        tunnel_editor_content: final(self).tunnel_editor_content,
                        status_message: final(self).status_message,
                        ..*old(self)
                    })
                    &&& final(self).status_message@ == labelled_text("重新加载本地隧道失败"@, e@)
                },
                Ok(v) => {
                    &&& *final(self) == (App {
                        tunnel_editor: None,
                        tunnel_editor_content: final(self).tunnel_editor_content,
                        custom_tunnels: v,
                        tunnel_items: final(self).tunnel_items,
                        selected_tunnel: final(self).selected_tunnel,
                        status_message: status,
                        ..*old(self)
                    })
                    &&& items_of(final(self).tunnel_items@, old(self).tunnels@, v@)
                    &&& match selected_id {
                        Some(id) => if has_match(final(self).tunnel_items@, KeyView::LocalId(id@)) {
                            first_match_at(
                                final(self).tunnel_items@,
                                KeyView::LocalId(id@),
                                final(self).selected_tunnel as int,
                            )
                        } else {
                            final(self).selected_tunnel == clamped_selection(
                                old(self).selected_tunnel,
                                final(self).tunnel_items@.len(),
                            )
                        },
                        None => final(self).selected_tunnel == clamped_selection(
                            old(self).selected_tunnel,
                            final(self).tunnel_items@.len(),
                        ),
                    }
                },
            },
    {
        self.tunnel_editor = None;
        self.tunnel_editor_content = String::new();
        match reloaded {
            Err(e) => {
                self.status_message = labelled_message("重新加载本地隧道失败", e.as_str());
            },
            Ok(v) => {
                self.custom_tunnels = v;
                self.rebuild_tunnel_items();
                match &selected_id {
                    Some(id) => {
                        self.select_item(&ItemKey::LocalId(id.as_str()));
                    },
                    None => {},
                }
                self.status_message = status;
            },
        }
    }

    /// Ends the deletion of a local tunnel: the local tunnels read back are
    /// listed, or the failed read is reported.
    pub fn local_tunnel_deleted(&mut self, reloaded: Result<Vec<CustomTunnel>, String>, name: &str)
        ensures
            match reloaded {
                Err(e) => {
                    &&& *final(self) == (App { status_message: final(self).status_message, ..*old(self) })
                    &&& final(self).status_message@ == labelled_text("删除后刷新本地隧道失败"@, e@)
                },
                Ok(v) => {
                    &&& *final(self) == (App {
                        custom_tunnels: v,
                        tunnel_items: final(self).tunnel_items,
                        selected_tunnel: final(self).selected_tunnel,
                        status_message: final(self).status_message,
                        ..*old(self)
                    })
                    &&& items_of(final(self).tunnel_items@, old(self).tunnels@, v@)
                    &&& final(self).selected_tunnel == clamped_selection(
                        old(self).selected_tunnel,
                        final(self).tunnel_items@.len(),
                    )
                    &&& final(self).status_message@ == "已删除本地隧道 "@ + name@
                },
            },
    {
        match reloaded {
            Err(e) => {
                self.status_message = labelled_message("删除后刷新本地隧道失败", e.as_str());
            },
            Ok(v) => {
                self.custom_tunnels = v;
                self.rebuild_tunnel_items();
                let mut m = chars_of("已删除本地隧道 ");
                push_str(&mut m, name);
                self.status_message = string_from(&m);
            },
        }
    }
}

/// The status after local tunnels were created: `已创建 <n> 个本地隧道`.
pub fn created_local_message(count: usize) -> (r: String)
    ensures
        r@ == "已创建 "@ + decimal(count as nat) + " 个本地隧道"@,
{
    let mut v = chars_of("已创建 ");
    let mut d = u64_decimal(count as u64);
    v.append(&mut d);
    push_str(&mut v, " 个本地隧道");
    string_from(&v)
}

/// The row selected and the status shown after the editor created local
/// tunnels: the first one created, and how many were.
pub fn created_outcome(created: &Vec<CustomTunnel>) -> (r: (Option<String>, String))
    ensures
        created@.len() == 0 ==> r.0 is None,
        created@.len() > 0 ==> (r.0 matches Some(id) && id@ == created@[0].id@),
        r.1@ == "已创建 "@ + decimal(created@.len()) + " 个本地隧道"@,
{
    let first = if created.len() > 0 {
        Some(created[0].id.clone())
    } else {
        None
    };
    (first, created_local_message(created.len()))
}

/// The row selected and the status shown after the editor updated a local
/// tunnel: that tunnel, `已更新本地隧道 <name>`.
pub fn updated_outcome(updated: &CustomTunnel) -> (r: (Option<String>, String))
    ensures
        r.0 matches Some(id) && id@ == updated.id@,
        r.1@ == "已更新本地隧道 "@ + updated.name@,
{
    let mut v = chars_of("已更新本地隧道 ");
    push_str(&mut v, updated.name.as_str());
    (Some(updated.id.clone()), string_from(&v))
}

impl App {
    /// Opens the editor on a local tunnel once its configuration was read;
    /// a failed read is reported and the editor stays closed.
    pub fn local_config_loaded(&mut self, tunnel: &CustomTunnel, loaded: Result<String, String>)
        ensures
            match loaded {
                Ok(content) => {
                    &&& *final(self) == (App {
                        tunnel_editor: final(self).tunnel_editor,
                        tunnel_editor_content: content,
                        status_message: final(self).status_message,
                        ..*old(self)
                    })
                    &&& final(self).tunnel_editor matches Some(TunnelEditorMode::Edit { tunnel_id })
                        && tunnel_id@ == tunnel.id@
                    &&& final(self).status_message@ == "正在编辑本地隧道 "@ + tunnel.name@
                },
                Err(e) => {
                    &&& *final(self) == (App { status_message: final(self).status_message, ..*old(self) })
                    &&& final(self).status_message@ == labelled_text("读取配置失败"@, e@)
                },
            },
    {
        match loaded {
            Ok(content) => {
                self.tunnel_editor = Some(TunnelEditorMode::Edit { tunnel_id: tunnel.id.clone() });
                self.tunnel_editor_content = content;
                let mut v = chars_of("正在编辑本地隧道 ");
                push_str(&mut v, tunnel.name.as_str());
                self.status_message = string_from(&v);
            },
            Err(e) => {
                self.status_message = labelled_message("读取配置失败", e.as_str());
            },
        }
    }

    /// Reports a failed save of the editor; the editor stays open with its
    /// text.
    pub fn tunnel_editor_save_failed(&mut self, err: &str)
        ensures
            *final(self) == (App { status_message: final(self).status_message, ..*old(self) }),
            final(self).status_message@ == labelled_text("保存失败"@, err@),
    {
        self.status_message = labelled_message("保存失败", err);
    }
}

} // verus!

verus! {

// ---------------------------------------------------------------------------
// The official-tunnel flow
// ---------------------------------------------------------------------------

impl App {
    /// Starts creating an official tunnel: the flow is reset and the node
    /// list is being loaded.
    pub fn begin_official_tunnel_creation(&mut self)
        ensures
            *final(self) == (App {
                official_tunnel_mode: OfficialTunnelMode::Create,
                official_node_info: None,
                api_delete_target: None,
                is_submitting_official_tunnel: false,
                official_tunnel_form: final(self).official_tunnel_form,
                status_message: final(self).status_message,
                ..*old(self)
            }),
            fresh_form(final(self).official_tunnel_form),
            final(self).status_message@ == "正在加载节点列表..."@,
    {
        self.reset_official_flow_state();
        self.status_message = "正在加载节点列表...".to_owned();
    }

    /// Takes in the node list for a new official tunnel: with nodes, node
    /// selection opens on the first one; otherwise the status says why not.
    pub fn official_nodes_loaded(&mut self, loaded: Result<Vec<Node>, String>)
        ensures
            match loaded {
                Ok(nodes) => if nodes@.len() == 0 {
                    &&& *final(self) == (App { status_message: final(self).status_message, ..*old(self) })
                    &&& final(self).status_message@ == "暂无可用节点"@
                } else {
                    &&& *final(self) == (App {
                        official_nodes: nodes,
                        selected_official_node: 0,
                        official_tunnel_mode: OfficialTunnelMode::Create,
                        tunnel_page_mode: TunnelPageMode::OfficialNodeSelect,
                        status_message: final(self).status_message,
                        ..*old(self)
                    })
                    &&& final(self).status_message@ == "请选择节点并按 Enter 继续创建官方隧道"@
                },
                Err(e) => {
                    &&& *final(self) == (App { status_message: final(self).status_message, ..*old(self) })
                    &&& final(self).status_message@ == labelled_text("获取节点列表失败"@, e@)
                },
            },
    {
        match loaded {
            Ok(nodes) => {
                if nodes.len() == 0 {
                    self.status_message = "暂无可用节点".to_owned();
                } else {
                    self.official_nodes = nodes;
                    self.selected_official_node = 0;
                    self.official_tunnel_mode = OfficialTunnelMode::Create;
                    self.tunnel_page_mode = TunnelPageMode::OfficialNodeSelect;
                    self.status_message = "请选择节点并按 Enter 继续创建官方隧道".to_owned();
                }
            },
            Err(e) => {
                self.status_message = labelled_message("获取节点列表失败", e.as_str());
            },
        }
    }

    /// Takes in the details of the selected node: the form opens with the
    /// suggested remote port; otherwise the status says why not.
    pub fn official_node_info_loaded(&mut self, node_name: &str, loaded: Result<NodeInfo, String>)
        ensures
            match loaded {
                Ok(info) => {
                    &&& *final(self) == (App {
                        official_tunnel_form: OfficialTunnelForm {
                            remote_port: final(self).official_tunnel_form.remote_port,
                            ..old(self).official_tunnel_form
                        },
                        official_node_info: Some(info),
                        tunnel_page_mode: TunnelPageMode::OfficialForm,
                        status_message: final(self).status_message,
                        ..*old(self)
                    })
                    &&& final(self).official_tunnel_form.remote_port@ == suggested_remote_port(
                        info.rport@,
                    )
                    &&& final(self).status_message@ == (if old(self).official_tunnel_mode is Edit {
                        "正在编辑节点 "@ + node_name@ + " 上的官方隧道"@
                    } else {
                        "正在为节点 "@ + node_name@ + " 创建官方隧道"@
                    })
                },
                Err(e) => {
                    &&& *final(self) == (App { status_message: final(self).status_message, ..*old(self) })
                    &&& final(self).status_message@ == labelled_text("获取节点详情失败"@, e@)
                },
            },
    {
        match loaded {
            Ok(info) => {
                self.apply_official_node_info(info);
                self.tunnel_page_mode = TunnelPageMode::OfficialForm;
                let mut v = if self.official_tunnel_mode.is_edit() {
                    chars_of("正在编辑节点 ")
                } else {
                    chars_of("正在为节点 ")
                };
                push_str(&mut v, node_name);
                if self.official_tunnel_mode.is_edit() {
                    push_str(&mut v, " 上的官方隧道");
                } else {
                    push_str(&mut v, " 创建官方隧道");
                }
                self.status_message = string_from(&v);
            },
            Err(e) => {
                self.status_message = labelled_message("获取节点详情失败", e.as_str());
            },
        }
    }

    /// Starts editing an account tunnel with the node list loaded: node
    /// selection moves to the tunnel's node and the form edits the tunnel.
    /// Returns whether the node details are to be loaded next; when not, the
    /// status says why.
    pub fn edit_nodes_loaded(&mut self, tunnel: &Tunnel, loaded: Result<Vec<Node>, String>) -> (r:
        bool)
        ensures
            match loaded {
                Err(e) => {
                    &&& !r
                    &&& *final(self) == (App { status_message: final(self).status_message, ..*old(self) })
                    &&& final(self).status_message@ == labelled_text("获取节点列表失败"@, e@)
                },
                Ok(nodes) => if nodes@.len() == 0 {
                    &&& !r
                    &&& *final(self) == (App { status_message: final(self).status_message, ..*old(self) })
                    &&& final(self).status_message@ == "暂无可用节点"@
                } else if !(exists|k: int| 0 <= k < nodes@.len() && #[trigger] nodes@[k].name@ == tunnel.node@) {
                    &&& !r
                    &&& *final(self) == (App { status_message: final(self).status_message, ..*old(self) })
                    &&& final(self).status_message@ == "当前节点 "@ + tunnel.node@ + " 不在可选节点列表中，无法编辑"@
                } else {
                    let k = final(self).selected_official_node as int;
                    &&& r
                    &&& *final(self) == (App {
                        official_nodes: nodes,
                        selected_official_node: final(self).selected_official_node,
                        official_tunnel_mode: OfficialTunnelMode::Edit { tunnel_id: tunnel.id },
                        status_message: final(self).status_message,
                        ..*old(self)
                    })
                    &&& 0 <= k < nodes@.len() && nodes@[k].name@ == tunnel.node@
                    &&& forall|j: int| 0 <= j < k ==> (#[trigger] nodes@[j]).name@ != tunnel.node@
                    &&& final(self).status_message@ == "正在加载节点 "@ + tunnel.node@ + " 的端口范围..."@
                },
            },
    {
        match loaded {
            Err(e) => {
                self.status_message = labelled_message("获取节点列表失败", e.as_str());
                false
            },
            Ok(nodes) => {
                if nodes.len() == 0 {
                    self.status_message = "暂无可用节点".to_owned();
                    return false;
                }
                let i = match node_position(&nodes, tunnel.node.as_str()) {
                    Some(i) => i,
                    None => {
                        let mut v = chars_of("当前节点 ");
                        push_str(&mut v, tunnel.node.as_str());
                        push_str(&mut v, " 不在可选节点列表中，无法编辑");
                        self.status_message = string_from(&v);
                        return false;
                    },
                };
                self.official_nodes = nodes;
                self.selected_official_node = i;
                self.official_tunnel_mode = OfficialTunnelMode::Edit { tunnel_id: tunnel.id };
                let mut v = chars_of("正在加载节点 ");
                push_str(&mut v, tunnel.node.as_str());
                push_str(&mut v, " 的端口范围...");
                self.status_message = string_from(&v);
                true
            },
        }
    }

    /// Takes in the node details for editing an account tunnel: the form is
    /// filled from the tunnel and opened; otherwise the status says why not.
    pub fn edit_node_info_loaded(&mut self, tunnel: &Tunnel, loaded: Result<NodeInfo, String>)
        ensures
            match loaded {
                Ok(info) => {
                    &&& *final(self) == (App {
                        official_tunnel_form: final(self).official_tunnel_form,
                        official_node_info: Some(info),
                        tunnel_page_mode: TunnelPageMode::OfficialForm,
                        status_message: final(self).status_message,
                        ..*old(self)
                    })
                    &&& form_of_tunnel(*tunnel, final(self).official_tunnel_form)
                    &&& final(self).status_message@ == "正在编辑官方隧道 "@ + tunnel.name@
                },
                Err(e) => {
                    &&& *final(self) == (App { status_message: final(self).status_message, ..*old(self) })
                    &&& final(self).status_message@ == labelled_text("获取节点详情失败"@, e@)
                },
            },
    {
        match loaded {
            Ok(info) => {
                self.apply_official_node_info(info);
                self.official_tunnel_form = tunnel_form(tunnel);
                self.tunnel_page_mode = TunnelPageMode::OfficialForm;
                let mut v = chars_of("正在编辑官方隧道 ");
                push_str(&mut v, tunnel.name.as_str());
                self.status_message = string_from(&v);
            },
            Err(e) => {
                self.status_message = labelled_message("获取节点详情失败", e.as_str());
            },
        }
    }
}

fn node_position(nodes: &Vec<Node>, name: &str) -> (r: Option<usize>)
    ensures
        r matches Some(i) ==> i < nodes.len() && nodes@[i as int].name@ == name@ && forall|j: int|
            0 <= j < i ==> (#[trigger] nodes@[j]).name@ != name@,
        r is None ==> forall|j: int| 0 <= j < nodes.len() ==> (#[trigger] nodes@[j]).name@ != name@,
{
    let mut i: usize = 0;
    while i < nodes.len()
        invariant
            i <= nodes.len(),
            forall|j: int| 0 <= j < i ==> (#[trigger] nodes@[j]).name@ != name@,
        decreases nodes.len() - i,
    {
        if str_equal(nodes[i].name.as_str(), name) {
            return Some(i);
        }
        i = i + 1;
    }
    None
}

/// The form that edits an account tunnel: its name, local IP and port, its
/// domain (HTTP(S)) or remote port (otherwise), its protocol, and the first
/// field selected.
pub open spec fn form_of_tunnel(t: Tunnel, f: OfficialTunnelForm) -> bool {
    let web = is_web_type(t.tunnel_type@);
    &&& f.tunnel_name@ == t.name@
    &&& f.local_ip@ == t.localip@
    &&& f.local_port@ == int_decimal(t.nport as int)
    &&& f.remote_port@ == (if web {
        Seq::empty()
    } else {
        t.dorp@
    })
    &&& f.domain@ == (if web {
        t.dorp@
    } else {
        Seq::empty()
    })
    &&& f.protocol == protocol_of(t.tunnel_type@)
    &&& !f.encryption
    &&& !f.compression
    &&& f.selected_field == 0
}

/// The form that edits an account tunnel.
pub fn tunnel_form(t: &Tunnel) -> (r: OfficialTunnelForm)
    ensures
        form_of_tunnel(*t, r),
{
    let web = web_type(t.tunnel_type.as_str());
    OfficialTunnelForm {
        tunnel_name: t.name.clone(),
        local_ip: t.localip.clone(),
        local_port: string_from(&i64_decimal(t.nport as i64)),
        remote_port: if web {
            String::new()
        } else {
            t.dorp.clone()
        },
        domain: if web {
            t.dorp.clone()
        } else {
            String::new()
        },
        protocol: OfficialTunnelProtocol::from_tunnel_type(t.tunnel_type.as_str()),
        encryption: false,
        compression: false,
        selected_field: 0,
    }
}

} // verus!

verus! {

// ---------------------------------------------------------------------------
// Submitting the official-tunnel form
// ---------------------------------------------------------------------------

/// An official tunnel to create, or to update when `tunnel_id` is set.
#[derive(Debug, Clone)]
pub struct OfficialTunnelRequest {
    pub tunnel_id: Option<i32>,
    pub tunnelname: String,
    pub node: String,
    pub localip: String,
    pub porttype: String,
    pub localport: u16,
    pub encryption: bool,
    pub compression: bool,
    pub extraparams: String,
    pub remoteport: Option<u16>,
    pub banddomain: Option<String>,
}

/// The values of an [`OfficialTunnelRequest`].
pub struct RequestView {
    pub tunnel_id: Option<i32>,
    pub tunnelname: Seq<char>,
    pub node: Seq<char>,
    pub localip: Seq<char>,
    pub porttype: Seq<char>,
    pub localport: u16,
    pub encryption: bool,
    pub compression: bool,
    pub extraparams: Seq<char>,
    pub remoteport: Option<u16>,
    pub banddomain: Option<Seq<char>>,
}

/// The values of a request.
pub open spec fn request_view(r: OfficialTunnelRequest) -> RequestView {
    RequestView {
        tunnel_id: r.tunnel_id,
        tunnelname: r.tunnelname@,
        node: r.node@,
        localip: r.localip@,
        porttype: r.porttype@,
        localport: r.localport,
        encryption: r.encryption,
        compression: r.compression,
        extraparams: r.extraparams@,
        remoteport: r.remoteport,
        banddomain: opt_chars(r.banddomain),
    }
}

/// The characters of an optional string.
pub open spec fn opt_chars(o: Option<String>) -> Option<Seq<char>> {
    match o {
        Some(s) => Some(s@),
        None => None,
    }
}

/// A port typed into the form: a `u16` other than 0, spaces around it ignored.
pub open spec fn typed_port(s: Seq<char>) -> Option<u16> {
    match parse_u16(trim(s)) {
        Some(p) => if p > 0 {
            Some(p)
        } else {
            None
        },
        None => None,
    }
}

/// What submitting the form asks of the API, or the status that refuses it:
/// a node must be selected, the name and local IP filled in, the local port
/// valid, and then either a domain (HTTP(S)) or a valid remote port within
/// the node's ranges, when they are known.
pub open spec fn submission(a: App) -> Result<RequestView, Seq<char>> {
    let f = a.official_tunnel_form;
    let name = trim(f.tunnel_name@);
    let ip = trim(f.local_ip@);
    if a.selected_official_node >= a.official_nodes.len() {
        Err("请选择节点"@)
    } else if name.len() == 0 {
        Err("请输入隧道名称"@)
    } else if ip.len() == 0 {
        Err("请输入本地 IP"@)
    } else if typed_port(f.local_port@) is None {
        Err("请输入有效的本地端口"@)
    } else {
        let req = RequestView {
            tunnel_id: match a.official_tunnel_mode {
                OfficialTunnelMode::Edit { tunnel_id } => Some(tunnel_id),
                OfficialTunnelMode::Create => None,
            },
            tunnelname: name,
            node: a.official_nodes[a.selected_official_node as int].name@,
            localip: ip,
            porttype: protocol_label(f.protocol),
            localport: typed_port(f.local_port@).unwrap(),
            encryption: f.encryption,
            compression: f.compression,
            extraparams: Seq::empty(),
            remoteport: None,
            banddomain: None,
        };
        if is_http_protocol(f.protocol) {
            let domain = trim(f.domain@);
            if domain.len() == 0 {
                Err("请输入域名"@)
            } else {
                Ok(RequestView { banddomain: Some(domain), ..req })
            }
        } else {
            match typed_port(f.remote_port@) {
                None => Err("请输入有效的远程端口"@),
                Some(rp) => match a.official_node_info {
                    Some(info) => if !port_allowed(rp, info.rport@) {
                        Err("远程端口必须在节点允许范围内: "@ + info.rport@)
                    } else {
                        Ok(RequestView { remoteport: Some(rp), ..req })
                    },
                    None => Ok(RequestView { remoteport: Some(rp), ..req }),
                },
            }
        }
    }
}

fn typed_port_exec(s: &str) -> (r: Option<u16>)
    ensures
        r == typed_port(s@),
{
    match parse_u16_exec(&trim_chars(&chars_of(s))) {
        Some(p) => if p > 0 {
            Some(p)
        } else {
            None
        },
        None => None,
    }
}

impl App {
    /// Checks the form before it is submitted. While a submission is under
    /// way nothing happens; a form that is refused leaves its reason in the
    /// status; otherwise the request to send is returned.
    pub fn prepare_official_submission(&mut self) -> (r: Option<OfficialTunnelRequest>)
        ensures
            old(self).is_submitting_official_tunnel ==> r is None && *final(self) == *old(self),
            !old(self).is_submitting_official_tunnel ==> match submission(*old(self)) {
                Ok(v) => r matches Some(x) && request_view(x) == v && *final(self) == *old(self),
                Err(m) => {
                    &&& r is None
                    &&& *final(self) == (App { status_message: final(self).status_message, ..*old(self) })
                    &&& final(self).status_message@ == m
                },
            },
    {
        if self.is_submitting_official_tunnel {
            return None;
        }
        if self.selected_official_node >= self.official_nodes.len() {
            self.status_message = "请选择节点".to_owned();
            return None;
        }
        let name = trim_chars(&chars_of(self.official_tunnel_form.tunnel_name.as_str()));
        if name.len() == 0 {
            self.status_message = "请输入隧道名称".to_owned();
            return None;
        }
        let ip = trim_chars(&chars_of(self.official_tunnel_form.local_ip.as_str()));
        if ip.len() == 0 {
            self.status_message = "请输入本地 IP".to_owned();
            return None;
        }
        let local_port = match typed_port_exec(self.official_tunnel_form.local_port.as_str()) {
            Some(p) => p,
            None => {
                self.status_message = "请输入有效的本地端口".to_owned();
                return None;
            },
        };
        let protocol = self.official_tunnel_form.protocol;
        let (remoteport, banddomain) = if protocol.is_http() {
            let domain = trim_chars(&chars_of(self.official_tunnel_form.domain.as_str()));
            if domain.len() == 0 {
                self.status_message = "请输入域名".to_owned();
                return None;
            }
            (None, Some(string_from(&domain)))
        } else {
            let remote = match typed_port_exec(self.official_tunnel_form.remote_port.as_str()) {
                Some(p) => p,
                None => {
                    self.status_message = "请输入有效的远程端口".to_owned();
                    return None;
                },
            };
            match &self.official_node_info {
                Some(info) => {
                    if !port_is_in_allowed_range(remote, info.rport.as_str()) {
                        let mut v = chars_of("远程端口必须在节点允许范围内: ");
                        push_str(&mut v, info.rport.as_str());
                        self.status_message = string_from(&v);
                        return None;
                    }
                },
                None => {},
            }
            (Some(remote), None)
        };
        let tunnel_id = match self.official_tunnel_mode {
            OfficialTunnelMode::Edit { tunnel_id } => Some(tunnel_id),
            OfficialTunnelMode::Create => None,
        };
        Some(
            OfficialTunnelRequest {
                tunnel_id,
                tunnelname: string_from(&name),
                node: self.official_nodes[self.selected_official_node].name.clone(),
                localip: string_from(&ip),
                porttype: protocol.label().to_owned(),
                localport: local_port,
                encryption: self.official_tunnel_form.encryption,
                compression: self.official_tunnel_form.compression,
                extraparams: String::new(),
                remoteport,
                banddomain,
            },
        )
    }

    /// The status when a submission cannot be sent because no one is signed in.
    pub fn official_submission_unauthorized(&mut self)
        ensures
            *final(self) == (App { status_message: final(self).status_message, ..*old(self) }),
            final(self).status_message@ == (if old(self).official_tunnel_mode is Edit {
                "未登录，无法更新官方隧道"@
            } else {
                "未登录，无法创建官方隧道"@
            }),
    {
        if self.official_tunnel_mode.is_edit() {
            self.status_message = "未登录，无法更新官方隧道".to_owned();
        } else {
            self.status_message = "未登录，无法创建官方隧道".to_owned();
        }
    }

    /// Marks a request as sent.
    pub fn official_submission_started(&mut self, request: &OfficialTunnelRequest)
        ensures
            *final(self) == (App {
                is_submitting_official_tunnel: true,
                status_message: final(self).status_message,
                ..*old(self)
            }),
            final(self).status_message@ == (if request.tunnel_id is Some {
                "正在更新官方隧道 "@
            } else {
                "正在创建官方隧道 "@
            }) + request.tunnelname@ + "..."@,
    {
        self.is_submitting_official_tunnel = true;
        let mut v = if request.tunnel_id.is_some() {
            chars_of("正在更新官方隧道 ")
        } else {
            chars_of("正在创建官方隧道 ")
        };
        push_str(&mut v, request.tunnelname.as_str());
        push_str(&mut v, "...");
        self.status_message = string_from(&v);
    }

    /// Takes in a refused request: the form may be sent again and the
    /// status reports the error.
    pub fn official_submission_failed(&mut self, request: &OfficialTunnelRequest, err: &str)
        ensures
            *final(self) == (App {
                is_submitting_official_tunnel: false,
                status_message: final(self).status_message,
                ..*old(self)
            }),
            final(self).status_message@ == labelled_text(
                if request.tunnel_id is Some {
                    "更新官方隧道失败"@
                } else {
                    "创建官方隧道失败"@
                },
                err@,
            ),
    {
        self.is_submitting_official_tunnel = false;
        let what = if request.tunnel_id.is_some() {
            "更新官方隧道失败"
        } else {
            "创建官方隧道失败"
        };
        self.status_message = labelled_message(what, err);
    }

    /// Leaves the flow after an accepted request, before the list is reloaded.
    pub fn official_submission_accepted(&mut self)
        ensures
            *final(self) == (App {
                tunnel_page_mode: TunnelPageMode::List,
                official_nodes: final(self).official_nodes,
                official_tunnel_mode: OfficialTunnelMode::Create,
                official_node_info: None,
                api_delete_target: None,
                is_submitting_official_tunnel: false,
                official_tunnel_form: final(self).official_tunnel_form,
                ..*old(self)
            }),
            final(self).official_nodes@.len() == 0,
            fresh_form(final(self).official_tunnel_form),
    {
        self.tunnel_page_mode = TunnelPageMode::List;
        self.official_nodes = Vec::new();
        self.reset_official_flow_state();
    }

    /// After the list is reloaded, selects the created or updated tunnel and
    /// reports it.
    pub fn official_submission_done(&mut self, request: &OfficialTunnelRequest)
        ensures
            *final(self) == (App {
                selected_tunnel: final(self).selected_tunnel,
                status_message: final(self).status_message,
                ..*old(self)
            }),
            ({
                let key = match request.tunnel_id {
                    Some(id) => KeyView::ApiId(id),
                    None => KeyView::ApiName(request.tunnelname@),
                };
                &&& has_match(old(self).tunnel_items@, key) ==> first_match_at(
                    old(self).tunnel_items@,
                    key,
                    final(self).selected_tunnel as int,
                )
                &&& !has_match(old(self).tunnel_items@, key) ==> final(self).selected_tunnel == old(
                    self,
                ).selected_tunnel
            }),
            final(self).status_message@ == (match request.tunnel_id {
                Some(_) => "已更新官方隧道 "@ + request.tunnelname@,
                None => "已在节点 "@ + request.node@ + " 创建官方隧道 "@ + request.tunnelname@,
            }),
    {
        match request.tunnel_id {
            Some(id) => {
                self.select_item(&ItemKey::ApiId(id));
                let mut v = chars_of("已更新官方隧道 ");
                push_str(&mut v, request.tunnelname.as_str());
                self.status_message = string_from(&v);
            },
            None => {
                self.select_item(&ItemKey::ApiName(request.tunnelname.as_str()));
                let mut v = chars_of("已在节点 ");
                push_str(&mut v, request.node.as_str());
                push_str(&mut v, " 创建官方隧道 ");
                push_str(&mut v, request.tunnelname.as_str());
                self.status_message = string_from(&v);
            },
        }
    }
}

} // verus!

verus! {

// ---------------------------------------------------------------------------
// Deleting account tunnels, starting marked tunnels, background results
// ---------------------------------------------------------------------------

/// The most log lines kept.
pub const MAX_LOGS: usize = 5000;

/// A row that is to be started at launch: it is marked for it, it does not
/// run yet, and an account tunnel needs a signed-in user.
pub open spec fn auto_start_wanted(
    item: TunnelListItem,
    marked: Seq<i32>,
    running: Seq<i32>,
    signed_in: bool,
) -> bool {
    &&& listed(marked, item_id(item))
    &&& !listed(running, item_id(item))
    &&& (item is Api ==> signed_in)
}

/// The rows to start at launch, in list order.
pub open spec fn auto_start_items(
    items: Seq<TunnelListItem>,
    marked: Seq<i32>,
    running: Seq<i32>,
    signed_in: bool,
) -> Seq<TunnelListItem>
    decreases items.len(),
{
    if items.len() == 0 {
        Seq::empty()
    } else {
        let rest = auto_start_items(items.drop_last(), marked, running, signed_in);
        if auto_start_wanted(items.last(), marked, running, signed_in) {
            rest.push(items.last())
        } else {
            rest
        }
    }
}

/// Two row lists hold the same values, row by row.
pub open spec fn same_items(a: Seq<TunnelListItem>, b: Seq<TunnelListItem>) -> bool {
    a.len() == b.len() && forall|i: int| 0 <= i < a.len() ==> same_item(#[trigger] a[i], b[i])
}

impl App {
    /// Starts the confirmed deletion of an account tunnel: the tunnel to
    /// delete, or, when there is none, back to the list with a status.
    pub fn confirm_api_delete(&mut self) -> (r: Option<Tunnel>)
        ensures
            match old(self).api_delete_target {
                Some(t) => r == Some(t) && *final(self) == *old(self),
                None => {
                    &&& r is None
                    &&& *final(self) == (App {
                        tunnel_page_mode: TunnelPageMode::List,
                        status_message: final(self).status_message,
                        ..*old(self)
                    })
                    &&& final(self).status_message@ == "没有可删除的官方隧道"@
                },
            },
    {
        match &self.api_delete_target {
            Some(t) => Some(copy_tunnel(t)),
            None => {
                self.tunnel_page_mode = TunnelPageMode::List;
                self.status_message = "没有可删除的官方隧道".to_owned();
                None
            },
        }
    }

    /// Leaves the deletion prompt after the server deleted the tunnel.
    pub fn api_tunnel_deleted(&mut self)
        ensures
            *final(self) == (App {
                tunnel_page_mode: TunnelPageMode::List,
                api_delete_target: None,
                ..*old(self)
            }),
    {
        self.tunnel_page_mode = TunnelPageMode::List;
        self.api_delete_target = None;
    }

    /// The rows to start at launch. Nothing when starting at launch is off;
    /// nothing, with a status, when frpc is missing; otherwise the rows that
    /// are marked, not running (as `running` lists them) and, for account
    /// tunnels, started by a signed-in user.
    pub fn auto_start_candidates(
        &mut self,
        enabled: bool,
        frpc_exists: bool,
        marked: &Vec<i32>,
        running: &Vec<i32>,
        signed_in: bool,
    ) -> (r: Vec<TunnelListItem>)
        ensures
            !enabled ==> r@.len() == 0 && *final(self) == *old(self),
            enabled && !frpc_exists ==> {
                &&& r@.len() == 0
                &&& *final(self) == (App { status_message: final(self).status_message, ..*old(self) })
                &&& final(self).status_message@ == "frpc 未下载，无法自动启动隧道"@
            },
            enabled && frpc_exists ==> {
                &&& *final(self) == *old(self)
                &&& same_items(
                    r@,
                    auto_start_items(old(self).tunnel_items@, marked@, running@, signed_in),
                )
            },
    {
        let mut out: Vec<TunnelListItem> = Vec::new();
        if !enabled {
            return out;
        }
        if !frpc_exists {
            self.status_message = "frpc 未下载，无法自动启动隧道".to_owned();
            return out;
        }
        let mut i: usize = 0;
        assert(self.tunnel_items@.take(0) =~= Seq::<TunnelListItem>::empty());
        while i < self.tunnel_items.len()
            invariant
                i <= self.tunnel_items.len(),
                same_items(
                    out@,
                    auto_start_items(self.tunnel_items@.take(i as int), marked@, running@, signed_in),
                ),
            decreases self.tunnel_items.len() - i,
        {
            let ghost before = out@;
            let ghost prefix = self.tunnel_items@.take(i + 1);
            assert(prefix.drop_last() =~= self.tunnel_items@.take(i as int));
            assert(prefix.last() == self.tunnel_items@[i as int]);
            let item = &self.tunnel_items[i];
            let id = item.id();
            let api = match item {
                TunnelListItem::Api(_) => true,
                TunnelListItem::Local(_) => false,
            };
            if contains_id(marked, id) && !contains_id(running, id) && (!api || signed_in) {
                out.push(copy_item(item));
                assert(same_items(
                    out@,
                    auto_start_items(prefix, marked@, running@, signed_in),
                )) by {
                    assert forall|k: int| 0 <= k < out@.len() implies same_item(
                        #[trigger] out@[k],
                        auto_start_items(prefix, marked@, running@, signed_in)[k],
                    ) by {
                        if k < before.len() {
                            assert(out@[k] == before[k]);
                        }
                    }
                }
            }
            i = i + 1;
        }
        assert(self.tunnel_items@.take(self.tunnel_items.len() as int) =~= self.tunnel_items@);
        out
    }

    /// Adds a log line, keeping only the last [`MAX_LOGS`] lines.
    pub fn push_log(&mut self, log: LogMessage)
        ensures
            *final(self) == (App { logs: final(self).logs, ..*old(self) }),
            final(self).logs@ == keep_last(old(self).logs@.push(log), MAX_LOGS as nat),
    {
        self.logs.push(log);
        let n = self.logs.len();
        if n > MAX_LOGS {
            let kept = self.logs.split_off(n - MAX_LOGS);
            self.logs = kept;
        }
    }

    /// Takes in the end of the device sign-in: on success the user is signed
    /// in, the main screen shown and a refresh asked for; otherwise the
    /// sign-in screen shows the error.
    pub fn login_finished(&mut self, result: Result<StoredUser, String>)
        ensures
            match result {
                Ok(user) => {
                    &&& *final(self) == (App {
                        stored_user: Some(user),
                        screen: Screen::Main,
                        login_state: LoginState::Idle,
                        needs_refresh: true,
                        status_message: final(self).status_message,
                        ..*old(self)
                    })
                    &&& final(self).status_message@ == "登录成功！正在刷新隧道列表..."@
                },
                Err(e) => *final(self) == (App {
                    login_state: LoginState::Error,
                    login_error: e,
                    ..*old(self)
                }),
            },
    {
        match result {
            Ok(user) => {
                self.stored_user = Some(user);
                self.screen = Screen::Main;
                self.login_state = LoginState::Idle;
                self.needs_refresh = true;
                self.status_message = "登录成功！正在刷新隧道列表...".to_owned();
            },
            Err(e) => {
                self.login_state = LoginState::Error;
                self.login_error = e;
            },
        }
    }

    /// Takes in the end of a frpc download: the status names the installed
    /// file or the error, and the download is over.
    pub fn download_finished(&mut self, result: Result<String, String>)
        ensures
            *final(self) == (App {
                is_downloading: false,
                status_message: final(self).status_message,
                ..*old(self)
            }),
            final(self).status_message@ == (match result {
                Ok(path) => labelled_text("frpc 下载完成"@, path@),
                Err(e) => labelled_text("下载失败"@, e@),
            }),
    {
        match result {
            Ok(path) => {
                self.status_message = labelled_message("frpc 下载完成", path.as_str());
            },
            Err(e) => {
                self.status_message = labelled_message("下载失败", e.as_str());
            },
        }
        self.is_downloading = false;
    }
}

} // verus!

verus! {

// ---------------------------------------------------------------------------
// The background service
// ---------------------------------------------------------------------------

/// The account tunnels the background service starts: those marked to start
/// and not running yet, in order.
pub open spec fn daemon_candidates(tunnels: Seq<Tunnel>, running: Seq<i32>, marked: Seq<i32>) -> Seq<
    Tunnel,
>
    decreases tunnels.len(),
{
    if tunnels.len() == 0 {
        Seq::empty()
    } else {
        let rest = daemon_candidates(tunnels.drop_last(), running, marked);
        let t = tunnels.last();
        if !listed(running, t.id) && listed(marked, t.id) {
            rest.push(t)
        } else {
            rest
        }
    }
}

/// The account tunnels the background service starts.
pub fn daemon_start_candidates(tunnels: &Vec<Tunnel>, running: &Vec<i32>, marked: &Vec<i32>) -> (r:
    Vec<Tunnel>)
    ensures
        r@ == daemon_candidates(tunnels@, running@, marked@),
{
    let mut out: Vec<Tunnel> = Vec::new();
    let mut i: usize = 0;
    assert(tunnels@.take(0) =~= Seq::<Tunnel>::empty());
    while i < tunnels.len()
        invariant
            i <= tunnels.len(),
            out@ == daemon_candidates(tunnels@.take(i as int), running@, marked@),
        decreases tunnels.len() - i,
    {
        assert(tunnels@.take(i + 1).drop_last() =~= tunnels@.take(i as int));
        let t = &tunnels[i];
        if !contains_id(running, t.id) && contains_id(marked, t.id) {
            out.push(copy_tunnel(t));
        }
        i = i + 1;
    }
    assert(tunnels@.take(tunnels.len() as int) =~= tunnels@);
    out
}

/// The systemd unit that runs the launcher as a background service for
/// `user`, started from `exe_path`.
pub open spec fn service_unit(user: Seq<char>, exe_path: Seq<char>) -> Seq<char> {
    "[Unit]\nDescription=ChmlFrp Launcher TUI Daemon\nAfter=network.target\n\n[Service]\nType=simple\nUser="@
        + user + "\nExecStart="@ + exe_path
        + " --daemon\nRestart=on-failure\nRestartSec=10\n\n[Install]\nWantedBy=multi-user.target\n"@
}

/// The systemd unit that runs the launcher as a background service.
pub fn generate_systemd_service(user: &str, exe_path: &str) -> (r: String)
    ensures
        r@ == service_unit(user@, exe_path@),
{
    let mut v = chars_of(
        "[Unit]\nDescription=ChmlFrp Launcher TUI Daemon\nAfter=network.target\n\n[Service]\nType=simple\nUser=",
    );
    push_str(&mut v, user);
    push_str(&mut v, "\nExecStart=");
    push_str(&mut v, exe_path);
    push_str(
        &mut v,
        " --daemon\nRestart=on-failure\nRestartSec=10\n\n[Install]\nWantedBy=multi-user.target\n",
    );
    string_from(&v)
}

} // verus!

verus! {

// ---------------------------------------------------------------------------
// Laws of the screen state
// ---------------------------------------------------------------------------

/// After the list is rebuilt the selection is a row of it (0 when it is
/// empty), and it stays where it was when that is still a row.
pub proof fn rebuilt_selection_is_a_row(selected: usize, len: nat)
    ensures
        len > 0 ==> clamped_selection(selected, len) < len,
        len == 0 ==> clamped_selection(selected, len) == 0,
        selected < len ==> clamped_selection(selected, len) == selected,
{
}

/// The remote port the form fills in from a node's details lies in the
/// node's ranges, and, unless it is 0, the form reads it back as that port
/// when it is submitted.
pub proof fn suggested_port_is_accepted(rport: Seq<char>)
    ensures
        first_port(pieces(rport)) matches Some(p) ==> {
            &&& port_allowed(p, rport)
            &&& p > 0 ==> typed_port(suggested_remote_port(rport)) == Some(p)
        },
{
    crate::tui::first_allowed_port_is_allowed(rport);
    if let Some(p) = first_port(pieces(rport)) {
        let d = decimal(p as nat);
        crate::numbers::decimal_u16_parses(p);
        crate::numbers::decimal_reads_back(p as nat);
        assert(crate::numbers::is_digit(d[0]));
        assert(crate::numbers::is_digit(d.last())) by {
            assert(d.last() == d[d.len() - 1]);
        }
        assert(crate::text::trim_start(d) == d);
        assert(crate::text::trim_end(d) == d);
    }
}

} // verus!

verus! {

/// The log after taking in `msgs`, one `push_log` each, in order.
pub open spec fn logs_after(logs: Seq<LogMessage>, msgs: Seq<LogMessage>) -> Seq<LogMessage>
    decreases msgs.len(),
{
    if msgs.len() == 0 {
        logs
    } else {
        keep_last(logs_after(logs, msgs.drop_last()).push(msgs.last()), MAX_LOGS as nat)
    }
}

proof fn lemma_keep_last_push<A>(s: Seq<A>, a: A, n: nat)
    ensures
        keep_last(keep_last(s, n).push(a), n) == keep_last(s.push(a), n),
{
    let k = keep_last(s, n);
    if s.len() > n {
        assert(keep_last(k.push(a), n) =~= keep_last(s.push(a), n));
    }
}

/// Taking in any run of log lines one by one, from a log within the cap,
/// leaves exactly the last [`MAX_LOGS`] lines of the old log followed by
/// the new lines, in order; so the log never exceeds the cap.
pub proof fn draining_logs_keeps_last(logs: Seq<LogMessage>, msgs: Seq<LogMessage>)
    requires
        logs.len() <= MAX_LOGS,
    ensures
        logs_after(logs, msgs) == keep_last(logs + msgs, MAX_LOGS as nat),
        logs_after(logs, msgs).len() <= MAX_LOGS,
    decreases msgs.len(),
{
    if msgs.len() == 0 {
        assert(logs + msgs =~= logs);
    } else {
        draining_logs_keeps_last(logs, msgs.drop_last());
        lemma_keep_last_push(logs + msgs.drop_last(), msgs.last(), MAX_LOGS as nat);
        assert((logs + msgs.drop_last()).push(msgs.last()) =~= logs + msgs);
    }
}

} // verus!
