//! Data carried between the launcher's parts: tunnel settings, account and
//! node records, persisted process records and log lines.

use vstd::prelude::*;
use std::collections::{HashMap, HashSet};

verus! {

/// The frpc release feed, as the download API answers.
#[derive(Debug, Clone)]
pub struct FrpcInfoResponse {
    pub msg: String,
    pub state: String,
    pub code: u32,
    pub data: FrpcInfoData,
}

/// Payload of the frpc release feed.
#[derive(Debug, Clone)]
pub struct FrpcInfoData {
    pub downloads: Vec<FrpcDownload>,
    pub version: String,
    pub release_notes: Vec<String>,
}

/// One downloadable frpc build.
#[derive(Debug, Clone)]
pub struct FrpcDownload {
    pub hash: String,
    pub os: String,
    pub hash_type: String,
    pub platform: String,
    pub link: String,
    pub arch: String,
    pub size: u64,
}

/// The build chosen for this machine.
#[derive(Debug, Clone)]
pub struct DownloadInfo {
    pub url: String,
    pub hash: String,
    pub size: u64,
}

/// How a guarded tunnel is restarted: from an API tunnel's settings, or
/// from a local tunnel's id.
#[derive(Clone, Debug)]
pub enum TunnelType {
    Api { config: TunnelConfig },
    Custom { original_id: String },
}

/// A process under guard.
#[derive(Clone, Debug)]
pub struct ProcessGuardInfo {
    pub tunnel_id: i32,
    pub tunnel_type: TunnelType,
}

/// The process guard's state: whether it is on, the guarded processes by
/// tunnel id, and the tunnels the user stopped by hand.
pub struct ProcessGuardState {
    pub enabled: bool,
    pub guarded_processes: HashMap<i32, ProcessGuardInfo>,
    pub manually_stopped: HashSet<i32>,
}

impl ProcessGuardState {
    /// A disabled guard with nothing guarded and nothing stopped by hand.
    pub fn new() -> (r: Self)
        ensures
            !r.enabled,
            r.guarded_processes@ == Map::<i32, ProcessGuardInfo>::empty(),
            r.manually_stopped@ == Set::<i32>::empty(),
    {
        ProcessGuardState {
            enabled: false,
            guarded_processes: HashMap::new(),
            manually_stopped: HashSet::new(),
        }
    }
}

/// One line of a tunnel's log.
#[derive(Clone, Debug)]
pub struct LogMessage {
    pub tunnel_id: i32,
    pub message: String,
    pub timestamp: String,
}

/// Everything needed to write an frpc configuration for an API tunnel.
#[derive(Debug, Clone)]
pub struct TunnelConfig {
    pub tunnel_id: i32,
    pub tunnel_name: String,
    pub user_token: String,
    pub server_addr: String,
    pub server_port: u16,
    pub node_token: String,
    pub tunnel_type: String,
    pub local_ip: String,
    pub local_port: u16,
    pub remote_port: Option<u16>,
    pub custom_domains: Option<String>,
    pub http_proxy: Option<String>,
    pub log_level: String,
    pub force_tls: bool,
    pub kcp_optimization: bool,
}

/// An API tunnel as the server lists it (traffic counters aside).
#[derive(Debug, Clone)]
pub struct Tunnel {
    pub id: i32,
    pub name: String,
    pub localip: String,
    pub tunnel_type: String,
    pub nport: i32,
    pub dorp: String,
    pub node: String,
    pub ap: String,
    pub uptime: Option<String>,
    pub client_version: Option<String>,
    pub cur_conns: Option<i32>,
    pub nodestate: String,
    pub ip: String,
    pub node_ip: String,
    pub node_ipv6: Option<String>,
    pub server_port: u16,
    pub node_token: String,
}

/// The signed-in account.
#[derive(Debug, Clone)]
pub struct UserInfo {
    pub id: i32,
    pub username: String,
    pub userimg: String,
    pub usertoken: String,
    pub usergroup: String,
    pub bandwidth: i32,
    pub tunnel: i32,
    pub realname: String,
    pub integral: i32,
    pub term: String,
    pub tunnel_count: i32,
    pub total_cur_conns: Option<i32>,
}

/// A node in the node list.
#[derive(Debug, Clone)]
pub struct Node {
    pub id: i32,
    pub name: String,
    pub area: String,
    pub nodegroup: String,
    pub china: String,
    pub web: String,
    pub udp: String,
    pub fangyu: String,
    pub notes: String,
}

/// A node's details.
#[derive(Debug, Clone)]
pub struct NodeInfo {
    pub id: i32,
    pub name: String,
    pub area: String,
    pub nodegroup: String,
    pub china: String,
    pub web: String,
    pub udp: String,
    pub fangyu: String,
    pub notes: String,
    pub ip: String,
    pub port: u16,
    pub admin_port: Option<u16>,
    pub rport: String,
    pub state: String,
    pub nodetoken: String,
    pub real_ip: Option<String>,
    pub ipv6: Option<String>,
    pub version: Option<String>,
}

/// The stored sign-in.
#[derive(Debug, Clone)]
pub struct StoredUser {
    pub username: String,
    pub usergroup: String,
    pub userimg: Option<String>,
    pub usertoken: Option<String>,
    pub access_token: Option<String>,
    pub refresh_token: Option<String>,
    pub access_token_expires_at: Option<i64>,
    pub token_type: Option<String>,
    pub tunnel_count: Option<i32>,
    pub tunnel: Option<i32>,
}

/// A running tunnel process, as recorded on disk.
#[derive(Clone, Debug)]
pub struct PersistedTunnelInfo {
    pub tunnel_id: i32,
    pub pid: u32,
    pub tunnel_type: String,
    pub original_id: Option<String>,
    pub started_at: String,
}

} // verus!
