//! The terminal launcher's state: screens and modes, the official-tunnel
//! form, and node port ranges.

use vstd::prelude::*;
use crate::numbers::{parse_u16, parse_u16_exec};
use crate::text::{chars_eq, chars_of, find_char, find_char_exec, is_white, is_white_exec, string_from, sub_chars, trim, trim_chars};

verus! {

broadcast use vstd::string::group_string_axioms;

/// Which screen is shown.
#[derive(Debug, Clone, Copy, PartialEq, Eq, Structural)]
pub enum Screen {
    Login,
    Main,
}

/// Which tab of the main screen is shown.
#[derive(Debug, Clone, Copy, PartialEq, Eq, Structural)]
pub enum Tab {
    Tunnels,
    Logs,
    Settings,
}

/// Progress of the device sign-in.
#[derive(Debug, Clone, Copy, PartialEq, Eq, Structural)]
pub enum LoginState {
    Idle,
    WaitingForAuth,
    Error,
}

/// What the local-tunnel editor is doing.
#[derive(Debug, Clone)]
pub enum TunnelEditorMode {
    New,
    Edit { tunnel_id: String },
}

/// What the tunnel page shows.
#[derive(Debug, Clone, Copy, PartialEq, Eq, Structural)]
pub enum TunnelPageMode {
    List,
    OfficialNodeSelect,
    OfficialForm,
    ApiDeleteConfirm,
}

/// Protocol of an official tunnel.
#[derive(Debug, Clone, Copy, PartialEq, Eq, Structural)]
pub enum OfficialTunnelProtocol {
    Tcp,
    Udp,
    Http,
    Https,
}

/// `s` with ASCII capitals made small (`str::to_ascii_lowercase`).
pub open spec fn ascii_lower(s: Seq<char>) -> Seq<char> {
    s.map_values(|c: char| if 'A' <= c && c <= 'Z' { ((c as u8) + 32) as char } else { c })
}

/// The protocol a tunnel type names, ignoring ASCII case; TCP for anything
/// not recognised.
pub open spec fn protocol_of(t: Seq<char>) -> OfficialTunnelProtocol {
    let l = ascii_lower(t);
    if l == "udp"@ {
        OfficialTunnelProtocol::Udp
    } else if l == "http"@ {
        OfficialTunnelProtocol::Http
    } else if l == "https"@ {
        OfficialTunnelProtocol::Https
    } else {
        OfficialTunnelProtocol::Tcp
    }
}

/// The protocol after `p` in the order TCP, UDP, HTTP, HTTPS, TCP.
pub open spec fn next_protocol(p: OfficialTunnelProtocol) -> OfficialTunnelProtocol {
    match p {
        OfficialTunnelProtocol::Tcp => OfficialTunnelProtocol::Udp,
        OfficialTunnelProtocol::Udp => OfficialTunnelProtocol::Http,
        OfficialTunnelProtocol::Http => OfficialTunnelProtocol::Https,
        OfficialTunnelProtocol::Https => OfficialTunnelProtocol::Tcp,
    }
}

/// Whether a protocol is served by domain.
pub open spec fn is_http_protocol(p: OfficialTunnelProtocol) -> bool {
    p is Http || p is Https
}

fn ascii_lower_exec(v: &Vec<char>) -> (r: Vec<char>)
    ensures
        r@ == ascii_lower(v@),
{
    let mut r: Vec<char> = Vec::new();
    let mut i: usize = 0;
    while i < v.len()
        invariant
            i <= v.len(),
            r@ =~= ascii_lower(v@.take(i as int)),
        decreases v.len() - i,
    {
        let c = v[i];
        let d = if 'A' <= c && c <= 'Z' {
            ((c as u8) + 32) as char
        } else {
            c
        };
        r.push(d);
        assert(v@.take(i + 1) =~= v@.take(i as int).push(c));
        i = i + 1;
    }
    assert(v@.take(v.len() as int) =~= v@);
    r
}

impl OfficialTunnelProtocol {
    /// The protocol's display name.
    pub fn label(self) -> (r: &'static str)
        ensures
            r@ == match self {
                OfficialTunnelProtocol::Tcp => "TCP"@,
                OfficialTunnelProtocol::Udp => "UDP"@,
                OfficialTunnelProtocol::Http => "HTTP"@,
                OfficialTunnelProtocol::Https => "HTTPS"@,
            },
    {
        match self {
            OfficialTunnelProtocol::Tcp => "TCP",
            OfficialTunnelProtocol::Udp => "UDP",
            OfficialTunnelProtocol::Http => "HTTP",
            OfficialTunnelProtocol::Https => "HTTPS",
        }
    }

    /// The protocol of a tunnel type (`udp`, `http`, `https` in any ASCII
    /// case), TCP otherwise.
    pub fn from_tunnel_type(value: &str) -> (r: Self)
        ensures
            r == protocol_of(value@),
    {
        let l = ascii_lower_exec(&chars_of(value));
        if chars_eq(&l, &chars_of("udp")) {
            OfficialTunnelProtocol::Udp
        } else if chars_eq(&l, &chars_of("http")) {
            OfficialTunnelProtocol::Http
        } else if chars_eq(&l, &chars_of("https")) {
            OfficialTunnelProtocol::Https
        } else {
            OfficialTunnelProtocol::Tcp
        }
    }

    /// The next protocol: TCP, UDP, HTTP, HTTPS, and back to TCP.
    pub fn cycle(self) -> (r: Self)
        ensures
            r == next_protocol(self),
    {
        match self {
            OfficialTunnelProtocol::Tcp => OfficialTunnelProtocol::Udp,
            OfficialTunnelProtocol::Udp => OfficialTunnelProtocol::Http,
            OfficialTunnelProtocol::Http => OfficialTunnelProtocol::Https,
            OfficialTunnelProtocol::Https => OfficialTunnelProtocol::Tcp,
        }
    }

    /// Whether the protocol is served by domain (HTTP or HTTPS).
    pub fn is_http(self) -> (r: bool)
        ensures
            r == is_http_protocol(self),
    {
        match self {
            OfficialTunnelProtocol::Http | OfficialTunnelProtocol::Https => true,
            _ => false,
        }
    }
}

/// Whether the official-tunnel form creates a tunnel or edits one.
#[derive(Debug, Clone, Copy, PartialEq, Eq, Structural)]
pub enum OfficialTunnelMode {
    Create,
    Edit { tunnel_id: i32 },
}

impl OfficialTunnelMode {
    /// Whether an existing tunnel is being edited.
    pub fn is_edit(self) -> (r: bool)
        ensures
            r == (self is Edit),
    {
        match self {
            OfficialTunnelMode::Edit { .. } => true,
            OfficialTunnelMode::Create => false,
        }
    }
}

/// The official-tunnel form.
#[derive(Debug, Clone)]
pub struct OfficialTunnelForm {
    pub tunnel_name: String,
    pub local_ip: String,
    pub local_port: String,
    pub remote_port: String,
    pub domain: String,
    pub protocol: OfficialTunnelProtocol,
    pub encryption: bool,
    pub compression: bool,
    pub selected_field: usize,
}

impl Default for OfficialTunnelForm {
    /// An empty TCP form with local IP `127.0.0.1`, the first field selected.
    fn default() -> (r: Self)
        ensures
            r.tunnel_name@ == Seq::<char>::empty(),
            r.local_ip@ == "127.0.0.1"@,
            r.local_port@ == Seq::<char>::empty(),
            r.remote_port@ == Seq::<char>::empty(),
            r.domain@ == Seq::<char>::empty(),
            r.protocol == OfficialTunnelProtocol::Tcp,
            !r.encryption,
            !r.compression,
            r.selected_field == 0,
    {
        OfficialTunnelForm {
            tunnel_name: String::new(),
            local_ip: "127.0.0.1".to_owned(),
            local_port: String::new(),
            remote_port: String::new(),
            domain: String::new(),
            protocol: OfficialTunnelProtocol::Tcp,
            encryption: false,
            compression: false,
            selected_field: 0,
        }
    }
}

} // verus!

verus! {

// ---------------------------------------------------------------------------
// Node port ranges such as "10000-20000, 30000"
// ---------------------------------------------------------------------------

/// Separators between the parts of a port range list: `,`, the full-width
/// `，`, and whitespace.
pub open spec fn is_range_sep(c: char) -> bool {
    c == ',' || c == '，' || is_white(c)
}

/// Scanning state of splitting at separators: finished pieces and the open one.
pub open spec fn pieces_state(s: Seq<char>) -> (Seq<Seq<char>>, Seq<char>)
    decreases s.len(),
{
    if s.len() == 0 {
        (Seq::empty(), Seq::empty())
    } else {
        let (done, cur) = pieces_state(s.drop_last());
        if is_range_sep(s.last()) {
            (done.push(cur), Seq::empty())
        } else {
            (done, cur.push(s.last()))
        }
    }
}

/// The pieces between separators, empty ones included (`str::split`).
pub open spec fn pieces(s: Seq<char>) -> Seq<Seq<char>> {
    let (done, cur) = pieces_state(s);
    done.push(cur)
}

/// The smaller and the larger of two ports.
pub open spec fn ordered(a: u16, b: u16) -> (u16, u16) {
    if a <= b {
        (a, b)
    } else {
        (b, a)
    }
}

/// The bounds a piece names: `a-b` (either order) or a single port.
pub open spec fn port_bounds(segment: Seq<char>) -> Option<(u16, u16)> {
    let t = trim(segment);
    if t.len() == 0 {
        None
    } else {
        match find_char(t, '-') {
            Some(p) => match (parse_u16(trim(t.take(p))), parse_u16(trim(t.skip(p + 1)))) {
                (Some(a), Some(b)) => Some(ordered(a, b)),
                _ => None,
            },
            None => match parse_u16(t) {
                Some(a) => Some((a, a)),
                None => None,
            },
        }
    }
}

/// The start of the first piece that names ports.
pub open spec fn first_port(ps: Seq<Seq<char>>) -> Option<u16>
    decreases ps.len(),
{
    if ps.len() == 0 {
        None
    } else {
        match port_bounds(ps[0]) {
            Some(b) => Some(b.0),
            None => first_port(ps.drop_first()),
        }
    }
}

/// Whether `port` lies within the bounds, if there are bounds.
pub open spec fn within(bounds: Option<(u16, u16)>, port: u16) -> bool {
    match bounds {
        Some(b) => b.0 <= port && port <= b.1,
        None => false,
    }
}

/// Whether some piece of the list names a range holding `port`.
pub open spec fn port_allowed(port: u16, range: Seq<char>) -> bool {
    exists|k: int| 0 <= k < pieces(range).len() && within(#[trigger] port_bounds(pieces(range)[k]), port)
}

fn is_range_sep_exec(c: char) -> (b: bool)
    ensures
        b == is_range_sep(c),
{
    c == ',' || c == '，' || is_white_exec(c)
}

fn range_pieces(v: &Vec<char>) -> (r: Vec<Vec<char>>)
    ensures
        r@.len() == pieces(v@).len(),
        forall|k: int| 0 <= k < r@.len() ==> #[trigger] r@[k]@ == pieces(v@)[k],
{
    let mut done: Vec<Vec<char>> = Vec::new();
    let mut cur: Vec<char> = Vec::new();
    let mut i: usize = 0;
    while i < v.len()
        invariant
            i <= v.len(),
            done@.len() == pieces_state(v@.take(i as int)).0.len(),
            forall|k: int|
                0 <= k < done@.len() ==> #[trigger] done@[k]@ == pieces_state(
                    v@.take(i as int),
                ).0[k],
            cur@ == pieces_state(v@.take(i as int)).1,
        decreases v.len() - i,
    {
        proof {
            assert(v@.take(i + 1).drop_last() =~= v@.take(i as int));
            assert(v@.take(i + 1).last() == v@[i as int]);
        }
        let c = v[i];
        if is_range_sep_exec(c) {
            done.push(cur);
            cur = Vec::new();
        } else {
            cur.push(c);
        }
        i = i + 1;
    }
    assert(v@.take(v.len() as int) =~= v@);
    done.push(cur);
    done
}

fn bounds_of(segment: &Vec<char>) -> (r: Option<(u16, u16)>)
    ensures
        r == port_bounds(segment@),
{
    let t = trim_chars(segment);
    if t.len() == 0 {
        return None;
    }
    match find_char_exec(&t, '-') {
        Some(p) => {
            let a_part = sub_chars(&t, 0, p);
            let b_part = sub_chars(&t, p + 1, t.len());
            assert(a_part@ =~= t@.take(p as int));
            assert(b_part@ =~= t@.skip(p + 1));
            let a = parse_u16_exec(&trim_chars(&a_part));
            let b = parse_u16_exec(&trim_chars(&b_part));
            match (a, b) {
                (Some(a), Some(b)) => {
                    if a <= b {
                        Some((a, b))
                    } else {
                        Some((b, a))
                    }
                },
                _ => None,
            }
        },
        None => match parse_u16_exec(&t) {
            Some(a) => Some((a, a)),
            None => None,
        },
    }
}

/// The ports a range piece names: `a-b` in either order, or one port.
pub fn parse_port_bounds(segment: &str) -> (r: Option<(u16, u16)>)
    ensures
        r == port_bounds(segment@),
{
    bounds_of(&chars_of(segment))
}

/// The first port a node's port range list allows.
pub fn first_allowed_port(port_range: &str) -> (r: Option<u16>)
    ensures
        r == first_port(pieces(port_range@)),
{
    let ps = range_pieces(&chars_of(port_range));
    let ghost all = pieces(port_range@);
    let mut i: usize = 0;
    assert(all.skip(0) =~= all);
    while i < ps.len()
        invariant
            i <= ps.len() == all.len(),
            all == pieces(port_range@),
            forall|k: int| 0 <= k < ps@.len() ==> #[trigger] ps@[k]@ == all[k],
            first_port(all) == first_port(all.skip(i as int)),
        decreases ps.len() - i,
    {
        proof {
            assert(all.skip(i as int).drop_first() =~= all.skip(i + 1));
            assert(all.skip(i as int)[0] == ps@[i as int]@);
        }
        match bounds_of(&ps[i]) {
            Some(b) => {
                return Some(b.0);
            },
            None => {},
        }
        i = i + 1;
    }
    None
}

/// Whether a port lies in one of the ranges of a node's port range list.
pub fn port_is_in_allowed_range(port: u16, port_range: &str) -> (r: bool)
    ensures
        r == port_allowed(port, port_range@),
{
    let ps = range_pieces(&chars_of(port_range));
    let ghost all = pieces(port_range@);
    let mut i: usize = 0;
    while i < ps.len()
        invariant
            i <= ps.len() == all.len(),
            all == pieces(port_range@),
            forall|k: int| 0 <= k < ps@.len() ==> #[trigger] ps@[k]@ == all[k],
            forall|k: int|
                0 <= k < i ==> !within(#[trigger] port_bounds(all[k]), port),
        decreases ps.len() - i,
    {
        match bounds_of(&ps[i]) {
            Some(b) => {
                if b.0 <= port && port <= b.1 {
                    assert(within(port_bounds(all[i as int]), port));
                    return true;
                }
            },
            None => {},
        }
        i = i + 1;
    }
    false
}

} // verus!

verus! {

// ---------------------------------------------------------------------------
// Laws of protocols and port ranges
// ---------------------------------------------------------------------------

/// Cycling through the protocols comes back to the start after four steps
/// and visits every protocol on the way.
pub proof fn cycle_returns_after_four(p: OfficialTunnelProtocol)
    ensures
        next_protocol(next_protocol(next_protocol(next_protocol(p)))) == p,
        next_protocol(p) != p,
        next_protocol(next_protocol(p)) != p,
        next_protocol(next_protocol(next_protocol(p))) != p,
{
}

/// The name the API gives a protocol.
pub open spec fn protocol_label(p: OfficialTunnelProtocol) -> Seq<char> {
    match p {
        OfficialTunnelProtocol::Tcp => "TCP"@,
        OfficialTunnelProtocol::Udp => "UDP"@,
        OfficialTunnelProtocol::Http => "HTTP"@,
        OfficialTunnelProtocol::Https => "HTTPS"@,
    }
}

/// Reading a protocol's label as a tunnel type gives the protocol back.
pub proof fn label_names_protocol(p: OfficialTunnelProtocol)
    ensures
        protocol_of(protocol_label(p)) == p,
{
    reveal_strlit("TCP");
    reveal_strlit("UDP");
    reveal_strlit("HTTP");
    reveal_strlit("HTTPS");
    reveal_strlit("udp");
    reveal_strlit("http");
    reveal_strlit("https");
    match p {
        OfficialTunnelProtocol::Tcp => {
            assert(ascii_lower("TCP"@) =~= seq!['t', 'c', 'p']);
        },
        OfficialTunnelProtocol::Udp => {
            assert(ascii_lower("UDP"@) =~= "udp"@);
        },
        OfficialTunnelProtocol::Http => {
            assert(ascii_lower("HTTP"@) =~= "http"@);
        },
        OfficialTunnelProtocol::Https => {
            assert(ascii_lower("HTTPS"@) =~= "https"@);
        },
    }
}

proof fn lemma_first_port_allowed(ps: Seq<Seq<char>>, port: u16)
    requires
        first_port(ps) == Some(port),
    ensures
        exists|k: int| 0 <= k < ps.len() && within(#[trigger] port_bounds(ps[k]), port),
    decreases ps.len(),
{
    match port_bounds(ps[0]) {
        Some(b) => {
            assert(within(port_bounds(ps[0]), port));
        },
        None => {
            lemma_first_port_allowed(ps.drop_first(), port);
            let k = choose|k: int| 0 <= k < ps.drop_first().len() && within(
                #[trigger] port_bounds(ps.drop_first()[k]),
                port,
            );
            assert(ps.drop_first()[k] == ps[k + 1]);
            assert(within(port_bounds(ps[k + 1]), port));
        },
    }
}

/// The first port a node's range list allows lies in one of its ranges, so
/// the remote port suggested from a node passes that node's range check.
pub proof fn first_allowed_port_is_allowed(range: Seq<char>)
    ensures
        first_port(pieces(range)) matches Some(p) ==> port_allowed(p, range),
{
    if let Some(p) = first_port(pieces(range)) {
        lemma_first_port_allowed(pieces(range), p);
    }
}

} // verus!
