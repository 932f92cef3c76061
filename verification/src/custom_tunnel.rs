//! Local ("custom") tunnels: configuration file names, stable ids, and the
//! per-tunnel texts and summaries read from a user's INI configuration.

use vstd::prelude::*;
use std::collections::hash_map::DefaultHasher;
use std::hash::Hasher;
use vstd::string::StringSliceAdditionalSpecFns;
use crate::ini::{
    IniParsedInfo, IniSplitResult, IniSummary, ini_split, ini_summary, invalid_name_message,
    pairs_view, split_sections, summarize_ini, opt_view, strings_view,
};
use crate::text::{chars_of, is_alphanumeric, push_str, string_from, unicode_alphanumeric};
use crate::ini::valid_tunnel_name;
use crate::clock::local_rfc3339;

verus! {

broadcast use vstd::string::group_string_axioms;

/// A local tunnel as the launcher lists it.
#[derive(Debug, Clone)]
pub struct CustomTunnel {
    pub id: String,
    pub name: String,
    pub config_file: String,
    pub server_addr: Option<String>,
    pub server_port: Option<u16>,
    pub tunnels: Vec<String>,
    pub tunnel_type: Option<String>,
    pub custom_domains: Option<String>,
    pub subdomain: Option<String>,
    pub local_ip: Option<String>,
    pub local_port: Option<u16>,
    pub remote_port: Option<u16>,
    pub created_at: String,
    pub hashed_id: Option<i32>,
}

/// `z_<id>.ini`.
pub open spec fn config_file_name(tunnel_id: Seq<char>) -> Seq<char> {
    "z_"@ + tunnel_id + ".ini"@
}

/// The configuration file name of a local tunnel.
pub fn get_config_file_name(tunnel_id: &str) -> (r: String)
    ensures
        r@ == config_file_name(tunnel_id@),
{
    let mut v = chars_of("z_");
    push_str(&mut v, tunnel_id);
    push_str(&mut v, ".ini");
    string_from(&v)
}

/// What `DefaultHasher::new()` yields after hashing a string whose UTF-8
/// bytes are `bytes`: `Hash for str` writes the bytes and then one `0xFF`.
pub open spec fn str_hash(bytes: Seq<u8>) -> u64 {
    <DefaultHasher as vstd::std_specs::hash::DefaultHasherAdditionalSpecFns>::spec_finish(
        seq![bytes, seq![0xffu8]],
    )
}

/// `i32::abs` as it computes without overflow checks: `i32::MIN` stays.
pub open spec fn abs_i32(x: i32) -> i32 {
    if x == i32::MIN {
        x
    } else if x < 0 {
        (-x) as i32
    } else {
        x
    }
}

/// The non-negative id derived from a string: its `DefaultHasher` hash cut
/// to 32 bits and made non-negative.
pub open spec fn string_id(bytes: Seq<u8>) -> i32 {
    abs_i32(str_hash(bytes) as i32)
}

/// Hashes a string to an `i32` id.
pub fn string_to_i32(value: &str) -> (r: i32)
    ensures
        r == string_id(value.spec_bytes()),
{
    let mut hasher = DefaultHasher::new();
    hasher.write(value.as_bytes());
    let tail: [u8; 1] = [0xffu8];
    let tail_slice: &[u8] = &tail;
    assert(tail_slice@ =~= seq![0xffu8]);
    hasher.write(tail_slice);
    assert(hasher@ =~= seq![value.spec_bytes(), seq![0xffu8]]);
    let h = hasher.finish();
    let x = #[verifier::truncate] (h as i32);
    if x == i32::MIN {
        x
    } else if x < 0 {
        -x
    } else {
        x
    }
}

/// The id under which a local tunnel's process is tracked.
pub open spec fn custom_tunnel_hash(tunnel_id: Seq<char>) -> i32 {
    string_id(vstd::utf8::encode_utf8("custom_"@ + tunnel_id))
}

/// The process id of a local tunnel: the hash of `custom_<id>`.
pub fn get_custom_tunnel_hash(tunnel_id: &str) -> (r: i32)
    ensures
        r == custom_tunnel_hash(tunnel_id@),
{
    let mut v = chars_of("custom_");
    push_str(&mut v, tunnel_id);
    let s = string_from(&v);
    string_to_i32(s.as_str())
}

} // verus!

verus! {

/// The stand-alone text of one tunnel: the common part, a blank line, and
/// the tunnel's block; the block alone when the common part is empty.
pub open spec fn tunnel_text(common: Seq<char>, block: Seq<char>) -> Seq<char> {
    if common.len() == 0 {
        block
    } else {
        common + seq!['\n', '\n'] + block
    }
}

/// Splits a configuration into the tunnels it defines, each paired with a
/// stand-alone configuration text (common part plus that tunnel's section).
/// Refused, with the naming rule's message, when a tunnel name breaks the rule.
pub fn split_ini_config(content: &str) -> (r: Result<Vec<(String, String)>, String>)
    ensures
        r is Ok <==> ini_split(content@, true) is Some,
        r matches Ok(v) ==> pairs_view(v@) == tunnel_texts(content@, true),
        r matches Err(e) ==> e@ == invalid_name_message(),
{
    split_texts(content, true)
}

/// The tunnels of a configuration, each with its stand-alone text.
pub open spec fn tunnel_texts(content: Seq<char>, checked: bool) -> Seq<(Seq<char>, Seq<char>)> {
    let (common, tunnels) = ini_split(content, checked).unwrap();
    tunnels.map_values(|p: (Seq<char>, Seq<char>)| (p.0, tunnel_text(common, p.1)))
}

/// [`split_ini_config`], with the naming rule applied only when `checked`.
pub fn split_texts(content: &str, checked: bool) -> (r: Result<Vec<(String, String)>, String>)
    ensures
        r is Ok <==> ini_split(content@, checked) is Some,
        r matches Ok(v) ==> pairs_view(v@) == tunnel_texts(content@, checked),
        r matches Err(e) ==> e@ == invalid_name_message(),
{
    let split = split_sections(content, checked)?;
    let ghost tunnels = pairs_view(split.tunnels@);
    let ghost common = split.common@;
    let common_chars = chars_of(split.common.as_str());
    let mut out: Vec<(String, String)> = Vec::new();
    let mut k: usize = 0;
    while k < split.tunnels.len()
        invariant
            k <= split.tunnels.len(),
            common_chars@ == common,
            common == split.common@,
            tunnels == pairs_view(split.tunnels@),
            pairs_view(out@) =~= tunnels.take(k as int).map_values(
                |p: (Seq<char>, Seq<char>)| (p.0, tunnel_text(common, p.1)),
            ),
        decreases split.tunnels.len() - k,
    {
        let name = split.tunnels[k].0.clone();
        let block = split.tunnels[k].1.as_str();
        let text = if common_chars.len() == 0 {
            string_from(&chars_of(block))
        } else {
            let mut v = common_chars.clone();
            v.push('\n');
            v.push('\n');
            push_str(&mut v, block);
            assert(v@ =~= common + seq!['\n', '\n'] + block@);
            string_from(&v)
        };
        let ghost before = out@;
        out.push((name, text));
        proof {
            assert(tunnels.take(k + 1) =~= tunnels.take(k as int).push(tunnels[k as int]));
            assert(pairs_view(out@) =~= pairs_view(before).push(
                (tunnels[k as int].0, tunnel_text(common, tunnels[k as int].1)),
            ));
        }
        k = k + 1;
    }
    assert(tunnels.take(split.tunnels.len() as int) =~= tunnels);
    assert(pairs_view(out@) =~= tunnel_texts(content@, checked));
    Ok(out)
}

/// The summary tuple of a configuration: server address and port, tunnel
/// names, and the type, custom domains, subdomain, local IP, local port and
/// remote port read from tunnel sections.
pub fn parse_ini_summary(content: &str) -> (r: Result<
    (
        Option<String>,
        Option<u16>,
        Vec<String>,
        Option<String>,
        Option<String>,
        Option<String>,
        Option<String>,
        Option<u16>,
        Option<u16>,
    ),
    String,
>)
    ensures
        r is Ok <==> ini_summary(content@, true) is Some,
        r matches Ok(t) ==> {
            let s = ini_summary(content@, true).unwrap();
            &&& opt_view(t.0) == s.server_addr
            &&& t.1 == s.server_port
            &&& strings_view(t.2@) == s.tunnel_names
            &&& opt_view(t.3) == s.tunnel_type
            &&& opt_view(t.4) == s.custom_domains
            &&& opt_view(t.5) == s.subdomain
            &&& opt_view(t.6) == s.local_ip
            &&& t.7 == s.local_port
            &&& t.8 == s.remote_port
        },
        r matches Err(e) ==> e@ == invalid_name_message(),
{
    let parsed = parse_ini_config(content)?;
    Ok(
        (
            parsed.server_addr,
            parsed.server_port,
            parsed.tunnel_names,
            parsed.tunnel_type,
            parsed.custom_domains,
            parsed.subdomain,
            parsed.local_ip,
            parsed.local_port,
            parsed.remote_port,
        ),
    )
}

/// The common part and per-tunnel blocks of a configuration, tunnel names
/// held to the naming rule.
pub fn split_ini_config_internal(content: &str) -> (r: Result<IniSplitResult, String>)
    ensures
        r is Ok <==> ini_split(content@, true) is Some,
        r matches Ok(res) ==> ini_split(content@, true) == Some(
            (res.common@, pairs_view(res.tunnels@)),
        ),
        r matches Err(e) ==> e@ == invalid_name_message(),
{
    split_sections(content, true)
}

/// The summary of a configuration, tunnel names held to the naming rule.
pub fn parse_ini_config(content: &str) -> (r: Result<IniParsedInfo, String>)
    ensures
        r is Ok <==> ini_summary(content@, true) is Some,
        r matches Ok(info) ==> ini_summary(content@, true) == Some(info@),
        r matches Err(e) ==> e@ == invalid_name_message(),
{
    summarize_ini(content, true)
}

} // verus!

verus! {

// ---------------------------------------------------------------------------
// The list of local tunnels
// ---------------------------------------------------------------------------

/// `t` is the local tunnel described by `name` and a configuration summary
/// (its creation time aside).
pub open spec fn described_tunnel(name: Seq<char>, s: IniSummary, t: CustomTunnel) -> bool {
    &&& t.id@ == name
    &&& t.name@ == name
    &&& t.config_file@ == config_file_name(name)
    &&& opt_view(t.server_addr) == s.server_addr
    &&& t.server_port == s.server_port
    &&& strings_view(t.tunnels@) == s.tunnel_names
    &&& opt_view(t.tunnel_type) == s.tunnel_type
    &&& opt_view(t.custom_domains) == s.custom_domains
    &&& opt_view(t.subdomain) == s.subdomain
    &&& opt_view(t.local_ip) == s.local_ip
    &&& t.local_port == s.local_port
    &&& t.remote_port == s.remote_port
    &&& t.hashed_id == Some(custom_tunnel_hash(name))
}

fn tunnel_from_info(name: &str, info: IniParsedInfo, created_at: String) -> (r: CustomTunnel)
    ensures
        described_tunnel(name@, info@, r),
        r.created_at == created_at,
{
    CustomTunnel {
        id: name.to_owned(),
        name: name.to_owned(),
        config_file: get_config_file_name(name),
        server_addr: info.server_addr,
        server_port: info.server_port,
        tunnels: info.tunnel_names,
        tunnel_type: info.tunnel_type,
        custom_domains: info.custom_domains,
        subdomain: info.subdomain,
        local_ip: info.local_ip,
        local_port: info.local_port,
        remote_port: info.remote_port,
        created_at,
        hashed_id: Some(get_custom_tunnel_hash(name)),
    }
}

/// The position of the first tunnel with the given id.
pub open spec fn position_of(list: Seq<CustomTunnel>, id: Seq<char>) -> Option<int>
    decreases list.len(),
{
    if list.len() == 0 {
        None
    } else if list[0].id@ == id {
        Some(0)
    } else {
        match position_of(list.drop_first(), id) {
            Some(k) => Some(k + 1),
            None => None,
        }
    }
}

/// The list after saving a tunnel: it replaces the first tunnel with its
/// id, or is added at the end.
pub open spec fn upserted(list: Seq<CustomTunnel>, t: CustomTunnel) -> Seq<CustomTunnel> {
    match position_of(list, t.id@) {
        Some(k) => list.update(k, t),
        None => list.push(t),
    }
}

proof fn lemma_position_of_bounds(list: Seq<CustomTunnel>, id: Seq<char>)
    ensures
        position_of(list, id) matches Some(k) ==> 0 <= k < list.len() && list[k].id@ == id && forall|j: int| 0 <= j < k ==> list[j].id@ != id,
        position_of(list, id) is None ==> forall|j: int| 0 <= j < list.len() ==> list[j].id@ != id,
    decreases list.len(),
{
    if list.len() > 0 {
        lemma_position_of_bounds(list.drop_first(), id);
        if list[0].id@ != id {
            assert forall|j: int| 1 <= j < list.len() implies list[j] == list.drop_first()[j - 1] by {}
        }
    }
}

fn str_eq(a: &str, b: &str) -> (r: bool)
    ensures
        r == (a@ == b@),
{
    crate::text::chars_eq(&chars_of(a), &chars_of(b))
}

fn find_tunnel(list: &Vec<CustomTunnel>, id: &str) -> (r: Option<usize>)
    ensures
        r matches Some(k) ==> position_of(list@, id@) == Some(k as int) && k < list.len(),
        r is None ==> position_of(list@, id@) is None,
{
    let mut i: usize = 0;
    proof {
        lemma_position_of_bounds(list@, id@);
    }
    while i < list.len()
        invariant
            i <= list.len(),
            forall|j: int| 0 <= j < i ==> list@[j].id@ != id@,
            position_of(list@, id@) matches Some(k) ==> 0 <= k < list.len() && list@[k].id@ == id@ && forall|j: int| 0 <= j < k ==> list@[j].id@ != id@,
            position_of(list@, id@) is None ==> forall|j: int| 0 <= j < list.len() ==> list@[j].id@ != id@,
        decreases list.len() - i,
    {
        if str_eq(list[i].id.as_str(), id) {
            return Some(i);
        }
        i = i + 1;
    }
    None
}

/// Saves a tunnel into the list: it replaces the first tunnel with the
/// same id, or is added at the end.
pub fn upsert_custom_tunnel(list: &mut Vec<CustomTunnel>, tunnel: CustomTunnel)
    ensures
        final(list)@ == upserted(old(list)@, tunnel),
{
    match find_tunnel(list, tunnel.id.as_str()) {
        Some(k) => {
            list.set(k, tunnel);
        },
        None => {
            list.push(tunnel);
        },
    }
}

/// The tunnels whose id differs from `id`, in order.
pub open spec fn without_id(list: Seq<CustomTunnel>, id: Seq<char>) -> Seq<CustomTunnel>
    decreases list.len(),
{
    if list.len() == 0 {
        Seq::empty()
    } else {
        let r = without_id(list.drop_last(), id);
        if list.last().id@ == id {
            r
        } else {
            r.push(list.last())
        }
    }
}

/// Removes every tunnel with the given id from the list.
pub fn remove_custom_tunnel(list: &mut Vec<CustomTunnel>, tunnel_id: &str)
    ensures
        final(list)@ == without_id(old(list)@, tunnel_id@),
{
    let ghost orig = list@;
    let ghost mut j: int = 0;
    let mut i: usize = 0;
    assert(orig.take(0) =~= Seq::<CustomTunnel>::empty());
    assert(orig.skip(0) =~= orig);
    while i < list.len()
        invariant
            0 <= j <= orig.len(),
            i == without_id(orig.take(j), tunnel_id@).len(),
            list@ =~= without_id(orig.take(j), tunnel_id@) + orig.skip(j),
        decreases list.len() - i,
    {
        let ghost kept = without_id(orig.take(j), tunnel_id@);
        assert(list@[i as int] == orig[j]);
        assert(orig.take(j + 1).drop_last() =~= orig.take(j));
        assert(orig.take(j + 1).last() == orig[j]);
        if str_eq(list[i].id.as_str(), tunnel_id) {
            list.remove(i);
            proof {
                assert(list@ =~= kept + orig.skip(j + 1));
                j = j + 1;
            }
        } else {
            proof {
                assert(list@ =~= kept.push(orig[j]) + orig.skip(j + 1));
                j = j + 1;
            }
            i = i + 1;
        }
    }
    proof {
        if j < orig.len() {
            assert(list@.len() > i);
        }
        assert(orig.take(j) =~= orig);
        assert(list@ =~= without_id(orig, tunnel_id@));
    }
}

/// Saving a tunnel and then looking its id up finds that tunnel.
pub proof fn upsert_then_find(list: Seq<CustomTunnel>, t: CustomTunnel)
    ensures
        position_of(upserted(list, t), t.id@) matches Some(k) && upserted(list, t)[k] == t,
        upserted(list, t).len() == list.len() + (if position_of(list, t.id@) is Some { 0int } else { 1int }),
{
    lemma_position_of_bounds(list, t.id@);
    let u = upserted(list, t);
    lemma_position_of_bounds(u, t.id@);
    match position_of(list, t.id@) {
        Some(k) => {
            assert(u[k] == t);
            if position_of(u, t.id@) != Some(k) {
                match position_of(u, t.id@) {
                    Some(j) => {
                        if j < k {
                            assert(u[j] == list[j]);
                        }
                    },
                    None => {},
                }
            }
        },
        None => {
            assert(u[list.len() as int] == t);
            if position_of(u, t.id@) != Some(list.len() as int) {
                match position_of(u, t.id@) {
                    Some(j) => {
                        if j < list.len() {
                            assert(u[j] == list[j]);
                        }
                    },
                    None => {},
                }
            }
        },
    }
}

/// After removing an id no tunnel has it, and the others stay in order.
pub proof fn remove_then_absent(list: Seq<CustomTunnel>, id: Seq<char>)
    ensures
        forall|j: int| 0 <= j < without_id(list, id).len() ==> (#[trigger] without_id(list, id)[j]).id@ != id,
        forall|t: CustomTunnel| list.contains(t) && t.id@ != id ==> #[trigger] without_id(list, id).contains(t),
        forall|t: CustomTunnel| #[trigger] without_id(list, id).contains(t) ==> list.contains(t),
    decreases list.len(),
{
    if list.len() > 0 {
        let p = list.drop_last();
        remove_then_absent(p, id);
        let r = without_id(p, id);
        let w = without_id(list, id);
        assert(w == (if list.last().id@ == id { r } else { r.push(list.last()) }));
        assert forall|t: CustomTunnel| list.contains(t) && t.id@ != id implies #[trigger] without_id(list, id).contains(t) by {
            let k = choose|k: int| 0 <= k < list.len() && list[k] == t;
            if k < list.len() - 1 {
                assert(p[k] == t);
                assert(p.contains(t));
                assert(without_id(p, id).contains(t));
                let m = choose|m: int| 0 <= m < r.len() && r[m] == t;
                if list.last().id@ != id {
                    assert(w[m] == t);
                }
            } else {
                assert(w[r.len() as int] == t);
            }
        }
        assert forall|t: CustomTunnel| #[trigger] without_id(list, id).contains(t) implies list.contains(t) by {
            let w = without_id(list, id);
            let k = choose|k: int| 0 <= k < w.len() && w[k] == t;
            if k < r.len() {
                assert(r[k] == t);
                assert(r.contains(t));
                let m = choose|m: int| 0 <= m < p.len() && p[m] == t;
                assert(list[m] == t);
            } else {
                assert(list[list.len() - 1] == t);
            }
        }
    }
}

} // verus!

verus! {

// ---------------------------------------------------------------------------
// Saving, refreshing and updating local tunnels
// ---------------------------------------------------------------------------

/// The message given for a configuration that defines no tunnel.
pub open spec fn no_tunnel_message() -> Seq<char> {
    "配置文件中未找到隧道名称"@
}

/// A character the desktop launcher allows in a tunnel name: a Unicode
/// letter or digit, `_` or `-`.
pub open spec fn is_desktop_name_char(c: char) -> bool {
    unicode_alphanumeric(c) || c == '_' || c == '-'
}

/// Whether a tunnel name is accepted when tunnels are saved: the naming rule
/// when `checked`, else any run of Unicode letters and digits, `_` and `-`.
pub open spec fn name_accepted(name: Seq<char>, checked: bool) -> bool {
    if checked {
        valid_tunnel_name(name)
    } else {
        forall|k: int| 0 <= k < name.len() ==> is_desktop_name_char(#[trigger] name[k])
    }
}

/// Every tunnel of a split configuration has an accepted name and a text that
/// summarises.
pub open spec fn tunnels_accepted(texts: Seq<(Seq<char>, Seq<char>)>, checked: bool) -> bool {
    forall|i: int|
        0 <= i < texts.len() ==> name_accepted(#[trigger] texts[i].0, checked) && ini_summary(
            texts[i].1,
            checked,
        ) is Some
}

/// Saving a configuration succeeds: it splits, defines a tunnel, and every
/// tunnel is accepted.
pub open spec fn prepare_succeeds(content: Seq<char>, checked: bool) -> bool {
    &&& ini_split(content, checked) is Some
    &&& tunnel_texts(content, checked).len() > 0
    &&& tunnels_accepted(tunnel_texts(content, checked), checked)
}

/// Checks a tunnel name as the tunnels of a saved configuration are checked.
pub fn name_allowed(name: &str, checked: bool) -> (b: bool)
    ensures
        b == name_accepted(name@, checked),
{
    if checked {
        crate::ini::validate_tunnel_name(name).is_ok()
    } else {
        let cs = chars_of(name);
        let mut k: usize = 0;
        while k < cs.len()
            invariant
                k <= cs.len(),
                cs@ == name@,
                forall|j: int| 0 <= j < k ==> is_desktop_name_char(#[trigger] name@[j]),
            decreases cs.len() - k,
        {
            let c = cs[k];
            if !(is_alphanumeric(c) || c == '_' || c == '-') {
                return false;
            }
            k = k + 1;
        }
        true
    }
}

/// The tunnels a configuration defines, each with the stand-alone text that
/// is written to its own file and the record that lists it; each record is
/// stamped with the local time when it is made. Refused when the
/// configuration defines no tunnel, or when a tunnel's name or text is not
/// accepted.
pub fn prepare_custom_tunnels(config_content: &str, checked: bool) -> (r: Result<
    Vec<(String, CustomTunnel)>,
    String,
>)
    ensures
        r is Ok <==> prepare_succeeds(config_content@, checked),
        r matches Ok(v) ==> {
            let texts = tunnel_texts(config_content@, checked);
            &&& v.len() == texts.len()
            &&& forall|i: int|
                0 <= i < v.len() ==> {
                    &&& (#[trigger] v@[i]).0@ == texts[i].1
                    &&& described_tunnel(
                        texts[i].0,
                        ini_summary(texts[i].1, checked).unwrap(),
                        v@[i].1,
                    )
                }
        },
        r matches Err(e) ==> e@ == (if ini_split(config_content@, checked) is Some && tunnel_texts(
            config_content@,
            checked,
        ).len() == 0 {
            no_tunnel_message()
        } else {
            invalid_name_message()
        }),
{
    let texts = split_texts(config_content, checked)?;
    let ghost tv = tunnel_texts(config_content@, checked);
    if texts.len() == 0 {
        return Err("配置文件中未找到隧道名称".to_owned());
    }
    let mut out: Vec<(String, CustomTunnel)> = Vec::new();
    let mut i: usize = 0;
    while i < texts.len()
        invariant
            i <= texts.len(),
            ini_split(config_content@, checked) is Some,
            tv == tunnel_texts(config_content@, checked),
            pairs_view(texts@) == tv,
            tv.len() > 0,
            out.len() == i,
            forall|j: int| 0 <= j < i ==> name_accepted(#[trigger] tv[j].0, checked),
            forall|j: int| 0 <= j < i ==> (#[trigger] ini_summary(tv[j].1, checked)) is Some,
            forall|j: int|
                0 <= j < i ==> {
                    &&& (#[trigger] out@[j]).0@ == tv[j].1
                    &&& described_tunnel(tv[j].0, ini_summary(tv[j].1, checked).unwrap(), out@[j].1)
                },
        decreases texts.len() - i,
    {
        assert(tv[i as int] == (texts@[i as int].0@, texts@[i as int].1@));
        let name = texts[i].0.as_str();
        let text = texts[i].1.as_str();
        if !name_allowed(name, checked) {
            proof {
                assert(!name_accepted(tv[i as int].0, checked));
                assert(!tunnels_accepted(tv, checked));
            }
            return Err("配置文件中的隧道名称只能包含字母、数字、下划线和连字符".to_owned());
        }
        let info = match crate::ini::summarize_ini(text, checked) {
            Ok(info) => info,
            Err(e) => {
                proof {
                    assert(name_accepted(tv[i as int].0, checked));
                    assert(!tunnels_accepted(tv, checked));
                }
                return Err(e);
            },
        };
        assert(name_accepted(tv[i as int].0, checked));
        assert(ini_summary(tv[i as int].1, checked) is Some);
        let created_at = local_rfc3339();
        let t = tunnel_from_info(name, info, created_at);
        out.push((texts[i].1.clone(), t));
        i = i + 1;
    }
    Ok(out)
}

/// The first of two options that holds a value.
pub open spec fn first_some<A>(a: Option<A>, b: Option<A>) -> Option<A> {
    if a is Some {
        a
    } else {
        b
    }
}

fn or_keep<A>(a: Option<A>, b: Option<A>) -> (r: Option<A>)
    ensures
        r == first_some(a, b),
{
    match a {
        Some(x) => Some(x),
        None => b,
    }
}

/// The summary of a tunnel's configuration text, when it was read and parses.
pub open spec fn config_summary(config: Option<&str>, checked: bool) -> Option<IniSummary> {
    match config {
        Some(c) => ini_summary(c@, checked),
        None => None,
    }
}

/// `r` is `t` brought up to date with the summary `s` of its configuration
/// file: each value read there replaces the stored one, the stored one stays
/// where the file has none, and the tunnel names are replaced when the file
/// names any. The process id is recomputed from the tunnel's id.
pub open spec fn refreshed(t: CustomTunnel, s: Option<IniSummary>, r: CustomTunnel) -> bool {
    &&& r.id == t.id
    &&& r.name == t.name
    &&& r.config_file == t.config_file
    &&& r.created_at == t.created_at
    &&& r.hashed_id == Some(custom_tunnel_hash(t.id@))
    &&& match s {
        Some(s) => {
            &&& opt_view(r.server_addr) == first_some(s.server_addr, opt_view(t.server_addr))
            &&& r.server_port == first_some(s.server_port, t.server_port)
            &&& (if s.tunnel_names.len() > 0 {
                strings_view(r.tunnels@) == s.tunnel_names
            } else {
                r.tunnels == t.tunnels
            })
            &&& opt_view(r.tunnel_type) == first_some(s.tunnel_type, opt_view(t.tunnel_type))
            &&& opt_view(r.custom_domains) == first_some(
                s.custom_domains,
                opt_view(t.custom_domains),
            )
            &&& opt_view(r.subdomain) == first_some(s.subdomain, opt_view(t.subdomain))
            &&& opt_view(r.local_ip) == first_some(s.local_ip, opt_view(t.local_ip))
            &&& r.local_port == first_some(s.local_port, t.local_port)
            &&& r.remote_port == first_some(s.remote_port, t.remote_port)
        },
        None => {
            &&& r.server_addr == t.server_addr
            &&& r.server_port == t.server_port
            &&& r.tunnels == t.tunnels
            &&& r.tunnel_type == t.tunnel_type
            &&& r.custom_domains == t.custom_domains
            &&& r.subdomain == t.subdomain
            &&& r.local_ip == t.local_ip
            &&& r.local_port == t.local_port
            &&& r.remote_port == t.remote_port
        },
    }
}

/// A listed tunnel brought up to date with its configuration file, given
/// the file's text when it could be read.
pub fn refresh_custom_tunnel(tunnel: CustomTunnel, config: Option<&str>, checked: bool) -> (r:
    CustomTunnel)
    ensures
        refreshed(tunnel, config_summary(config, checked), r),
{
    let ghost t0 = tunnel;
    let mut t = tunnel;
    if let Some(c) = config {
        if let Ok(parsed) = crate::ini::summarize_ini(c, checked) {
            t.server_addr = or_keep(parsed.server_addr, t.server_addr);
            t.server_port = or_keep(parsed.server_port, t.server_port);
            if parsed.tunnel_names.len() > 0 {
                t.tunnels = parsed.tunnel_names;
            }
            t.tunnel_type = or_keep(parsed.tunnel_type, t.tunnel_type);
            t.custom_domains = or_keep(parsed.custom_domains, t.custom_domains);
            t.subdomain = or_keep(parsed.subdomain, t.subdomain);
            t.local_ip = or_keep(parsed.local_ip, t.local_ip);
            t.local_port = or_keep(parsed.local_port, t.local_port);
            t.remote_port = or_keep(parsed.remote_port, t.remote_port);
        }
    }
    t.hashed_id = Some(get_custom_tunnel_hash(t.id.as_str()));
    t
}

/// The record of a tunnel whose configuration is replaced by
/// `config_content`: it keeps the creation time under which `existing`
/// lists the id, or is stamped with the local time when the id is new.
/// Refused when the id breaks the naming rule (only when `checked`) or the
/// text does not summarise.
pub fn updated_custom_tunnel(
    tunnel_id: &str,
    config_content: &str,
    existing: &Vec<CustomTunnel>,
    checked: bool,
) -> (r: Result<CustomTunnel, String>)
    ensures
        r is Ok <==> (checked ==> valid_tunnel_name(tunnel_id@)) && ini_summary(
            config_content@,
            checked,
        ) is Some,
        r matches Ok(t) ==> {
            &&& described_tunnel(tunnel_id@, ini_summary(config_content@, checked).unwrap(), t)
            &&& position_of(existing@, tunnel_id@) matches Some(k) ==> t.created_at
                == existing@[k].created_at
        },
        r matches Err(e) ==> e@ == invalid_name_message(),
{
    if checked {
        crate::ini::validate_tunnel_name(tunnel_id)?;
    }
    let info = crate::ini::summarize_ini(config_content, checked)?;
    let created_at = match find_tunnel(existing, tunnel_id) {
        Some(k) => existing[k].created_at.clone(),
        None => local_rfc3339(),
    };
    Ok(tunnel_from_info(tunnel_id, info, created_at))
}

} // verus!
