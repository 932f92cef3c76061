//! Reading frpc INI configurations: splitting a multi-tunnel file into one
//! file per tunnel, and summarising the fields the launcher shows.

use vstd::prelude::*;
use crate::text::{chars_eq, chars_of, find_char, find_char_exec, join, join_lines, lines, lines_of, lines_state, string_from, strip_cr, sub_chars, trim, trim_chars, trim_end, trim_start, is_white};
use crate::numbers::{parse_u16, parse_u16_exec};

verus! {

broadcast use vstd::string::group_string_axioms;

// ---------------------------------------------------------------------------
// Line-level pieces
// ---------------------------------------------------------------------------

/// The name inside `[ ... ]` when the (trimmed) line is a section header.
pub open spec fn section_header(line: Seq<char>) -> Option<Seq<char>> {
    if line.len() > 0 && line[0] == '[' && line.last() == ']' {
        Some(trim(line.subrange(1, line.len() - 1)))
    } else {
        None
    }
}

/// `key = value` split at the first `=`, both sides trimmed.
pub open spec fn key_value(line: Seq<char>) -> Option<(Seq<char>, Seq<char>)> {
    match find_char(line, '=') {
        Some(p) => Some((trim(line.take(p)), trim(line.skip(p + 1)))),
        None => None,
    }
}

/// Characters allowed in a tunnel name.
pub open spec fn is_name_char(c: char) -> bool {
    ('a' <= c && c <= 'z') || ('A' <= c && c <= 'Z') || ('0' <= c && c <= '9') || c == '_'
        || c == '-'
}

/// A tunnel name is non-empty and made of ASCII letters, digits, `_` and `-`.
pub open spec fn valid_tunnel_name(name: Seq<char>) -> bool {
    name.len() > 0 && forall|k: int| 0 <= k < name.len() ==> is_name_char(#[trigger] name[k])
}

/// The message given for a tunnel name that breaks the naming rule.
pub open spec fn invalid_name_message() -> Seq<char> {
    "配置文件中的隧道名称只能包含字母、数字、下划线和连字符"@
}

/// Parses a section header line (`[name]`), trimming the name.
pub fn parse_section_header(line: &Vec<char>) -> (r: Option<Vec<char>>)
    ensures
        r matches Some(n) ==> section_header(line@) == Some(n@),
        r is None ==> section_header(line@) is None,
{
    let n = line.len();
    if n > 0 && line[0] == '[' && line[n - 1] == ']' {
        let inner = sub_chars(line, 1, n - 1);
        Some(trim_chars(&inner))
    } else {
        None
    }
}

/// Splits `key = value` at the first `=`.
pub fn parse_key_value(line: &Vec<char>) -> (r: Option<(Vec<char>, Vec<char>)>)
    ensures
        r matches Some(kv) ==> key_value(line@) == Some((kv.0@, kv.1@)),
        r is None ==> key_value(line@) is None,
{
    match find_char_exec(line, '=') {
        Some(p) => {
            let k = sub_chars(line, 0, p);
            let v = sub_chars(line, p + 1, line.len());
            assert(k@ =~= line@.take(p as int));
            assert(v@ =~= line@.skip(p + 1));
            Some((trim_chars(&k), trim_chars(&v)))
        },
        None => None,
    }
}

fn is_name_char_exec(c: char) -> (b: bool)
    ensures
        b == is_name_char(c),
{
    ('a' <= c && c <= 'z') || ('A' <= c && c <= 'Z') || ('0' <= c && c <= '9') || c == '_'
        || c == '-'
}

/// Whether the name obeys the tunnel naming rule.
pub fn is_valid_tunnel_name(name: &Vec<char>) -> (b: bool)
    ensures
        b == valid_tunnel_name(name@),
{
    if name.len() == 0 {
        return false;
    }
    let mut i: usize = 0;
    while i < name.len()
        invariant
            i <= name.len(),
            forall|k: int| 0 <= k < i ==> is_name_char(#[trigger] name@[k]),
        decreases name.len() - i,
    {
        if !is_name_char_exec(name[i]) {
            return false;
        }
        i = i + 1;
    }
    true
}

/// Checks a tunnel name: `Ok` when it obeys the naming rule, else the rule's message.
pub fn validate_tunnel_name(tunnel_name: &str) -> (r: Result<(), String>)
    ensures
        r is Ok <==> valid_tunnel_name(tunnel_name@),
        r matches Err(e) ==> e@ == invalid_name_message(),
{
    let name = chars_of(tunnel_name);
    if is_valid_tunnel_name(&name) {
        Ok(())
    } else {
        Err("配置文件中的隧道名称只能包含字母、数字、下划线和连字符".to_owned())
    }
}

} // verus!

verus! {

// ---------------------------------------------------------------------------
// Summary of a configuration
// ---------------------------------------------------------------------------

/// The fields of an INI configuration that the launcher shows.
pub struct IniParsedInfo {
    pub server_addr: Option<String>,
    pub server_port: Option<u16>,
    pub tunnel_names: Vec<String>,
    pub tunnel_type: Option<String>,
    pub custom_domains: Option<String>,
    pub subdomain: Option<String>,
    pub local_ip: Option<String>,
    pub local_port: Option<u16>,
    pub remote_port: Option<u16>,
}

/// Mathematical model of [`IniParsedInfo`].
pub struct IniSummary {
    pub server_addr: Option<Seq<char>>,
    pub server_port: Option<u16>,
    pub tunnel_names: Seq<Seq<char>>,
    pub tunnel_type: Option<Seq<char>>,
    pub custom_domains: Option<Seq<char>>,
    pub subdomain: Option<Seq<char>>,
    pub local_ip: Option<Seq<char>>,
    pub local_port: Option<u16>,
    pub remote_port: Option<u16>,
}

/// The characters of an optional string.
pub open spec fn opt_view(o: Option<String>) -> Option<Seq<char>> {
    match o {
        Some(s) => Some(s@),
        None => None,
    }
}

/// The characters of each string of a vector.
pub open spec fn strings_view(v: Seq<String>) -> Seq<Seq<char>> {
    v.map_values(|s: String| s@)
}

impl View for IniParsedInfo {
    type V = IniSummary;

    open spec fn view(&self) -> IniSummary {
        IniSummary {
            server_addr: opt_view(self.server_addr),
            server_port: self.server_port,
            tunnel_names: strings_view(self.tunnel_names@),
            tunnel_type: opt_view(self.tunnel_type),
            custom_domains: opt_view(self.custom_domains),
            subdomain: opt_view(self.subdomain),
            local_ip: opt_view(self.local_ip),
            local_port: self.local_port,
            remote_port: self.remote_port,
        }
    }
}

/// Nothing read yet.
pub open spec fn empty_summary() -> IniSummary {
    IniSummary {
        server_addr: None,
        server_port: None,
        tunnel_names: Seq::empty(),
        tunnel_type: None,
        custom_domains: None,
        subdomain: None,
        local_ip: None,
        local_port: None,
        remote_port: None,
    }
}

/// The effect of `key = value` inside `section`. In `[common]` the keys
/// `server_addr` and `server_port` count; in a tunnel section `type`,
/// `custom_domains`, `subdomain`, `local_ip`, `local_port` and `remote_port`.
/// A later value replaces an earlier one; a port that does not parse
/// becomes `None`.
pub open spec fn apply_key(info: IniSummary, section: Seq<char>, k: Seq<char>, v: Seq<char>) -> IniSummary {
    if section == "common"@ {
        if k == "server_addr"@ {
            IniSummary { server_addr: Some(v), ..info }
        } else if k == "server_port"@ {
            IniSummary { server_port: parse_u16(v), ..info }
        } else {
            info
        }
    } else if section.len() > 0 {
        if k == "type"@ {
            IniSummary { tunnel_type: Some(v), ..info }
        } else if k == "custom_domains"@ {
            IniSummary { custom_domains: Some(v), ..info }
        } else if k == "subdomain"@ {
            IniSummary { subdomain: Some(v), ..info }
        } else if k == "local_ip"@ {
            IniSummary { local_ip: Some(v), ..info }
        } else if k == "local_port"@ {
            IniSummary { local_port: parse_u16(v), ..info }
        } else if k == "remote_port"@ {
            IniSummary { remote_port: parse_u16(v), ..info }
        } else {
            info
        }
    } else {
        info
    }
}

/// Whether a trimmed line is blank or a `#`/`;` comment.
pub open spec fn is_blank_or_comment(t: Seq<char>) -> bool {
    t.len() == 0 || t[0] == '#' || t[0] == ';'
}

/// Reading one line: `None` when a tunnel section's name breaks the naming
/// rule and `checked` asks for the rule.
pub open spec fn summary_step(
    info: IniSummary,
    section: Seq<char>,
    raw: Seq<char>,
    checked: bool,
) -> Option<(IniSummary, Seq<char>)> {
    let t = trim(raw);
    if is_blank_or_comment(t) {
        Some((info, section))
    } else {
        match section_header(t) {
            Some(sec) => if sec != "common"@ && sec.len() > 0 {
                if checked && !valid_tunnel_name(sec) {
                    None
                } else {
                    Some((IniSummary { tunnel_names: info.tunnel_names.push(sec), ..info }, sec))
                }
            } else {
                Some((info, sec))
            },
            None => match key_value(t) {
                Some(kv) => Some((apply_key(info, section, kv.0, kv.1), section)),
                None => Some((info, section)),
            },
        }
    }
}

/// Reading the lines in order, from no section and an empty summary.
pub open spec fn summary_of_lines(ls: Seq<Seq<char>>, checked: bool) -> Option<
    (IniSummary, Seq<char>),
>
    decreases ls.len(),
{
    if ls.len() == 0 {
        Some((empty_summary(), Seq::empty()))
    } else {
        match summary_of_lines(ls.drop_last(), checked) {
            Some(st) => summary_step(st.0, st.1, ls.last(), checked),
            None => None,
        }
    }
}

/// The summary of a configuration text, `None` when it names a tunnel
/// against the naming rule (if `checked`).
pub open spec fn ini_summary(content: Seq<char>, checked: bool) -> Option<IniSummary> {
    match summary_of_lines(lines(content), checked) {
        Some(st) => Some(st.0),
        None => None,
    }
}

proof fn lemma_summary_failure_persists(ls: Seq<Seq<char>>, k: int, checked: bool)
    requires
        0 <= k <= ls.len(),
        summary_of_lines(ls.take(k), checked) is None,
    ensures
        summary_of_lines(ls, checked) is None,
    decreases ls.len() - k,
{
    if k < ls.len() {
        assert(ls.take(k + 1).drop_last() =~= ls.take(k));
        lemma_summary_failure_persists(ls, k + 1, checked);
    } else {
        assert(ls.take(k) =~= ls);
    }
}

fn opt_string(v: &Vec<char>) -> (r: Option<String>)
    ensures
        opt_view(r) == Some(v@),
{
    Some(string_from(v))
}

fn parsed_u16(v: &Vec<char>) -> (r: Option<u16>)
    ensures
        r == parse_u16(v@),
{
    parse_u16_exec(v)
}

/// Applies one `key = value` line to the summary.
fn apply_key_exec(info: &mut IniParsedInfo, section: &Vec<char>, k: &Vec<char>, v: &Vec<char>)
    ensures
        final(info)@ == apply_key(old(info)@, section@, k@, v@),
{
    if chars_eq(section, &chars_of("common")) {
        if chars_eq(k, &chars_of("server_addr")) {
            info.server_addr = opt_string(v);
        } else if chars_eq(k, &chars_of("server_port")) {
            info.server_port = parsed_u16(v);
        }
    } else if section.len() > 0 {
        if chars_eq(k, &chars_of("type")) {
            info.tunnel_type = opt_string(v);
        } else if chars_eq(k, &chars_of("custom_domains")) {
            info.custom_domains = opt_string(v);
        } else if chars_eq(k, &chars_of("subdomain")) {
            info.subdomain = opt_string(v);
        } else if chars_eq(k, &chars_of("local_ip")) {
            info.local_ip = opt_string(v);
        } else if chars_eq(k, &chars_of("local_port")) {
            info.local_port = parsed_u16(v);
        } else if chars_eq(k, &chars_of("remote_port")) {
            info.remote_port = parsed_u16(v);
        }
    }
}

/// Summarises a configuration text. With `checked`, a tunnel section whose
/// name breaks the naming rule is refused with the rule's message.
pub fn summarize_ini(content: &str, checked: bool) -> (r: Result<IniParsedInfo, String>)
    ensures
        r is Ok <==> ini_summary(content@, checked) is Some,
        r matches Ok(info) ==> ini_summary(content@, checked) == Some(info@),
        r matches Err(e) ==> e@ == invalid_name_message(),
{
    let text = chars_of(content);
    let ls = lines_of(&text);
    let mut info = IniParsedInfo {
        server_addr: None,
        server_port: None,
        tunnel_names: Vec::new(),
        tunnel_type: None,
        custom_domains: None,
        subdomain: None,
        local_ip: None,
        local_port: None,
        remote_port: None,
    };
    let mut section: Vec<char> = Vec::new();
    let ghost all = lines(content@);
    assert(info@.tunnel_names =~= Seq::<Seq<char>>::empty());
    assert(all.take(0) =~= Seq::<Seq<char>>::empty());
    let mut i: usize = 0;
    while i < ls.len()
        invariant
            i <= ls.len() == all.len(),
            all == lines(content@),
            forall|k: int| 0 <= k < ls@.len() ==> #[trigger] ls@[k]@ == all[k],
            summary_of_lines(all.take(i as int), checked) == Some((info@, section@)),
        decreases ls.len() - i,
    {
        proof {
            assert(all.take(i + 1).drop_last() =~= all.take(i as int));
            assert(all.take(i + 1).last() == ls@[i as int]@);
        }
        let t = trim_chars(&ls[i]);
        if t.len() == 0 || t[0] == '#' || t[0] == ';' {
            i = i + 1;
            continue;
        }
        match parse_section_header(&t) {
            Some(sec) => {
                if !chars_eq(&sec, &chars_of("common")) && sec.len() > 0 {
                    if checked && !is_valid_tunnel_name(&sec) {
                        proof {
                            lemma_summary_failure_persists(all, i + 1, checked);
                        }
                        return Err(
                            "配置文件中的隧道名称只能包含字母、数字、下划线和连字符".to_owned(),
                        );
                    }
                    let ghost before = info.tunnel_names@;
                    info.tunnel_names.push(string_from(&sec));
                    proof {
                        assert(strings_view(info.tunnel_names@) =~= strings_view(before).push(
                            sec@,
                        ));
                    }
                }
                section = sec;
            },
            None => {
                match parse_key_value(&t) {
                    Some(kv) => {
                        apply_key_exec(&mut info, &section, &kv.0, &kv.1);
                    },
                    None => {},
                }
            },
        }
        i = i + 1;
    }
    proof {
        assert(all.take(ls.len() as int) =~= all);
    }
    Ok(info)
}

} // verus!

verus! {

// ---------------------------------------------------------------------------
// Splitting a configuration into one text per tunnel
// ---------------------------------------------------------------------------

/// Lines collected so far: those of `[common]`, the name and lines of each
/// tunnel section, and the section being read.
pub struct SplitState {
    pub common: Seq<Seq<char>>,
    pub names: Seq<Seq<char>>,
    pub blocks: Seq<Seq<Seq<char>>>,
    pub current: Option<Seq<char>>,
}

/// `[name]`.
pub open spec fn bracketed(name: Seq<char>) -> Seq<char> {
    seq!['['] + name + seq![']']
}

/// The characters of each buffer.
pub open spec fn vv(v: Seq<Vec<char>>) -> Seq<Seq<char>> {
    v.map_values(|x: Vec<char>| x@)
}

/// The characters of each line of each block.
pub open spec fn vvv(v: Seq<Vec<Vec<char>>>) -> Seq<Seq<Seq<char>>> {
    v.map_values(|x: Vec<Vec<char>>| vv(x@))
}

/// Reading one raw line. A header starts a section (its trimmed name); a
/// `[common]` header and the lines under it go to the common part; a tunnel
/// header opens a new block holding `[name]`, and the lines under it go to
/// that block; lines under no section, or under `[]`, are dropped. With
/// `checked`, a tunnel name that breaks the naming rule gives `None`.
pub open spec fn split_step(st: SplitState, raw: Seq<char>, checked: bool) -> Option<SplitState> {
    let t = trim(raw);
    match section_header(t) {
        Some(name) => if name == "common"@ {
            Some(SplitState { common: st.common.push(bracketed(name)), current: Some(name), ..st })
        } else if name.len() > 0 {
            if checked && !valid_tunnel_name(name) {
                None
            } else {
                Some(
                    SplitState {
                        names: st.names.push(name),
                        blocks: st.blocks.push(seq![bracketed(name)]),
                        current: Some(name),
                        ..st
                    },
                )
            }
        } else {
            Some(SplitState { current: Some(name), ..st })
        },
        None => match st.current {
            Some(sec) => if sec == "common"@ {
                Some(SplitState { common: st.common.push(raw), ..st })
            } else if sec.len() > 0 && st.blocks.len() > 0 {
                Some(
                    SplitState {
                        blocks: st.blocks.update(
                            st.blocks.len() - 1,
                            st.blocks.last().push(raw),
                        ),
                        ..st
                    },
                )
            } else {
                Some(st)
            },
            None => Some(st),
        },
    }
}

/// Reading the lines in order from an empty state.
pub open spec fn split_lines(ls: Seq<Seq<char>>, checked: bool) -> Option<SplitState>
    decreases ls.len(),
{
    if ls.len() == 0 {
        Some(SplitState { common: Seq::empty(), names: Seq::empty(), blocks: Seq::empty(), current: None })
    } else {
        match split_lines(ls.drop_last(), checked) {
            Some(st) => split_step(st, ls.last(), checked),
            None => None,
        }
    }
}

/// A block of lines as one trimmed text.
pub open spec fn block_text(block: Seq<Seq<char>>) -> Seq<char> {
    trim(join(block, seq!['\n']))
}

/// The trimmed common part and, per tunnel section in order, its name and
/// trimmed text; `None` when `checked` and a tunnel name breaks the rule.
pub open spec fn ini_split(content: Seq<char>, checked: bool) -> Option<
    (Seq<char>, Seq<(Seq<char>, Seq<char>)>),
> {
    match split_lines(lines(content), checked) {
        Some(st) => Some(
            (
                block_text(st.common),
                Seq::new(st.names.len(), |k: int| (st.names[k], block_text(st.blocks[k]))),
            ),
        ),
        None => None,
    }
}

/// The common part and the per-tunnel texts of a configuration.
pub struct IniSplitResult {
    pub common: String,
    pub tunnels: Vec<(String, String)>,
}

/// The characters of each (name, text) pair.
pub open spec fn pairs_view(v: Seq<(String, String)>) -> Seq<(Seq<char>, Seq<char>)> {
    v.map_values(|p: (String, String)| (p.0@, p.1@))
}

proof fn lemma_split_failure_persists(ls: Seq<Seq<char>>, k: int, checked: bool)
    requires
        0 <= k <= ls.len(),
        split_lines(ls.take(k), checked) is None,
    ensures
        split_lines(ls, checked) is None,
    decreases ls.len() - k,
{
    if k < ls.len() {
        assert(ls.take(k + 1).drop_last() =~= ls.take(k));
        lemma_split_failure_persists(ls, k + 1, checked);
    } else {
        assert(ls.take(k) =~= ls);
    }
}

fn bracketed_exec(name: &Vec<char>) -> (r: Vec<char>)
    ensures
        r@ == bracketed(name@),
{
    let mut r: Vec<char> = Vec::new();
    r.push('[');
    let mut n = name.clone();
    r.append(&mut n);
    r.push(']');
    assert(r@ =~= bracketed(name@));
    r
}

/// Splits a configuration into its common part and one text per tunnel
/// section. With `checked`, a tunnel name that breaks the naming rule is
/// refused with the rule's message.
pub fn split_sections(content: &str, checked: bool) -> (r: Result<IniSplitResult, String>)
    ensures
        r is Ok <==> ini_split(content@, checked) is Some,
        r matches Ok(res) ==> ini_split(content@, checked) == Some(
            (res.common@, pairs_view(res.tunnels@)),
        ),
        r matches Err(e) ==> e@ == invalid_name_message(),
{
    let text = chars_of(content);
    let ls = lines_of(&text);
    let ghost all = lines(content@);
    let mut common: Vec<Vec<char>> = Vec::new();
    let mut names: Vec<Vec<char>> = Vec::new();
    let mut blocks: Vec<Vec<Vec<char>>> = Vec::new();
    let mut current: Option<Vec<char>> = None;
    assert(all.take(0) =~= Seq::<Seq<char>>::empty());
    assert(vv(common@) =~= Seq::<Seq<char>>::empty());
    assert(vv(names@) =~= Seq::<Seq<char>>::empty());
    assert(vvv(blocks@) =~= Seq::<Seq<Seq<char>>>::empty());
    let mut i: usize = 0;
    while i < ls.len()
        invariant
            i <= ls.len() == all.len(),
            all == lines(content@),
            names.len() == blocks.len(),
            forall|k: int| 0 <= k < ls@.len() ==> #[trigger] ls@[k]@ == all[k],
            split_lines(all.take(i as int), checked) == Some(
                SplitState {
                    common: vv(common@),
                    names: vv(names@),
                    blocks: vvv(blocks@),
                    current: match current {
                        Some(c) => Some(c@),
                        None => None,
                    },
                },
            ),
        decreases ls.len() - i,
    {
        proof {
            assert(all.take(i + 1).drop_last() =~= all.take(i as int));
            assert(all.take(i + 1).last() == ls@[i as int]@);
        }
        let raw = ls[i].clone();
        let t = trim_chars(&raw);
        match parse_section_header(&t) {
            Some(name) => {
                if chars_eq(&name, &chars_of("common")) {
                    let ghost before = common@;
                    common.push(bracketed_exec(&name));
                    assert(vv(common@) =~= vv(before).push(bracketed(name@)));
                } else if name.len() > 0 {
                    if checked && !is_valid_tunnel_name(&name) {
                        proof {
                            lemma_split_failure_persists(all, i + 1, checked);
                        }
                        return Err(
                            "配置文件中的隧道名称只能包含字母、数字、下划线和连字符".to_owned(),
                        );
                    }
                    let ghost nb = names@;
                    let ghost bb = blocks@;
                    names.push(name.clone());
                    let mut first: Vec<Vec<char>> = Vec::new();
                    first.push(bracketed_exec(&name));
                    assert(vv(first@) =~= seq![bracketed(name@)]);
                    blocks.push(first);
                    assert(vv(names@) =~= vv(nb).push(name@));
                    assert(vvv(blocks@) =~= vvv(bb).push(seq![bracketed(name@)]));
                }
                current = Some(name);
            },
            None => {
                match &current {
                    Some(sec) => {
                        if chars_eq(sec, &chars_of("common")) {
                            let ghost before = common@;
                            common.push(raw);
                            assert(vv(common@) =~= vv(before).push(ls@[i as int]@));
                        } else if sec.len() > 0 && blocks.len() > 0 {
                            let ghost bb = blocks@;
                            let mut last = blocks.pop().unwrap();
                            let ghost lb = last@;
                            last.push(raw);
                            assert(vv(last@) =~= vv(lb).push(ls@[i as int]@));
                            blocks.push(last);
                            assert(vvv(blocks@) =~= vvv(bb).update(
                                bb.len() - 1,
                                vvv(bb).last().push(ls@[i as int]@),
                            ));
                        }
                    },
                    None => {},
                }
            },
        }
        i = i + 1;
    }
    proof {
        assert(all.take(ls.len() as int) =~= all);
    }
    let ghost st = split_lines(all, checked).unwrap();
    let joined = join_lines(&common);
    assert(common@.map_values(|p: Vec<char>| p@) =~= vv(common@));
    let common_text = trim_chars(&joined);
    let mut tunnels: Vec<(String, String)> = Vec::new();
    let mut k: usize = 0;
    while k < names.len()
        invariant
            k <= names.len(),
            names.len() == blocks.len(),
            st.names == vv(names@),
            st.blocks == vvv(blocks@),
            pairs_view(tunnels@) =~= Seq::new(
                k as nat,
                |j: int| (st.names[j], block_text(st.blocks[j])),
            ),
        decreases names.len() - k,
    {
        let j = join_lines(&blocks[k]);
        assert(blocks@[k as int]@.map_values(|p: Vec<char>| p@) =~= vv(blocks@[k as int]@));
        let body = trim_chars(&j);
        let ghost before = tunnels@;
        tunnels.push((string_from(&names[k]), string_from(&body)));
        assert(pairs_view(tunnels@) =~= pairs_view(before).push(
            (st.names[k as int], block_text(st.blocks[k as int])),
        ));
        k = k + 1;
    }
    Ok(IniSplitResult { common: string_from(&common_text), tunnels })
}

} // verus!

verus! {

// ---------------------------------------------------------------------------
// Laws of splitting and summarising
// ---------------------------------------------------------------------------

pub(crate) proof fn lemma_split_lines_names(ls: Seq<Seq<char>>, checked: bool)
    ensures
        split_lines(ls, checked) matches Some(st) ==> {
            &&& st.names.len() == st.blocks.len()
            &&& forall|k: int| 0 <= k < st.names.len() ==> (#[trigger] st.names[k]).len() > 0
            &&& checked ==> forall|k: int|
                0 <= k < st.names.len() ==> valid_tunnel_name(#[trigger] st.names[k])
        },
        !checked ==> split_lines(ls, checked) is Some,
    decreases ls.len(),
{
    if ls.len() > 0 {
        lemma_split_lines_names(ls.drop_last(), checked);
    }
}

/// When the naming rule is applied, every tunnel a configuration splits
/// into has a name that obeys it; without the rule, splitting never fails.
pub proof fn split_names_obey_rule(content: Seq<char>, checked: bool)
    ensures
        checked && ini_split(content, checked) is Some ==> forall|k: int|
            0 <= k < ini_split(content, checked).unwrap().1.len() ==> valid_tunnel_name(
                #[trigger] ini_split(content, checked).unwrap().1[k].0,
            ),
        !checked ==> ini_split(content, checked) is Some,
{
    lemma_split_lines_names(lines(content), checked);
}

proof fn lemma_summary_lines(ls: Seq<Seq<char>>, checked: bool)
    ensures
        summary_of_lines(ls, checked) matches Some(st) ==> checked ==> forall|k: int|
            0 <= k < st.0.tunnel_names.len() ==> valid_tunnel_name(#[trigger] st.0.tunnel_names[k]),
        !checked ==> summary_of_lines(ls, checked) is Some,
    decreases ls.len(),
{
    if ls.len() > 0 {
        lemma_summary_lines(ls.drop_last(), checked);
    }
}

/// When the naming rule is applied, every tunnel name a summary lists obeys
/// it; without the rule, summarising never fails.
pub proof fn summary_names_obey_rule(content: Seq<char>, checked: bool)
    ensures
        checked && ini_summary(content, checked) is Some ==> forall|k: int|
            0 <= k < ini_summary(content, checked).unwrap().tunnel_names.len() ==> valid_tunnel_name(
                #[trigger] ini_summary(content, checked).unwrap().tunnel_names[k],
            ),
        !checked ==> ini_summary(content, checked) is Some,
{
    lemma_summary_lines(lines(content), checked);
}

} // verus!

verus! {

// ---------------------------------------------------------------------------
// Text before the first section, and splitting against summarising
// ---------------------------------------------------------------------------

/// Reading on after a finished line is reading the rest on its own.
pub(crate) proof fn lemma_lines_state_append(a: Seq<char>, b: Seq<char>)
    requires
        lines_state(a).1.len() == 0,
    ensures
        lines_state(a + b) == (lines_state(a).0 + lines_state(b).0, lines_state(b).1),
    decreases b.len(),
{
    if b.len() == 0 {
        assert(a + b =~= a);
        assert(lines_state(a).0 + Seq::<Seq<char>>::empty() =~= lines_state(a).0);
    } else {
        lemma_lines_state_append(a, b.drop_last());
        assert((a + b).drop_last() =~= a + b.drop_last());
        assert((a + b).last() == b.last());
        let (d, c) = lines_state(b.drop_last());
        assert((lines_state(a).0 + d).push(strip_cr(c)) =~= lines_state(a).0 + d.push(strip_cr(c)));
    }
}

/// The lines of `p`, a line break, and `c`: the lines of `p` closed by the
/// break, then the lines of `c`.
pub(crate) proof fn lemma_lines_after_break(p: Seq<char>, c: Seq<char>)
    ensures
        lines(p + seq!['\n'] + c) == lines(p + seq!['\n']) + lines(c),
{
    let a = p + seq!['\n'];
    assert(a.drop_last() =~= p);
    lemma_lines_state_append(a, c);
    let (d, cur) = lines_state(c);
    if cur.len() > 0 {
        assert((lines_state(a).0 + d).push(cur) =~= lines_state(a).0 + d.push(cur));
    }
}

/// Lines that hold no section header leave the summary where it started.
proof fn lemma_headerless_lines(ls: Seq<Seq<char>>, checked: bool)
    requires
        forall|k: int| 0 <= k < ls.len() ==> section_header(trim(#[trigger] ls[k])) is None,
    ensures
        summary_of_lines(ls, checked) == Some((empty_summary(), Seq::<char>::empty())),
    decreases ls.len(),
{
    if ls.len() > 0 {
        lemma_headerless_lines(ls.drop_last(), checked);
        assert(section_header(trim(ls[ls.len() - 1])) is None);
        reveal_strlit("common");
        assert(Seq::<char>::empty() != "common"@) by {
            assert("common"@.len() == 6);
        }
    }
}

/// Reading lines after headerless ones is reading them alone.
proof fn lemma_summary_after_headerless(pre: Seq<Seq<char>>, ls: Seq<Seq<char>>, checked: bool)
    requires
        forall|k: int| 0 <= k < pre.len() ==> section_header(trim(#[trigger] pre[k])) is None,
    ensures
        summary_of_lines(pre + ls, checked) == summary_of_lines(ls, checked),
    decreases ls.len(),
{
    if ls.len() == 0 {
        assert(pre + ls =~= pre);
        lemma_headerless_lines(pre, checked);
    } else {
        lemma_summary_after_headerless(pre, ls.drop_last(), checked);
        assert((pre + ls).drop_last() =~= pre + ls.drop_last());
        assert((pre + ls).last() == ls.last());
    }
}

/// Text placed before the first section header, none of whose lines is a
/// header, never changes a configuration's summary (nor whether it is
/// refused): keys outside any section are ignored.
pub proof fn text_before_sections_is_ignored(prefix: Seq<char>, content: Seq<char>, checked: bool)
    requires
        forall|k: int|
            0 <= k < lines(prefix + seq!['\n']).len() ==> section_header(
                trim(#[trigger] lines(prefix + seq!['\n'])[k]),
            ) is None,
    ensures
        ini_summary(prefix + seq!['\n'] + content, checked) == ini_summary(content, checked),
{
    lemma_lines_after_break(prefix, content);
    lemma_summary_after_headerless(lines(prefix + seq!['\n']), lines(content), checked);
}

/// The section a summary reads keys into, as splitting tracks it.
pub open spec fn section_of(current: Option<Seq<char>>) -> Seq<char> {
    match current {
        Some(s) => s,
        None => Seq::empty(),
    }
}

pub(crate) proof fn lemma_split_agrees_with_summary(ls: Seq<Seq<char>>, checked: bool)
    ensures
        split_lines(ls, checked) is Some <==> summary_of_lines(ls, checked) is Some,
        split_lines(ls, checked) matches Some(st) ==> {
            &&& st.names == summary_of_lines(ls, checked).unwrap().0.tunnel_names
            &&& section_of(st.current) == summary_of_lines(ls, checked).unwrap().1
        },
    decreases ls.len(),
{
    if ls.len() > 0 {
        lemma_split_agrees_with_summary(ls.drop_last(), checked);
        let t = trim(ls.last());
        if is_blank_or_comment(t) {
            assert(section_header(t) is None);
        }
    }
}

/// Splitting a configuration into tunnels succeeds exactly when
/// summarising it does, and the tunnels it splits into are those the
/// summary names, in order.
pub proof fn split_agrees_with_summary(content: Seq<char>, checked: bool)
    ensures
        ini_split(content, checked) is Some <==> ini_summary(content, checked) is Some,
        ini_split(content, checked) is Some ==> ini_split(content, checked).unwrap().1.map_values(
            |t: (Seq<char>, Seq<char>)| t.0,
        ) == ini_summary(content, checked).unwrap().tunnel_names,
{
    lemma_split_agrees_with_summary(lines(content), checked);
    lemma_split_lines_names(lines(content), checked);
    if ini_split(content, checked) is Some {
        let st = split_lines(lines(content), checked).unwrap();
        assert(ini_split(content, checked).unwrap().1.map_values(|t: (Seq<char>, Seq<char>)| t.0)
            =~= st.names);
    }
}

} // verus!

verus! {

// ---------------------------------------------------------------------------
// What the split parts of a configuration summarise to
// ---------------------------------------------------------------------------

proof fn lemma_trim_start_first(x: Seq<char>)
    ensures
        trim_start(x).len() > 0 ==> !is_white(trim_start(x)[0]),
    decreases x.len(),
{
    if x.len() > 0 && is_white(x[0]) {
        lemma_trim_start_first(x.drop_first());
    }
}

proof fn lemma_trim_end_ends(y: Seq<char>)
    ensures
        trim_end(y).len() > 0 ==> trim_end(y)[0] == y[0] && !is_white(trim_end(y).last()),
    decreases y.len(),
{
    if y.len() > 0 && is_white(y.last()) {
        lemma_trim_end_ends(y.drop_last());
    }
}

/// A non-empty trimmed text starts and ends with non-white characters.
pub(crate) proof fn lemma_trim_ends(x: Seq<char>)
    ensures
        trim(x).len() > 0 ==> !is_white(trim(x)[0]) && !is_white(trim(x).last()),
{
    lemma_trim_start_first(x);
    lemma_trim_end_ends(trim_start(x));
}

/// The header line `[name]` that splitting writes reads back as `name`.
proof fn lemma_bracketed_header(name: Seq<char>)
    requires
        name.len() > 0,
        !is_white(name[0]),
        !is_white(name.last()),
    ensures
        section_header(trim(bracketed(name))) == Some(name),
        !is_blank_or_comment(trim(bracketed(name))),
{
    let b = bracketed(name);
    assert(trim_start(b) == b);
    assert(trim_end(b) == b);
    assert(b.subrange(1, b.len() - 1) =~= name);
    assert(trim_start(name) == name);
    assert(trim_end(name) == name);
}

/// A name taken from a header line is trimmed.
proof fn lemma_header_name_trimmed(t: Seq<char>)
    requires
        section_header(t) is Some,
    ensures
        section_header(t).unwrap().len() > 0 ==> !is_white(section_header(t).unwrap()[0])
            && !is_white(section_header(t).unwrap().last()),
{
    lemma_trim_ends(t.subrange(1, t.len() - 1));
}

/// What splitting keeps beside its parts: the common lines summarise to
/// the whole configuration's server fields and no tunnel, inside
/// `[common]` once there is any; each block is its header followed by
/// lines that are no headers.
pub open spec fn parts_faithful(st: SplitState, whole: IniSummary, checked: bool) -> bool {
    &&& summary_of_lines(st.common, checked) matches Some(cs) && {
        &&& cs.0.tunnel_names.len() == 0
        &&& cs.0.server_addr == whole.server_addr
        &&& cs.0.server_port == whole.server_port
        &&& cs.1 == (if st.common.len() > 0 { "common"@ } else { Seq::<char>::empty() })
    }
    &&& (st.current == Some("common"@) ==> st.common.len() > 0)
    &&& forall|k: int| 0 <= k < st.blocks.len() ==> {
        &&& (#[trigger] st.blocks[k]).len() > 0
        &&& st.blocks[k][0] == bracketed(st.names[k])
        &&& forall|j: int| 1 <= j < st.blocks[k].len() ==> section_header(trim(#[trigger] st.blocks[k][j])) is None
    }
    &&& forall|k: int| 0 <= k < st.names.len() ==> {
        &&& #[trigger] st.names[k] != "common"@
        &&& !is_white(st.names[k][0])
        &&& !is_white(st.names[k].last())
    }
}

#[verifier::spinoff_prover]
proof fn lemma_parts_faithful(ls: Seq<Seq<char>>, checked: bool)
    ensures
        split_lines(ls, checked) matches Some(st) ==> parts_faithful(
            st,
            summary_of_lines(ls, checked).unwrap().0,
            checked,
        ),
    decreases ls.len(),
{
    reveal_strlit("common");
    lemma_split_agrees_with_summary(ls, checked);
    lemma_split_lines_names(ls, checked);
    if ls.len() == 0 {
        let st = split_lines(ls, checked).unwrap();
        assert(st.common.len() == 0);
    } else {
        let prev = ls.drop_last();
        lemma_parts_faithful(prev, checked);
        lemma_split_agrees_with_summary(prev, checked);
        lemma_split_lines_names(prev, checked);
        if split_lines(ls, checked) is Some {
            let st0 = split_lines(prev, checked).unwrap();
            let sm0 = summary_of_lines(prev, checked).unwrap();
            let st = split_lines(ls, checked).unwrap();
            let sm = summary_of_lines(ls, checked).unwrap();
            let raw = ls.last();
            let t = trim(raw);
            let cs0 = summary_of_lines(st0.common, checked).unwrap();
            match section_header(t) {
                Some(name) => {
                    lemma_header_name_trimmed(t);
                    if name == "common"@ {
                        lemma_bracketed_header(name);
                        assert(st.common == st0.common.push(bracketed(name)));
                        assert(st.common.drop_last() =~= st0.common);
                        assert(summary_of_lines(st.common, checked) == Some((cs0.0, name)));
                    } else if name.len() > 0 {
                        assert(st.common == st0.common);
                        assert forall|k: int| 0 <= k < st.blocks.len() implies {
                            &&& (#[trigger] st.blocks[k]).len() > 0
                            &&& st.blocks[k][0] == bracketed(st.names[k])
                            &&& forall|j: int| 1 <= j < st.blocks[k].len() ==> section_header(trim(#[trigger] st.blocks[k][j])) is None
                        } by {
                            if k < st0.blocks.len() {
                                assert(st.blocks[k] == st0.blocks[k]);
                                assert(st.names[k] == st0.names[k]);
                            }
                        }
                        assert forall|k: int| 0 <= k < st.names.len() implies {
                            &&& #[trigger] st.names[k] != "common"@
                            &&& !is_white(st.names[k][0])
                            &&& !is_white(st.names[k].last())
                        } by {
                            if k < st0.names.len() {
                                assert(st.names[k] == st0.names[k]);
                            }
                        }
                    } else {
                        assert(st.common == st0.common);
                    }
                },
                None => {
                    match st0.current {
                        Some(sec) => {
                            if sec == "common"@ {
                                assert(st.common == st0.common.push(raw));
                                assert(st.common.drop_last() =~= st0.common);
                                assert(sm0.1 == sec);
                            } else if sec.len() > 0 && st0.blocks.len() > 0 {
                                let last = st0.blocks.len() - 1;
                                assert forall|k: int| 0 <= k < st.blocks.len() implies {
                                    &&& (#[trigger] st.blocks[k]).len() > 0
                                    &&& st.blocks[k][0] == bracketed(st.names[k])
                                    &&& forall|j: int| 1 <= j < st.blocks[k].len() ==> section_header(trim(#[trigger] st.blocks[k][j])) is None
                                } by {
                                    if k != last {
                                        assert(st.blocks[k] == st0.blocks[k]);
                                    } else {
                                        assert(st.blocks[k] == st0.blocks[k].push(raw));
                                        assert forall|j: int| 1 <= j < st.blocks[k].len() implies section_header(trim(#[trigger] st.blocks[k][j])) is None by {
                                            if j < st0.blocks[k].len() {
                                                assert(st.blocks[k][j] == st0.blocks[k][j]);
                                            }
                                        }
                                    }
                                }
                            }
                        },
                        None => {},
                    }
                },
            }
        }
    }
}

proof fn lemma_block_summary(
    common: Seq<Seq<char>>,
    block: Seq<Seq<char>>,
    name: Seq<char>,
    cs: (IniSummary, Seq<char>),
    j: int,
    checked: bool,
)
    requires
        summary_of_lines(common, checked) == Some(cs),
        cs.0.tunnel_names.len() == 0,
        block.len() > 0,
        block[0] == bracketed(name),
        forall|i: int| 1 <= i < block.len() ==> section_header(trim(#[trigger] block[i])) is None,
        name.len() > 0,
        name != "common"@,
        !is_white(name[0]),
        !is_white(name.last()),
        checked ==> valid_tunnel_name(name),
        1 <= j <= block.len(),
    ensures
        summary_of_lines(common + block.take(j), checked) matches Some(r) && {
            &&& r.0.tunnel_names == seq![name]
            &&& r.0.server_addr == cs.0.server_addr
            &&& r.0.server_port == cs.0.server_port
            &&& r.1 == name
        },
    decreases j,
{
    reveal_strlit("common");
    let ls = common + block.take(j);
    assert(ls.drop_last() =~= common + block.take(j - 1));
    assert(ls.last() == block[j - 1]);
    if j == 1 {
        assert(common + block.take(0) =~= common);
        lemma_bracketed_header(name);
        assert(cs.0.tunnel_names.push(name) =~= seq![name]);
    } else {
        lemma_block_summary(common, block, name, cs, j - 1, checked);
        assert(section_header(trim(block[j - 1])) is None);
    }
}

/// Each tunnel's part of a split configuration — the common lines followed
/// by the tunnel's own block of lines — summarises to that tunnel alone,
/// with the whole configuration's server address and port.
pub proof fn split_parts_summarise_alone(content: Seq<char>, checked: bool, k: int)
    requires
        split_lines(lines(content), checked) is Some,
        0 <= k < split_lines(lines(content), checked).unwrap().names.len(),
    ensures
        ({
            let st = split_lines(lines(content), checked).unwrap();
            let whole = ini_summary(content, checked).unwrap();
            summary_of_lines(st.common + st.blocks[k], checked) matches Some(r) && {
                &&& r.0.tunnel_names == seq![st.names[k]]
                &&& r.0.server_addr == whole.server_addr
                &&& r.0.server_port == whole.server_port
            }
        }),
{
    let ls = lines(content);
    lemma_parts_faithful(ls, checked);
    lemma_split_agrees_with_summary(ls, checked);
    lemma_split_lines_names(ls, checked);
    let st = split_lines(ls, checked).unwrap();
    let cs = summary_of_lines(st.common, checked).unwrap();
    let block = st.blocks[k];
    assert(block.len() > 0);
    assert(st.names[k] != "common"@);
    lemma_block_summary(st.common, block, st.names[k], cs, block.len() as int, checked);
    assert(block.take(block.len() as int) =~= block);
}

} // verus!
