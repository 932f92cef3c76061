//! Reading back a generated frpc configuration: summarising the text that
//! `generate_frpc_config` writes gives back the tunnel it was written for.

use vstd::prelude::*;
use crate::config::{bool_text, config_head, frpc_config, is_domain_type, is_port_type};
use crate::ini::{
    apply_key, empty_summary, ini_summary, is_blank_or_comment, key_value, lemma_lines_state_append,
    section_header, summary_of_lines, summary_step, valid_tunnel_name, IniSummary,
};
use crate::models::TunnelConfig;
use crate::numbers::{all_digits, decimal, decimal_reads_back, decimal_u16_parses, is_digit, parse_u16};
use crate::text::{find_char, is_white, lines, lines_state, strip_cr, trim, trim_end, trim_start};

verus! {

/// A value written after `key = `: no line break and no white space at
/// either end.
pub open spec fn plain_value(v: Seq<char>) -> bool {
    &&& !v.contains('\n')
    &&& v.len() > 0 ==> !is_white(v[0]) && !is_white(v.last())
}

/// A key as the configuration writes it: non-empty, without white space
/// or `=`, and not starting like a header or a comment.
pub open spec fn plain_key(k: Seq<char>) -> bool {
    &&& k.len() > 0
    &&& forall|i: int| 0 <= i < k.len() ==> !is_white(#[trigger] k[i]) && k[i] != '='
    &&& k[0] != '[' && k[0] != '#' && k[0] != ';'
}

/// The line `key = value`.
pub open spec fn entry(k: Seq<char>, v: Seq<char>) -> Seq<char> {
    k + seq![' ', '=', ' '] + v
}

/// The text of some lines, each ended by a line break.
pub open spec fn text_of_lines(ls: Seq<Seq<char>>) -> Seq<char>
    decreases ls.len(),
{
    if ls.len() == 0 {
        Seq::empty()
    } else {
        text_of_lines(ls.drop_last()) + ls.last() + seq!['\n']
    }
}

proof fn lemma_find_after_prefix(k: Seq<char>, s: Seq<char>, c: char)
    requires
        forall|i: int| 0 <= i < k.len() ==> #[trigger] k[i] != c,
    ensures
        find_char(k + s, c) == match find_char(s, c) {
            Some(p) => Some(p + k.len()),
            None => None::<int>,
        },
    decreases k.len(),
{
    if k.len() > 0 {
        assert((k + s).drop_first() =~= k.drop_first() + s);
        assert forall|i: int| 0 <= i < k.drop_first().len() implies #[trigger] k.drop_first()[i] != c by {
            assert(k.drop_first()[i] == k[i + 1]);
        }
        lemma_find_after_prefix(k.drop_first(), s, c);
    } else {
        assert(k + s =~= s);
    }
}

/// What summarising reads from a `key = value` line.
#[verifier::spinoff_prover]
proof fn lemma_entry_line(k: Seq<char>, v: Seq<char>)
    requires
        plain_key(k),
        plain_value(v),
    ensures
        !is_blank_or_comment(trim(entry(k, v))),
        section_header(trim(entry(k, v))) is None,
        key_value(trim(entry(k, v))) == Some((k, v)),
{
    let line = entry(k, v);
    let n: int = k.len() as int;
    assert(!is_white(k[0]));
    assert(line[0] == k[0]);
    assert(trim_start(line) == line);
    let t = trim(line);
    if v.len() > 0 {
        assert(line.last() == v.last());
        assert(trim_end(line) == line);
        assert(t == line);
    } else {
        assert(line.drop_last() =~= k + seq![' ', '=']);
        assert(trim_end(k + seq![' ', '=']) == k + seq![' ', '=']);
        assert(t == k + seq![' ', '=']);
    }
    assert(t[0] == k[0]);
    assert forall|i: int| 0 <= i < k.len() implies #[trigger] k[i] != '=' by {}
    let rest = t.skip(n);
    assert(t =~= k + rest);
    assert(rest[1] == '=');
    assert(rest[0] == ' ');
    lemma_find_after_prefix(k, rest, '=');
    assert(find_char(rest.drop_first(), '=') == Some(0int));
    assert(find_char(rest, '=') == Some(1int));
    let p: int = n + 1;
    assert(t.take(p) =~= k + seq![' ']);
    assert((k + seq![' ']).drop_last() =~= k);
    assert(trim_start(k + seq![' ']) == k + seq![' ']);
    assert(trim_end(k) == k);
    assert(trim(t.take(p)) == k);
    if v.len() > 0 {
        assert(t.skip(p + 1) =~= seq![' '] + v);
        assert((seq![' '] + v).drop_first() =~= v);
        assert(trim_start(v) == v);
        assert(trim_end(v) == v);
        assert(trim(t.skip(p + 1)) == v);
    } else {
        assert(t.skip(p + 1) =~= v);
        assert(trim(t.skip(p + 1)) == v);
    }
}

/// What summarising reads from a `[name]` line.
proof fn lemma_header_line(name: Seq<char>)
    requires
        valid_tunnel_name(name),
    ensures
        !is_blank_or_comment(trim(seq!['['] + name + seq![']'])),
        section_header(trim(seq!['['] + name + seq![']'])) == Some(name),
{
    let line = seq!['['] + name + seq![']'];
    assert(trim_start(line) == line);
    assert(trim_end(line) == line);
    assert(line.subrange(1, line.len() - 1) =~= name);
    assert(!is_white(name[0]));
    assert(!is_white(name.last()));
    assert(trim_start(name) == name);
    assert(trim_end(name) == name);
}

pub(crate) proof fn lemma_lines_state_of_line(x: Seq<char>)
    requires
        !x.contains('\n'),
    ensures
        lines_state(x) == (Seq::<Seq<char>>::empty(), x),
    decreases x.len(),
{
    if x.len() > 0 {
        assert(!x.drop_last().contains('\n')) by {
            if x.drop_last().contains('\n') {
                let i = choose|i: int| 0 <= i < x.drop_last().len() && x.drop_last()[i] == '\n';
                assert(x[i] == '\n');
            }
        }
        lemma_lines_state_of_line(x.drop_last());
        assert(x.contains(x.last()));
        assert(x.drop_last().push(x.last()) =~= x);
    }
}

/// Adding a line to the written text and to the summary read from it.
proof fn lemma_push_line(ls: Seq<Seq<char>>, x: Seq<char>, checked: bool)
    requires
        lines(text_of_lines(ls)) == ls,
        lines_state(text_of_lines(ls)).1.len() == 0,
        !x.contains('\n'),
        x.len() == 0 || x.last() != '\r',
    ensures
        text_of_lines(ls.push(x)) == text_of_lines(ls) + x + seq!['\n'],
        lines(text_of_lines(ls.push(x))) == ls.push(x),
        lines_state(text_of_lines(ls.push(x))).1.len() == 0,
        summary_of_lines(ls.push(x), checked) == match summary_of_lines(ls, checked) {
            Some(st) => summary_step(st.0, st.1, x, checked),
            None => None,
        },
{
    let a = text_of_lines(ls);
    assert(ls.push(x).drop_last() =~= ls);
    let xl = x + seq!['\n'];
    assert(xl.drop_last() =~= x);
    lemma_lines_state_of_line(x);
    assert(strip_cr(x) == x);
    assert(lines_state(xl) == (seq![x], Seq::<char>::empty()));
    lemma_lines_state_append(a, xl);
    assert(a + x + seq!['\n'] =~= a + xl);
    assert(lines_state(a).0 == ls);
    assert(lines_state(a).0 + seq![x] =~= ls.push(x));
}

/// Reading a `key = value` line: the key's effect in the current section.
proof fn lemma_entry_step(info: IniSummary, section: Seq<char>, k: Seq<char>, v: Seq<char>, checked: bool)
    requires
        plain_key(k),
        plain_value(v),
    ensures
        summary_step(info, section, entry(k, v), checked) == Some((apply_key(info, section, k, v), section)),
        !entry(k, v).contains('\n'),
        entry(k, v).last() != '\r',
{
    lemma_entry_line(k, v);
    let e = entry(k, v);
    if e.contains('\n') {
        let i = choose|i: int| 0 <= i < e.len() && e[i] == '\n';
        if i < k.len() {
            assert(!is_white(k[i]));
        } else if i >= k.len() + 3 {
            assert(v[i - k.len() - 3] == '\n');
            assert(v.contains('\n'));
        }
    }
    if v.len() > 0 {
        assert(e.last() == v.last());
    }
}

/// Reading a `[name]` line for a tunnel section.
proof fn lemma_header_step(info: IniSummary, section: Seq<char>, name: Seq<char>, checked: bool)
    requires
        valid_tunnel_name(name),
        name != "common"@,
    ensures
        summary_step(info, section, seq!['['] + name + seq![']'], checked) == Some(
            (IniSummary { tunnel_names: info.tunnel_names.push(name), ..info }, name),
        ),
        !(seq!['['] + name + seq![']']).contains('\n'),
        (seq!['['] + name + seq![']']).last() != '\r',
{
    lemma_header_line(name);
    let h = seq!['['] + name + seq![']'];
    if h.contains('\n') {
        let i = choose|i: int| 0 <= i < h.len() && h[i] == '\n';
        assert(0 < i < h.len() - 1);
        assert(name[i - 1] == '\n');
    }
}

/// Digits are a plain value.
proof fn lemma_digits_plain(n: nat)
    ensures
        plain_value(decimal(n)),
{
    decimal_reads_back(n);
    let d = decimal(n);
    assert(is_digit(d[0]));
    assert(is_digit(d.last()));
    if d.contains('\n') {
        let i = choose|i: int| 0 <= i < d.len() && d[i] == '\n';
        assert(is_digit(d[i]));
    }
}

/// The `[common]` section as the configuration writes it, with the blank
/// line after it.
pub open spec fn common_part(c: TunnelConfig) -> Seq<char> {
    "[common]\n"@
        + "server_addr = "@ + c.server_addr@ + "\n"@
        + "server_port = "@ + decimal(c.server_port as nat) + "\n"@
        + match c.http_proxy {
            Some(p) => "http_proxy = "@ + p@ + "\n"@,
            None => Seq::empty(),
        }
        + "log_level = "@ + c.log_level@ + "\n"@
        + "tls_enable = "@ + bool_text(c.force_tls) + "\n"@
        + "tcp_mux = true\n"@
        + "pool_count = 5\n"@
        + (if c.kcp_optimization && is_port_type(c.tunnel_type@) {
            "protocol = kcp\n"@
        } else {
            Seq::empty()
        })
        + "user = "@ + c.user_token@ + "\n"@
        + "token = "@ + c.node_token@ + "\n"@
        + "\n"@
}

/// What summarising the `[common]` section reads.
pub open spec fn common_summary(c: TunnelConfig) -> IniSummary {
    IniSummary { server_addr: Some(c.server_addr@), server_port: Some(c.server_port), ..empty_summary() }
}

/// The fields of the configuration written into its text hold no line
/// break and no white space at either end.
pub open spec fn plain_fields(c: TunnelConfig) -> bool {
    &&& plain_value(c.server_addr@)
    &&& plain_value(c.user_token@)
    &&& plain_value(c.node_token@)
    &&& plain_value(c.log_level@)
    &&& plain_value(c.local_ip@)
    &&& (c.http_proxy matches Some(p) ==> plain_value(p@))
    &&& (c.custom_domains matches Some(d) ==> plain_value(d@))
}

/// The written text of some lines reads back as those lines.
pub open spec fn reads_back(ls: Seq<Seq<char>>) -> bool {
    lines(text_of_lines(ls)) == ls && lines_state(text_of_lines(ls)).1.len() == 0
}

/// Writing one more `key = value` line.
proof fn lemma_entry_push(
    ls: Seq<Seq<char>>,
    info: IniSummary,
    section: Seq<char>,
    k: Seq<char>,
    v: Seq<char>,
    checked: bool,
)
    requires
        reads_back(ls),
        summary_of_lines(ls, checked) == Some((info, section)),
        plain_key(k),
        plain_value(v),
    ensures
        reads_back(ls.push(entry(k, v))),
        text_of_lines(ls.push(entry(k, v))) == text_of_lines(ls) + k + seq![' ', '=', ' '] + v + seq!['\n'],
        summary_of_lines(ls.push(entry(k, v)), checked) == Some((apply_key(info, section, k, v), section)),
{
    lemma_entry_step(info, section, k, v, checked);
    lemma_push_line(ls, entry(k, v), checked);
    assert(text_of_lines(ls) + entry(k, v) + seq!['\n'] =~= text_of_lines(ls) + k + seq![' ', '=', ' '] + v
        + seq!['\n']);
}

proof fn lemma_key_server_addr()
    ensures
        plain_key("server_addr"@),
        "server_addr = "@ == "server_addr"@ + seq![' ', '=', ' '],
        "server_addr"@.len() == 11,
{
    reveal_strlit("server_addr");
    reveal_strlit("server_addr = ");
    assert("server_addr = "@ =~= "server_addr"@ + seq![' ', '=', ' ']);
}

proof fn lemma_key_server_port()
    ensures
        plain_key("server_port"@),
        "server_port = "@ == "server_port"@ + seq![' ', '=', ' '],
        "server_port"@.len() == 11,
{
    reveal_strlit("server_port");
    reveal_strlit("server_port = ");
    assert("server_port = "@ =~= "server_port"@ + seq![' ', '=', ' ']);
}

proof fn lemma_key_http_proxy()
    ensures
        plain_key("http_proxy"@),
        "http_proxy = "@ == "http_proxy"@ + seq![' ', '=', ' '],
        "http_proxy"@.len() == 10,
{
    reveal_strlit("http_proxy");
    reveal_strlit("http_proxy = ");
    assert("http_proxy = "@ =~= "http_proxy"@ + seq![' ', '=', ' ']);
}

proof fn lemma_key_log_level()
    ensures
        plain_key("log_level"@),
        "log_level = "@ == "log_level"@ + seq![' ', '=', ' '],
        "log_level"@.len() == 9,
{
    reveal_strlit("log_level");
    reveal_strlit("log_level = ");
    assert("log_level = "@ =~= "log_level"@ + seq![' ', '=', ' ']);
}

proof fn lemma_key_tls_enable()
    ensures
        plain_key("tls_enable"@),
        "tls_enable = "@ == "tls_enable"@ + seq![' ', '=', ' '],
        "tls_enable"@.len() == 10,
{
    reveal_strlit("tls_enable");
    reveal_strlit("tls_enable = ");
    assert("tls_enable = "@ =~= "tls_enable"@ + seq![' ', '=', ' ']);
}

proof fn lemma_key_tcp_mux()
    ensures
        plain_key("tcp_mux"@),
        "tcp_mux = "@ == "tcp_mux"@ + seq![' ', '=', ' '],
        "tcp_mux"@.len() == 7,
{
    reveal_strlit("tcp_mux");
    reveal_strlit("tcp_mux = ");
    assert("tcp_mux = "@ =~= "tcp_mux"@ + seq![' ', '=', ' ']);
}

proof fn lemma_key_pool_count()
    ensures
        plain_key("pool_count"@),
        "pool_count = "@ == "pool_count"@ + seq![' ', '=', ' '],
        "pool_count"@.len() == 10,
{
    reveal_strlit("pool_count");
    reveal_strlit("pool_count = ");
    assert("pool_count = "@ =~= "pool_count"@ + seq![' ', '=', ' ']);
}

proof fn lemma_key_protocol()
    ensures
        plain_key("protocol"@),
        "protocol = "@ == "protocol"@ + seq![' ', '=', ' '],
        "protocol"@.len() == 8,
{
    reveal_strlit("protocol");
    reveal_strlit("protocol = ");
    assert("protocol = "@ =~= "protocol"@ + seq![' ', '=', ' ']);
}

proof fn lemma_key_user()
    ensures
        plain_key("user"@),
        "user = "@ == "user"@ + seq![' ', '=', ' '],
        "user"@.len() == 4,
{
    reveal_strlit("user");
    reveal_strlit("user = ");
    assert("user = "@ =~= "user"@ + seq![' ', '=', ' ']);
}

proof fn lemma_key_token()
    ensures
        plain_key("token"@),
        "token = "@ == "token"@ + seq![' ', '=', ' '],
        "token"@.len() == 5,
{
    reveal_strlit("token");
    reveal_strlit("token = ");
    assert("token = "@ =~= "token"@ + seq![' ', '=', ' ']);
}

proof fn lemma_key_type()
    ensures
        plain_key("type"@),
        "type = "@ == "type"@ + seq![' ', '=', ' '],
        "type"@.len() == 4,
{
    reveal_strlit("type");
    reveal_strlit("type = ");
    assert("type = "@ =~= "type"@ + seq![' ', '=', ' ']);
}

proof fn lemma_key_local_ip()
    ensures
        plain_key("local_ip"@),
        "local_ip = "@ == "local_ip"@ + seq![' ', '=', ' '],
        "local_ip"@.len() == 8,
{
    reveal_strlit("local_ip");
    reveal_strlit("local_ip = ");
    assert("local_ip = "@ =~= "local_ip"@ + seq![' ', '=', ' ']);
}

proof fn lemma_key_local_port()
    ensures
        plain_key("local_port"@),
        "local_port = "@ == "local_port"@ + seq![' ', '=', ' '],
        "local_port"@.len() == 10,
{
    reveal_strlit("local_port");
    reveal_strlit("local_port = ");
    assert("local_port = "@ =~= "local_port"@ + seq![' ', '=', ' ']);
}

proof fn lemma_key_remote_port()
    ensures
        plain_key("remote_port"@),
        "remote_port = "@ == "remote_port"@ + seq![' ', '=', ' '],
        "remote_port"@.len() == 11,
{
    reveal_strlit("remote_port");
    reveal_strlit("remote_port = ");
    assert("remote_port = "@ =~= "remote_port"@ + seq![' ', '=', ' ']);
}

proof fn lemma_key_custom_domains()
    ensures
        plain_key("custom_domains"@),
        "custom_domains = "@ == "custom_domains"@ + seq![' ', '=', ' '],
        "custom_domains"@.len() == 14,
{
    reveal_strlit("custom_domains");
    reveal_strlit("custom_domains = ");
    assert("custom_domains = "@ =~= "custom_domains"@ + seq![' ', '=', ' ']);
}

#[verifier::spinoff_prover]
proof fn lemma_fixed_texts()
    ensures
        "\n"@ == seq!['\n'],
        "[common]\n"@ == "[common]"@ + seq!['\n'],
        "tcp_mux = true\n"@ == "tcp_mux = "@ + "true"@ + seq!['\n'],
        "pool_count = 5\n"@ == "pool_count = "@ + "5"@ + seq!['\n'],
        "protocol = kcp\n"@ == "protocol = "@ + "kcp"@ + seq!['\n'],
        "server_addr"@ != "server_port"@,
        plain_value("true"@),
        plain_value("false"@),
        plain_value("5"@),
        plain_value("kcp"@),
        "common"@.len() == 6,
{
    reveal_strlit("\n");
    reveal_strlit("[common]\n");
    reveal_strlit("[common]");
    reveal_strlit("tcp_mux = true\n");
    reveal_strlit("tcp_mux = ");
    reveal_strlit("true");
    reveal_strlit("pool_count = 5\n");
    reveal_strlit("pool_count = ");
    reveal_strlit("5");
    reveal_strlit("protocol = kcp\n");
    reveal_strlit("protocol = ");
    reveal_strlit("kcp");
    reveal_strlit("false");
    reveal_strlit("server_addr");
    reveal_strlit("server_port");
    reveal_strlit("common");
    assert("[common]\n"@ =~= "[common]"@ + seq!['\n']);
    assert("tcp_mux = true\n"@ =~= "tcp_mux = "@ + "true"@ + seq!['\n']);
    assert("pool_count = 5\n"@ =~= "pool_count = "@ + "5"@ + seq!['\n']);
    assert("protocol = kcp\n"@ =~= "protocol = "@ + "kcp"@ + seq!['\n']);
    assert("server_addr"@[7] != "server_port"@[7]);
}

/// Reading the `[common]` header line.
proof fn lemma_common_header(checked: bool)
    ensures
        reads_back(seq!["[common]"@]),
        text_of_lines(seq!["[common]"@]) == "[common]"@ + seq!['\n'],
        summary_of_lines(seq!["[common]"@], checked) == Some((empty_summary(), "common"@)),
{
    reveal_strlit("[common]");
    reveal_strlit("common");
    let l0 = Seq::<Seq<char>>::empty();
    assert(lines(text_of_lines(l0)) =~= l0);
    let h = "[common]"@;
    assert(trim_start(h) == h);
    assert(trim_end(h) == h);
    assert(h.subrange(1, h.len() - 1) =~= "common"@);
    assert(trim_start("common"@) == "common"@);
    assert(trim_end("common"@) == "common"@);
    lemma_push_line(l0, h, checked);
    assert(l0.push(h) =~= seq![h]);
    assert(Seq::<char>::empty() + h + seq!['\n'] =~= h + seq!['\n']);
}

/// Lines read so far: they read back, make `text`, and leave the summary
/// at `info` inside `[common]`.
pub open spec fn common_state(ls: Seq<Seq<char>>, text: Seq<char>, info: IniSummary, checked: bool) -> bool {
    &&& reads_back(ls)
    &&& text_of_lines(ls) == text
    &&& summary_of_lines(ls, checked) == Some((info, "common"@))
}

/// A `[common]` line with a key summarising ignores.
proof fn lemma_ignored_push(
    ls: Seq<Seq<char>>,
    text: Seq<char>,
    info: IniSummary,
    k: Seq<char>,
    kt: Seq<char>,
    v: Seq<char>,
    checked: bool,
)
    requires
        common_state(ls, text, info, checked),
        plain_key(k),
        plain_value(v),
        k.len() != 11,
        kt == k + seq![' ', '=', ' '],
    ensures
        common_state(ls.push(entry(k, v)), text + kt + v + seq!['\n'], info, checked),
{
    lemma_entry_push(ls, info, "common"@, k, v, checked);
    reveal_strlit("server_addr");
    reveal_strlit("server_port");
    assert(text_of_lines(ls) + k + seq![' ', '=', ' '] + v + seq!['\n'] =~= text + kt + v + seq!['\n']);
}

#[verifier::spinoff_prover]
proof fn lemma_common_start(c: TunnelConfig, checked: bool) -> (ls: Seq<Seq<char>>)
    requires
        plain_fields(c),
    ensures
        common_state(
            ls,
            "[common]\n"@ + "server_addr = "@ + c.server_addr@ + "\n"@ + "server_port = "@ + decimal(
                c.server_port as nat,
            ) + "\n"@,
            common_summary(c),
            checked,
        ),
{
    lemma_fixed_texts();
    lemma_common_header(checked);
    let sec = "common"@;
    let l1 = seq!["[common]"@];
    lemma_key_server_addr();
    lemma_entry_push(l1, empty_summary(), sec, "server_addr"@, c.server_addr@, checked);
    let l2 = l1.push(entry("server_addr"@, c.server_addr@));
    let i2 = IniSummary { server_addr: Some(c.server_addr@), ..empty_summary() };
    assert(summary_of_lines(l2, checked) == Some((i2, sec)));
    lemma_key_server_port();
    lemma_digits_plain(c.server_port as nat);
    decimal_u16_parses(c.server_port);
    lemma_entry_push(l2, i2, sec, "server_port"@, decimal(c.server_port as nat), checked);
    let l3 = l2.push(entry("server_port"@, decimal(c.server_port as nat)));
    assert(summary_of_lines(l3, checked) == Some((common_summary(c), sec)));
    assert(text_of_lines(l3) =~= "[common]\n"@ + "server_addr = "@ + c.server_addr@ + "\n"@ + "server_port = "@
        + decimal(c.server_port as nat) + "\n"@);
    l3
}

/// The optional `http_proxy` line.
proof fn lemma_proxy_line(
    c: TunnelConfig,
    ls: Seq<Seq<char>>,
    text: Seq<char>,
    checked: bool,
) -> (out: Seq<Seq<char>>)
    requires
        plain_fields(c),
        common_state(ls, text, common_summary(c), checked),
    ensures
        common_state(
            out,
            text + match c.http_proxy {
                Some(p) => "http_proxy = "@ + p@ + "\n"@,
                None => Seq::empty(),
            },
            common_summary(c),
            checked,
        ),
{
    lemma_fixed_texts();
    match c.http_proxy {
        Some(p) => {
            lemma_key_http_proxy();
            lemma_ignored_push(ls, text, common_summary(c), "http_proxy"@, "http_proxy = "@, p@, checked);
            lemma_add_assoc(text, "http_proxy = "@ + p@, "\n"@);
            lemma_add_assoc(text, "http_proxy = "@, p@);
            ls.push(entry("http_proxy"@, p@))
        },
        None => {
            assert(text + Seq::<char>::empty() =~= text);
            ls
        },
    }
}

/// One ignored `[common]` line `<kt><v>` and its line break.
proof fn lemma_ignored_line(
    ls: Seq<Seq<char>>,
    text: Seq<char>,
    info: IniSummary,
    k: Seq<char>,
    kt: Seq<char>,
    v: Seq<char>,
    checked: bool,
) -> (out: Seq<Seq<char>>)
    requires
        common_state(ls, text, info, checked),
        plain_key(k),
        plain_value(v),
        k.len() != 11,
        kt == k + seq![' ', '=', ' '],
    ensures
        common_state(out, text + kt + v + "\n"@, info, checked),
{
    lemma_fixed_texts();
    lemma_ignored_push(ls, text, info, k, kt, v, checked);
    ls.push(entry(k, v))
}

/// The fixed lines `log_level`, `tls_enable`, `tcp_mux` and `pool_count`.
#[verifier::spinoff_prover]
proof fn lemma_fixed_lines(
    c: TunnelConfig,
    ls: Seq<Seq<char>>,
    text: Seq<char>,
    checked: bool,
) -> (out: Seq<Seq<char>>)
    requires
        plain_fields(c),
        common_state(ls, text, common_summary(c), checked),
    ensures
        common_state(
            out,
            text + "log_level = "@ + c.log_level@ + "\n"@ + "tls_enable = "@ + bool_text(c.force_tls)
                + "\n"@ + "tcp_mux = true\n"@ + "pool_count = 5\n"@,
            common_summary(c),
            checked,
        ),
{
    lemma_fixed_texts();
    let info = common_summary(c);
    lemma_key_log_level();
    let l1 = lemma_ignored_line(ls, text, info, "log_level"@, "log_level = "@, c.log_level@, checked);
    let t1 = text + "log_level = "@ + c.log_level@ + "\n"@;
    lemma_key_tls_enable();
    let l2 = lemma_ignored_line(l1, t1, info, "tls_enable"@, "tls_enable = "@, bool_text(c.force_tls), checked);
    let t2 = t1 + "tls_enable = "@ + bool_text(c.force_tls) + "\n"@;
    lemma_key_tcp_mux();
    let l3 = lemma_ignored_line(l2, t2, info, "tcp_mux"@, "tcp_mux = "@, "true"@, checked);
    lemma_add_assoc(t2, "tcp_mux = "@ + "true"@, "\n"@);
    lemma_add_assoc(t2, "tcp_mux = "@, "true"@);
    let t3 = t2 + "tcp_mux = true\n"@;
    lemma_key_pool_count();
    let l4 = lemma_ignored_line(l3, t3, info, "pool_count"@, "pool_count = "@, "5"@, checked);
    lemma_add_assoc(t3, "pool_count = "@ + "5"@, "\n"@);
    lemma_add_assoc(t3, "pool_count = "@, "5"@);
    l4
}

proof fn lemma_common_middle(
    c: TunnelConfig,
    ls: Seq<Seq<char>>,
    text: Seq<char>,
    checked: bool,
) -> (out: Seq<Seq<char>>)
    requires
        plain_fields(c),
        common_state(ls, text, common_summary(c), checked),
    ensures
        common_state(
            out,
            text + match c.http_proxy {
                Some(p) => "http_proxy = "@ + p@ + "\n"@,
                None => Seq::empty(),
            } + "log_level = "@ + c.log_level@ + "\n"@ + "tls_enable = "@ + bool_text(c.force_tls)
                + "\n"@ + "tcp_mux = true\n"@ + "pool_count = 5\n"@,
            common_summary(c),
            checked,
        ),
{
    let l1 = lemma_proxy_line(c, ls, text, checked);
    let t1 = text + match c.http_proxy {
        Some(p) => "http_proxy = "@ + p@ + "\n"@,
        None => Seq::empty(),
    };
    lemma_fixed_lines(c, l1, t1, checked)
}

/// The optional `protocol = kcp` line.
proof fn lemma_protocol_line(
    c: TunnelConfig,
    ls: Seq<Seq<char>>,
    text: Seq<char>,
    checked: bool,
) -> (out: Seq<Seq<char>>)
    requires
        plain_fields(c),
        common_state(ls, text, common_summary(c), checked),
    ensures
        common_state(
            out,
            text + (if c.kcp_optimization && is_port_type(c.tunnel_type@) {
                "protocol = kcp\n"@
            } else {
                Seq::empty()
            }),
            common_summary(c),
            checked,
        ),
{
    lemma_fixed_texts();
    if c.kcp_optimization && is_port_type(c.tunnel_type@) {
        lemma_key_protocol();
        let out = lemma_ignored_line(ls, text, common_summary(c), "protocol"@, "protocol = "@, "kcp"@, checked);
        lemma_add_assoc(text, "protocol = "@ + "kcp"@, "\n"@);
        lemma_add_assoc(text, "protocol = "@, "kcp"@);
        out
    } else {
        assert(text + Seq::<char>::empty() =~= text);
        ls
    }
}

/// The `user` and `token` lines and the blank line closing `[common]`.
#[verifier::spinoff_prover]
proof fn lemma_closing_lines(
    c: TunnelConfig,
    ls: Seq<Seq<char>>,
    text: Seq<char>,
    checked: bool,
) -> (out: Seq<Seq<char>>)
    requires
        plain_fields(c),
        common_state(ls, text, common_summary(c), checked),
    ensures
        common_state(
            out,
            text + "user = "@ + c.user_token@ + "\n"@ + "token = "@ + c.node_token@ + "\n"@ + "\n"@,
            common_summary(c),
            checked,
        ),
{
    lemma_fixed_texts();
    let info = common_summary(c);
    lemma_key_user();
    let l1 = lemma_ignored_line(ls, text, info, "user"@, "user = "@, c.user_token@, checked);
    let t1 = text + "user = "@ + c.user_token@ + "\n"@;
    lemma_key_token();
    let l2 = lemma_ignored_line(l1, t1, info, "token"@, "token = "@, c.node_token@, checked);
    let t2 = t1 + "token = "@ + c.node_token@ + "\n"@;
    let blank = Seq::<char>::empty();
    lemma_push_line(l2, blank, checked);
    assert(text_of_lines(l2.push(blank)) =~= t2 + "\n"@);
    let out = l2.push(blank);
    assert(summary_of_lines(out, checked) == Some((info, "common"@)));
    out
}

proof fn lemma_common_end(
    c: TunnelConfig,
    ls: Seq<Seq<char>>,
    text: Seq<char>,
    checked: bool,
) -> (out: Seq<Seq<char>>)
    requires
        plain_fields(c),
        common_state(ls, text, common_summary(c), checked),
    ensures
        common_state(
            out,
            text + (if c.kcp_optimization && is_port_type(c.tunnel_type@) {
                "protocol = kcp\n"@
            } else {
                Seq::empty()
            }) + "user = "@ + c.user_token@ + "\n"@ + "token = "@ + c.node_token@ + "\n"@ + "\n"@,
            common_summary(c),
            checked,
        ),
{
    let l1 = lemma_protocol_line(c, ls, text, checked);
    let t1 = text + (if c.kcp_optimization && is_port_type(c.tunnel_type@) {
        "protocol = kcp\n"@
    } else {
        Seq::empty()
    });
    lemma_closing_lines(c, l1, t1, checked)
}

proof fn lemma_common_lines(c: TunnelConfig, checked: bool) -> (ls: Seq<Seq<char>>)
    requires
        plain_fields(c),
    ensures
        common_state(ls, common_part(c), common_summary(c), checked),
{
    let l1 = lemma_common_start(c, checked);
    let t1 = "[common]\n"@ + "server_addr = "@ + c.server_addr@ + "\n"@ + "server_port = "@ + decimal(
        c.server_port as nat,
    ) + "\n"@;
    let l2 = lemma_common_middle(c, l1, t1, checked);
    let t2 = t1 + match c.http_proxy {
        Some(p) => "http_proxy = "@ + p@ + "\n"@,
        None => Seq::empty(),
    } + "log_level = "@ + c.log_level@ + "\n"@ + "tls_enable = "@ + bool_text(c.force_tls) + "\n"@
        + "tcp_mux = true\n"@ + "pool_count = 5\n"@;
    let l3 = lemma_common_end(c, l2, t2, checked);
    assert(t2 + (if c.kcp_optimization && is_port_type(c.tunnel_type@) {
        "protocol = kcp\n"@
    } else {
        Seq::empty()
    }) + "user = "@ + c.user_token@ + "\n"@ + "token = "@ + c.node_token@ + "\n"@ + "\n"@ =~= common_part(c));
    l3
}

/// The tunnel section as the configuration writes it, up to `local_port`.
pub open spec fn tunnel_part(c: TunnelConfig) -> Seq<char> {
    "["@ + c.tunnel_name@ + "]\n"@
        + "type = "@ + c.tunnel_type@ + "\n"@
        + "local_ip = "@ + c.local_ip@ + "\n"@
        + "local_port = "@ + decimal(c.local_port as nat) + "\n"@
}

/// What summarising reads from a configuration written for `c`.
pub open spec fn written_summary(c: TunnelConfig) -> IniSummary {
    IniSummary {
        server_addr: Some(c.server_addr@),
        server_port: Some(c.server_port),
        tunnel_names: seq![c.tunnel_name@],
        tunnel_type: Some(c.tunnel_type@),
        custom_domains: if is_domain_type(c.tunnel_type@) {
            match c.custom_domains {
                Some(d) => Some(d@),
                None => None,
            }
        } else {
            None
        },
        subdomain: None,
        local_ip: Some(c.local_ip@),
        local_port: Some(c.local_port),
        remote_port: if is_port_type(c.tunnel_type@) {
            c.remote_port
        } else {
            None
        },
    }
}

/// Lines read so far: they read back, make `text`, and leave the summary
/// at `info` inside `section`.
pub open spec fn read_so_far(
    ls: Seq<Seq<char>>,
    text: Seq<char>,
    info: IniSummary,
    section: Seq<char>,
    checked: bool,
) -> bool {
    &&& reads_back(ls)
    &&& text_of_lines(ls) == text
    &&& summary_of_lines(ls, checked) == Some((info, section))
}

proof fn lemma_port_not_domain(ty: Seq<char>)
    ensures
        is_port_type(ty) ==> !is_domain_type(ty),
{
    reveal_strlit("tcp");
    reveal_strlit("udp");
    reveal_strlit("http");
    reveal_strlit("https");
    assert("tcp"@.len() == 3 && "udp"@.len() == 3 && "http"@.len() == 4 && "https"@.len() == 5);
}

proof fn lemma_type_plain(ty: Seq<char>)
    requires
        is_port_type(ty) || is_domain_type(ty),
    ensures
        plain_value(ty),
{
    reveal_strlit("tcp");
    reveal_strlit("udp");
    reveal_strlit("http");
    reveal_strlit("https");
}

/// A tunnel-section line: its key's effect, with the section's name.
proof fn lemma_tunnel_push(
    ls: Seq<Seq<char>>,
    text: Seq<char>,
    info: IniSummary,
    name: Seq<char>,
    k: Seq<char>,
    kt: Seq<char>,
    v: Seq<char>,
    checked: bool,
)
    requires
        read_so_far(ls, text, info, name, checked),
        plain_key(k),
        plain_value(v),
        kt == k + seq![' ', '=', ' '],
    ensures
        read_so_far(ls.push(entry(k, v)), text + kt + v + seq!['\n'], apply_key(info, name, k, v), name, checked),
{
    lemma_entry_push(ls, info, name, k, v, checked);
    assert(text_of_lines(ls) + k + seq![' ', '=', ' '] + v + seq!['\n'] =~= text + kt + v + seq!['\n']);
}

/// The last line: the remote port of a TCP/UDP tunnel, the custom domains
/// of an HTTP/HTTPS one.
pub open spec fn config_tail(c: TunnelConfig) -> Seq<char> {
    if is_port_type(c.tunnel_type@) {
        "remote_port = "@ + decimal(c.remote_port.unwrap() as nat) + "\n"@
    } else {
        "custom_domains = "@ + c.custom_domains.unwrap()@ + "\n"@
    }
}

/// Whether the tunnel has what its type needs: a remote port for TCP/UDP,
/// custom domains for HTTP/HTTPS.
pub open spec fn writable(c: TunnelConfig) -> bool {
    ||| is_port_type(c.tunnel_type@) && c.remote_port is Some
    ||| !is_port_type(c.tunnel_type@) && is_domain_type(c.tunnel_type@) && c.custom_domains is Some
}

proof fn lemma_add_assoc(a: Seq<char>, b: Seq<char>, c: Seq<char>)
    ensures
        a + (b + c) == a + b + c,
{
    assert(a + (b + c) =~= a + b + c);
}

/// The head of the written configuration is its `[common]` section
/// followed by the start of its tunnel section.
proof fn lemma_head_split(c: TunnelConfig)
    ensures
        config_head(c) == common_part(c) + tunnel_part(c),
{
    let h = common_part(c);
    let p1 = "["@;
    let p2 = c.tunnel_name@;
    let p3 = "]\n"@;
    let p4 = "type = "@;
    let p5 = c.tunnel_type@;
    let p6 = "\n"@;
    let p7 = "local_ip = "@;
    let p8 = c.local_ip@;
    let p9 = "local_port = "@;
    let p10 = decimal(c.local_port as nat);
    lemma_add_assoc(h, p1, p2);
    lemma_add_assoc(h, p1 + p2, p3);
    lemma_add_assoc(h, p1 + p2 + p3, p4);
    lemma_add_assoc(h, p1 + p2 + p3 + p4, p5);
    lemma_add_assoc(h, p1 + p2 + p3 + p4 + p5, p6);
    lemma_add_assoc(h, p1 + p2 + p3 + p4 + p5 + p6, p7);
    lemma_add_assoc(h, p1 + p2 + p3 + p4 + p5 + p6 + p7, p8);
    lemma_add_assoc(h, p1 + p2 + p3 + p4 + p5 + p6 + p7 + p8, p6);
    lemma_add_assoc(h, p1 + p2 + p3 + p4 + p5 + p6 + p7 + p8 + p6, p9);
    lemma_add_assoc(h, p1 + p2 + p3 + p4 + p5 + p6 + p7 + p8 + p6 + p9, p10);
    lemma_add_assoc(h, p1 + p2 + p3 + p4 + p5 + p6 + p7 + p8 + p6 + p9 + p10, p6);
}

#[verifier::spinoff_prover]
proof fn lemma_written_text(c: TunnelConfig)
    requires
        frpc_config(c) is Ok,
    ensures
        writable(c),
        frpc_config(c)->Ok_0 == common_part(c) + tunnel_part(c) + config_tail(c),
{
    lemma_head_split(c);
}

/// `text` followed by the start of the tunnel section, piece by piece.
proof fn lemma_tunnel_part_split(text: Seq<char>, c: TunnelConfig)
    ensures
        text + tunnel_part(c) == text + "["@ + c.tunnel_name@ + "]\n"@ + "type = "@ + c.tunnel_type@ + "\n"@
            + "local_ip = "@ + c.local_ip@ + "\n"@ + "local_port = "@ + decimal(c.local_port as nat) + "\n"@,
{
    let p1 = "["@;
    let p2 = c.tunnel_name@;
    let p3 = "]\n"@;
    let p4 = "type = "@;
    let p5 = c.tunnel_type@;
    let p6 = "\n"@;
    let p7 = "local_ip = "@;
    let p8 = c.local_ip@;
    let p9 = "local_port = "@;
    let p10 = decimal(c.local_port as nat);
    lemma_add_assoc(text, p1, p2);
    lemma_add_assoc(text, p1 + p2, p3);
    lemma_add_assoc(text, p1 + p2 + p3, p4);
    lemma_add_assoc(text, p1 + p2 + p3 + p4, p5);
    lemma_add_assoc(text, p1 + p2 + p3 + p4 + p5, p6);
    lemma_add_assoc(text, p1 + p2 + p3 + p4 + p5 + p6, p7);
    lemma_add_assoc(text, p1 + p2 + p3 + p4 + p5 + p6 + p7, p8);
    lemma_add_assoc(text, p1 + p2 + p3 + p4 + p5 + p6 + p7 + p8, p6);
    lemma_add_assoc(text, p1 + p2 + p3 + p4 + p5 + p6 + p7 + p8 + p6, p9);
    lemma_add_assoc(text, p1 + p2 + p3 + p4 + p5 + p6 + p7 + p8 + p6 + p9, p10);
    lemma_add_assoc(text, p1 + p2 + p3 + p4 + p5 + p6 + p7 + p8 + p6 + p9 + p10, p6);
}

/// The `[name]` line opening the tunnel section.
proof fn lemma_tunnel_header_line(
    c: TunnelConfig,
    ls: Seq<Seq<char>>,
    text: Seq<char>,
    checked: bool,
) -> (out: Seq<Seq<char>>)
    requires
        valid_tunnel_name(c.tunnel_name@),
        c.tunnel_name@ != "common"@,
        read_so_far(ls, text, common_summary(c), "common"@, checked),
    ensures
        read_so_far(
            out,
            text + "["@ + c.tunnel_name@ + "]\n"@,
            (IniSummary { tunnel_names: seq![c.tunnel_name@], ..common_summary(c) }),
            c.tunnel_name@,
            checked,
        ),
{
    let name = c.tunnel_name@;
    reveal_strlit("[");
    reveal_strlit("]\n");
    let h = seq!['['] + name + seq![']'];
    lemma_header_step(common_summary(c), "common"@, name, checked);
    lemma_push_line(ls, h, checked);
    assert(seq![name] =~= Seq::<Seq<char>>::empty().push(name));
    assert(text_of_lines(ls.push(h)) =~= text + "["@ + name + "]\n"@);
    ls.push(h)
}

/// One `key = value` line inside the tunnel section.
proof fn lemma_tunnel_key_line(
    ls: Seq<Seq<char>>,
    text: Seq<char>,
    info: IniSummary,
    name: Seq<char>,
    k: Seq<char>,
    kt: Seq<char>,
    v: Seq<char>,
    checked: bool,
) -> (out: Seq<Seq<char>>)
    requires
        read_so_far(ls, text, info, name, checked),
        plain_key(k),
        plain_value(v),
        kt == k + seq![' ', '=', ' '],
    ensures
        read_so_far(out, text + kt + v + "\n"@, apply_key(info, name, k, v), name, checked),
{
    lemma_fixed_texts();
    lemma_tunnel_push(ls, text, info, name, k, kt, v, checked);
    ls.push(entry(k, v))
}

/// How the `type`, `local_ip` and `local_port` keys act in a tunnel
/// section.
proof fn lemma_tunnel_keys(info: IniSummary, name: Seq<char>, ty: Seq<char>, ip: Seq<char>, port: u16)
    requires
        name != "common"@,
        name.len() > 0,
    ensures
        apply_key(info, name, "type"@, ty) == (IniSummary { tunnel_type: Some(ty), ..info }),
        apply_key(info, name, "local_ip"@, ip) == (IniSummary { local_ip: Some(ip), ..info }),
        apply_key(info, name, "local_port"@, decimal(port as nat)) == (IniSummary {
            local_port: Some(port),
            ..info
        }),
{
    reveal_strlit("subdomain");
    lemma_key_type();
    lemma_key_local_ip();
    lemma_key_local_port();
    lemma_key_custom_domains();
    decimal_u16_parses(port);
}

#[verifier::spinoff_prover]
proof fn lemma_tunnel_head(c: TunnelConfig, ls: Seq<Seq<char>>, text: Seq<char>, checked: bool) -> (out: Seq<
    Seq<char>,
>)
    requires
        writable(c),
        plain_fields(c),
        valid_tunnel_name(c.tunnel_name@),
        c.tunnel_name@ != "common"@,
        read_so_far(ls, text, common_summary(c), "common"@, checked),
    ensures
        read_so_far(
            out,
            text + tunnel_part(c),
            IniSummary {
                tunnel_names: seq![c.tunnel_name@],
                tunnel_type: Some(c.tunnel_type@),
                local_ip: Some(c.local_ip@),
                local_port: Some(c.local_port),
                ..common_summary(c)
            },
            c.tunnel_name@,
            checked,
        ),
{
    let name = c.tunnel_name@;
    let l1 = lemma_tunnel_header_line(c, ls, text, checked);
    let t1 = text + "["@ + name + "]\n"@;
    let i1 = IniSummary { tunnel_names: seq![name], ..common_summary(c) };
    lemma_type_plain(c.tunnel_type@);
    lemma_key_type();
    lemma_tunnel_keys(i1, name, c.tunnel_type@, c.local_ip@, c.local_port);
    let l2 = lemma_tunnel_key_line(l1, t1, i1, name, "type"@, "type = "@, c.tunnel_type@, checked);
    let t2 = t1 + "type = "@ + c.tunnel_type@ + "\n"@;
    let i2 = IniSummary { tunnel_type: Some(c.tunnel_type@), ..i1 };
    lemma_key_local_ip();
    lemma_tunnel_keys(i2, name, c.tunnel_type@, c.local_ip@, c.local_port);
    let l3 = lemma_tunnel_key_line(l2, t2, i2, name, "local_ip"@, "local_ip = "@, c.local_ip@, checked);
    let t3 = t2 + "local_ip = "@ + c.local_ip@ + "\n"@;
    let i3 = IniSummary { local_ip: Some(c.local_ip@), ..i2 };
    lemma_key_local_port();
    lemma_digits_plain(c.local_port as nat);
    lemma_tunnel_keys(i3, name, c.tunnel_type@, c.local_ip@, c.local_port);
    let l4 = lemma_tunnel_key_line(
        l3,
        t3,
        i3,
        name,
        "local_port"@,
        "local_port = "@,
        decimal(c.local_port as nat),
        checked,
    );
    lemma_tunnel_part_split(text, c);
    l4
}

#[verifier::spinoff_prover]
proof fn lemma_tunnel_tail(c: TunnelConfig, ls: Seq<Seq<char>>, text: Seq<char>, checked: bool) -> (out: Seq<
    Seq<char>,
>)
    requires
        writable(c),
        plain_fields(c),
        c.tunnel_name@ != "common"@,
        c.tunnel_name@.len() > 0,
        read_so_far(
            ls,
            text,
            IniSummary {
                tunnel_names: seq![c.tunnel_name@],
                tunnel_type: Some(c.tunnel_type@),
                local_ip: Some(c.local_ip@),
                local_port: Some(c.local_port),
                ..common_summary(c)
            },
            c.tunnel_name@,
            checked,
        ),
    ensures
        read_so_far(out, text + config_tail(c), written_summary(c), c.tunnel_name@, checked),
{
    let name = c.tunnel_name@;
    let info = IniSummary {
        tunnel_names: seq![c.tunnel_name@],
        tunnel_type: Some(c.tunnel_type@),
        local_ip: Some(c.local_ip@),
        local_port: Some(c.local_port),
        ..common_summary(c)
    };
    reveal_strlit("\n");
    reveal_strlit("subdomain");
    lemma_key_type();
    lemma_key_local_ip();
    lemma_key_local_port();
    lemma_key_custom_domains();
    lemma_key_remote_port();
    reveal_strlit("http");
    reveal_strlit("https");
    reveal_strlit("tcp");
    reveal_strlit("udp");
    if is_port_type(c.tunnel_type@) {
        let p = c.remote_port.unwrap();
        lemma_digits_plain(p as nat);
        decimal_u16_parses(p);
        lemma_tunnel_push(ls, text, info, name, "remote_port"@, "remote_port = "@, decimal(p as nat), checked);
        lemma_port_not_domain(c.tunnel_type@);
        assert(name != "common"@ && name.len() > 0);
        assert("remote_port"@ != "type"@);
        assert("remote_port"@ != "custom_domains"@);
        assert("remote_port"@ != "subdomain"@);
        assert("remote_port"@ != "local_ip"@);
        assert("remote_port"@ != "local_port"@);
        assert(c.remote_port == Some(p));
        assert(apply_key(info, name, "remote_port"@, decimal(p as nat)) == IniSummary { remote_port: Some(p), ..info });
        assert(apply_key(info, name, "remote_port"@, decimal(p as nat)) == written_summary(c));
        assert(text + "remote_port = "@ + decimal(p as nat) + seq!['\n'] =~= text + config_tail(c));
        ls.push(entry("remote_port"@, decimal(p as nat)))
    } else {
        let d = c.custom_domains.unwrap();
        lemma_tunnel_push(ls, text, info, name, "custom_domains"@, "custom_domains = "@, d@, checked);
        assert(apply_key(info, name, "custom_domains"@, d@) == written_summary(c));
        assert(text + "custom_domains = "@ + d@ + seq!['\n'] =~= text + config_tail(c));
        ls.push(entry("custom_domains"@, d@))
    }
}

/// Summarising the configuration written for a tunnel gives the tunnel
/// back: its server address and port, its name as the only tunnel, its
/// type, local address and port, and its remote port (TCP/UDP) or custom
/// domains (HTTP/HTTPS). This holds when the written fields hold no line
/// break and no white space at either end, and the tunnel's name obeys the
/// naming rule and is not `common`.
pub proof fn generated_config_reads_back(c: TunnelConfig, checked: bool)
    requires
        frpc_config(c) is Ok,
        plain_fields(c),
        valid_tunnel_name(c.tunnel_name@),
        c.tunnel_name@ != "common"@,
    ensures
        ini_summary(frpc_config(c)->Ok_0, checked) == Some(written_summary(c)),
{
    lemma_written_text(c);
    let l1 = lemma_common_lines(c, checked);
    assert(read_so_far(l1, common_part(c), common_summary(c), "common"@, checked));
    let l2 = lemma_tunnel_head(c, l1, common_part(c), checked);
    let l3 = lemma_tunnel_tail(c, l2, common_part(c) + tunnel_part(c), checked);
}

} // verus!

verus! {

proof fn lemma_key_subdomain()
    ensures
        plain_key("subdomain"@),
        "subdomain = "@ == "subdomain"@ + seq![' ', '=', ' '],
        "subdomain"@.len() == 9,
{
    reveal_strlit("subdomain");
    reveal_strlit("subdomain = ");
    assert("subdomain = "@ =~= "subdomain"@ + seq![' ', '=', ' ']);
}

/// Reading a `<key> = <value>` line, for a key written as `kt`.
proof fn lemma_key_line_step(info: IniSummary, section: Seq<char>, k: Seq<char>, kt: Seq<char>, v: Seq<char>, checked: bool)
    requires
        plain_key(k),
        plain_value(v),
        kt == k + seq![' ', '=', ' '],
    ensures
        summary_step(info, section, kt + v, checked) == Some((apply_key(info, section, k, v), section)),
{
    lemma_entry_step(info, section, k, v, checked);
    assert(kt + v == entry(k, v));
}

/// Inside a tunnel section, a `type`, `custom_domains`, `subdomain` or
/// `local_ip` line sets that field of the summary to the (trimmed) value,
/// and a `local_port` or `remote_port` line sets that port to the value
/// read as a port; nothing else of the summary changes. Inside `[common]`,
/// `server_addr` and `server_port` lines do the same for the server.
pub proof fn key_lines_set_their_fields(info: IniSummary, section: Seq<char>, v: Seq<char>, checked: bool)
    requires
        plain_value(v),
    ensures
        section.len() > 0 && section != "common"@ ==> {
            &&& summary_step(info, section, "type = "@ + v, checked) == Some(
                (IniSummary { tunnel_type: Some(v), ..info }, section),
            )
            &&& summary_step(info, section, "custom_domains = "@ + v, checked) == Some(
                (IniSummary { custom_domains: Some(v), ..info }, section),
            )
            &&& summary_step(info, section, "subdomain = "@ + v, checked) == Some(
                (IniSummary { subdomain: Some(v), ..info }, section),
            )
            &&& summary_step(info, section, "local_ip = "@ + v, checked) == Some(
                (IniSummary { local_ip: Some(v), ..info }, section),
            )
            &&& summary_step(info, section, "local_port = "@ + v, checked) == Some(
                (IniSummary { local_port: parse_u16(v), ..info }, section),
            )
            &&& summary_step(info, section, "remote_port = "@ + v, checked) == Some(
                (IniSummary { remote_port: parse_u16(v), ..info }, section),
            )
        },
        summary_step(info, "common"@, "server_addr = "@ + v, checked) == Some(
            (IniSummary { server_addr: Some(v), ..info }, "common"@),
        ),
        summary_step(info, "common"@, "server_port = "@ + v, checked) == Some(
            (IniSummary { server_port: parse_u16(v), ..info }, "common"@),
        ),
{
    lemma_fixed_texts();
    lemma_key_type();
    lemma_key_custom_domains();
    lemma_key_subdomain();
    lemma_key_local_ip();
    lemma_key_local_port();
    lemma_key_remote_port();
    lemma_key_server_addr();
    lemma_key_server_port();
    lemma_key_line_step(info, section, "type"@, "type = "@, v, checked);
    lemma_key_line_step(info, section, "custom_domains"@, "custom_domains = "@, v, checked);
    lemma_key_line_step(info, section, "subdomain"@, "subdomain = "@, v, checked);
    lemma_key_line_step(info, section, "local_ip"@, "local_ip = "@, v, checked);
    lemma_key_line_step(info, section, "local_port"@, "local_port = "@, v, checked);
    lemma_key_line_step(info, section, "remote_port"@, "remote_port = "@, v, checked);
    lemma_key_line_step(info, "common"@, "server_addr"@, "server_addr = "@, v, checked);
    lemma_key_line_step(info, "common"@, "server_port"@, "server_port = "@, v, checked);
}

} // verus!
