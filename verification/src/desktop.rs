//! The desktop launcher's own rules: listening ports read from system tool
//! output, start-up marks, background images, the TLS repair of an old
//! configuration, and the tray icon's reactions.

use vstd::prelude::*;
use crate::download::{lowercase_of, rfind_char, rfind_char_exec, to_lowercase};
use crate::numbers::{decimal, u64_decimal};
use crate::sanitize::{breaks_at, lemma_replace_absent, lemma_replaced_pattern_gone, replace_all, replace_chars};
use crate::text::{
    chars_eq, chars_of, find_char, find_char_exec, is_white, is_white_exec, lines, lines_of,
    push_str, string_from, sub_chars,
};
use crate::api::{contains_chars, contains_text};

verus! {

broadcast use vstd::string::group_string_axioms;

// ---------------------------------------------------------------------------
// Splitting tool output
// ---------------------------------------------------------------------------

/// Scanning state of splitting at whitespace: the finished words and the
/// word still open.
pub open spec fn words_state(s: Seq<char>) -> (Seq<Seq<char>>, Seq<char>)
    decreases s.len(),
{
    if s.len() == 0 {
        (Seq::empty(), Seq::empty())
    } else {
        let (done, cur) = words_state(s.drop_last());
        if is_white(s.last()) {
            if cur.len() > 0 {
                (done.push(cur), Seq::empty())
            } else {
                (done, Seq::empty())
            }
        } else {
            (done, cur.push(s.last()))
        }
    }
}

/// The whitespace-separated words of `s` (`str::split_whitespace`).
pub open spec fn words(s: Seq<char>) -> Seq<Seq<char>> {
    let (done, cur) = words_state(s);
    if cur.len() > 0 {
        done.push(cur)
    } else {
        done
    }
}

/// The words of a line.
pub fn words_of(v: &Vec<char>) -> (r: Vec<Vec<char>>)
    ensures
        r@.len() == words(v@).len(),
        forall|k: int| 0 <= k < r@.len() ==> #[trigger] r@[k]@ == words(v@)[k],
{
    let mut done: Vec<Vec<char>> = Vec::new();
    let mut cur: Vec<char> = Vec::new();
    let mut i: usize = 0;
    while i < v.len()
        invariant
            i <= v.len(),
            done@.len() == words_state(v@.take(i as int)).0.len(),
            forall|k: int|
                0 <= k < done@.len() ==> #[trigger] done@[k]@ == words_state(v@.take(i as int)).0[k],
            cur@ == words_state(v@.take(i as int)).1,
        decreases v.len() - i,
    {
        proof {
            assert(v@.take(i + 1).drop_last() =~= v@.take(i as int));
            assert(v@.take(i + 1).last() == v@[i as int]);
        }
        let c = v[i];
        if is_white_exec(c) {
            if cur.len() > 0 {
                done.push(cur);
                cur = Vec::new();
            }
        } else {
            cur.push(c);
        }
        i = i + 1;
    }
    assert(v@.take(v.len() as int) =~= v@);
    if cur.len() > 0 {
        done.push(cur);
    }
    done
}

/// The part of `s` before the first `c` (all of `s` when there is none).
pub open spec fn first_part(s: Seq<char>, c: char) -> Seq<char> {
    match find_char(s, c) {
        Some(p) => s.take(p),
        None => s,
    }
}

/// The second `c`-separated part of `s`, when `s` holds a `c`.
pub open spec fn second_part(s: Seq<char>, c: char) -> Seq<char> {
    match find_char(s, c) {
        Some(p) => first_part(s.skip(p + 1), c),
        None => Seq::empty(),
    }
}

/// The part of `s` after its last `c` (all of `s` when there is none).
pub open spec fn last_part(s: Seq<char>, c: char) -> Seq<char> {
    match rfind_char(s, c) {
        Some(p) => s.skip(p + 1),
        None => s,
    }
}

fn first_part_exec(v: &Vec<char>, c: char) -> (r: Vec<char>)
    ensures
        r@ == first_part(v@, c),
{
    match find_char_exec(v, c) {
        Some(p) => {
            let r = sub_chars(v, 0, p);
            assert(r@ =~= v@.take(p as int));
            r
        },
        None => sub_chars(v, 0, v.len()),
    }
}

fn second_part_exec(v: &Vec<char>, c: char) -> (r: Vec<char>)
    ensures
        r@ == second_part(v@, c),
{
    match find_char_exec(v, c) {
        Some(p) => {
            let rest = sub_chars(v, p + 1, v.len());
            assert(rest@ =~= v@.skip(p + 1));
            first_part_exec(&rest, c)
        },
        None => Vec::new(),
    }
}

fn last_part_exec(v: &Vec<char>, c: char) -> (r: Vec<char>)
    ensures
        r@ == last_part(v@, c),
{
    match rfind_char_exec(v, c) {
        Some(p) => {
            let r = sub_chars(v, p + 1, v.len());
            assert(r@ =~= v@.skip(p + 1));
            r
        },
        None => sub_chars(v, 0, v.len()),
    }
}

/// `s` without the double quotes at its start and end (`trim_matches('"')`).
pub open spec fn trim_quotes(s: Seq<char>) -> Seq<char>
    decreases s.len(),
{
    if s.len() > 0 && s[0] == '"' {
        trim_quotes(s.drop_first())
    } else if s.len() > 0 && s.last() == '"' {
        trim_quotes(s.drop_last())
    } else {
        s
    }
}

fn trim_quotes_exec(v: &Vec<char>) -> (r: Vec<char>)
    ensures
        r@ == trim_quotes(v@),
{
    let mut i: usize = 0;
    let mut j: usize = v.len();
    assert(v@.subrange(0, v.len() as int) =~= v@);
    while i < j && (v[i] == '"' || v[j - 1] == '"')
        invariant
            i <= j <= v.len(),
            trim_quotes(v@) == trim_quotes(v@.subrange(i as int, j as int)),
        decreases j - i,
    {
        let ghost s = v@.subrange(i as int, j as int);
        if v[i] == '"' {
            assert(s.drop_first() =~= v@.subrange(i + 1, j as int));
            i = i + 1;
        } else {
            assert(s.drop_last() =~= v@.subrange(i as int, j - 1));
            j = j - 1;
        }
    }
    sub_chars(v, i, j)
}

// ---------------------------------------------------------------------------
// Listening ports
// ---------------------------------------------------------------------------

/// A listening port and the process that holds it.
#[derive(Debug, Clone)]
pub struct PortInfo {
    pub port: String,
    pub pid: String,
    pub process: String,
}

/// Whether a local port is taken, and by which process.
#[derive(Debug, Clone)]
pub struct PortCheckResult {
    pub occupied: bool,
    pub pid: Option<String>,
    pub process: Option<String>,
}

/// The tool whose output lists the listening ports.
#[derive(Debug, Clone, Copy, PartialEq, Eq, Structural)]
pub enum PortTool {
    /// Linux `netstat -lntp` without its two header lines.
    LinuxNetstat,
    /// macOS `lsof -iTCP -sTCP:LISTEN -n -P`.
    MacLsof,
    /// Windows `netstat -ano` lines with `LISTENING`, with `tasklist` output
    /// to name the processes.
    WindowsNetstat,
}

/// The process name `tasklist` output gives a process id: the first field
/// of the first line that mentions it, without quotes; empty when none does.
pub open spec fn task_name(tasks: Seq<Seq<char>>, pid: Seq<char>) -> Seq<char>
    decreases tasks.len(),
{
    if tasks.len() == 0 {
        Seq::empty()
    } else if contains_text(tasks[0], pid) {
        trim_quotes(first_part(tasks[0], ','))
    } else {
        task_name(tasks.drop_first(), pid)
    }
}

/// The (port, process id, process name) a line of tool output describes.
pub open spec fn port_line(tool: PortTool, line: Seq<char>, tasks: Seq<Seq<char>>) -> Option<
    (Seq<char>, Seq<char>, Seq<char>),
> {
    let parts = words(line);
    match tool {
        PortTool::LinuxNetstat => if parts.len() >= 7 {
            Some(
                (
                    last_part(parts[3], ':'),
                    first_part(parts[6], '/'),
                    second_part(parts[6], '/'),
                ),
            )
        } else {
            None
        },
        PortTool::MacLsof => if parts.len() >= 9 {
            Some((last_part(parts[8], ':'), parts[1], parts[0]))
        } else {
            None
        },
        PortTool::WindowsNetstat => if parts.len() >= 5 {
            Some((last_part(parts[1], ':'), parts[4], task_name(tasks, parts[4])))
        } else {
            None
        },
    }
}

/// The ports the lines describe, in order.
pub open spec fn ports_in(ls: Seq<Seq<char>>, tool: PortTool, tasks: Seq<Seq<char>>) -> Seq<
    (Seq<char>, Seq<char>, Seq<char>),
>
    decreases ls.len(),
{
    if ls.len() == 0 {
        Seq::empty()
    } else {
        let rest = ports_in(ls.drop_last(), tool, tasks);
        match port_line(tool, ls.last(), tasks) {
            Some(p) => rest.push(p),
            None => rest,
        }
    }
}

/// The ports a tool's output lists (lsof's header line skipped).
pub open spec fn listed_ports(tool: PortTool, output: Seq<char>, tasklist: Seq<char>) -> Seq<
    (Seq<char>, Seq<char>, Seq<char>),
> {
    let ls = if tool == PortTool::MacLsof && lines(output).len() > 0 {
        lines(output).drop_first()
    } else {
        lines(output)
    };
    ports_in(ls, tool, lines(tasklist))
}

/// The values of a port record.
pub open spec fn port_view(p: PortInfo) -> (Seq<char>, Seq<char>, Seq<char>) {
    (p.port@, p.pid@, p.process@)
}

fn task_name_exec(tasks: &Vec<Vec<char>>, pid: &Vec<char>) -> (r: Vec<char>)
    ensures
        r@ == task_name(tasks@.map_values(|t: Vec<char>| t@), pid@),
{
    let ghost tv = tasks@.map_values(|t: Vec<char>| t@);
    let mut i: usize = 0;
    assert(tv.skip(0) =~= tv);
    while i < tasks.len()
        invariant
            i <= tasks.len(),
            tv == tasks@.map_values(|t: Vec<char>| t@),
            task_name(tv, pid@) == task_name(tv.skip(i as int), pid@),
        decreases tasks.len() - i,
    {
        assert(tv.skip(i as int)[0] == tasks@[i as int]@);
        assert(tv.skip(i as int).drop_first() =~= tv.skip(i + 1));
        if contains_chars(&tasks[i], pid) {
            return trim_quotes_exec(&first_part_exec(&tasks[i], ','));
        }
        i = i + 1;
    }
    Vec::new()
}

fn port_line_exec(tool: PortTool, line: &Vec<char>, tasks: &Vec<Vec<char>>) -> (r: Option<PortInfo>)
    ensures
        match port_line(tool, line@, tasks@.map_values(|t: Vec<char>| t@)) {
            Some(p) => r matches Some(x) && port_view(x) == p,
            None => r is None,
        },
{
    let parts = words_of(line);
    match tool {
        PortTool::LinuxNetstat => {
            if parts.len() >= 7 {
                Some(
                    PortInfo {
                        port: string_from(&last_part_exec(&parts[3], ':')),
                        pid: string_from(&first_part_exec(&parts[6], '/')),
                        process: string_from(&second_part_exec(&parts[6], '/')),
                    },
                )
            } else {
                None
            }
        },
        PortTool::MacLsof => {
            if parts.len() >= 9 {
                Some(
                    PortInfo {
                        port: string_from(&last_part_exec(&parts[8], ':')),
                        pid: string_from(&parts[1]),
                        process: string_from(&parts[0]),
                    },
                )
            } else {
                None
            }
        },
        PortTool::WindowsNetstat => {
            if parts.len() >= 5 {
                Some(
                    PortInfo {
                        port: string_from(&last_part_exec(&parts[1], ':')),
                        pid: string_from(&parts[4]),
                        process: string_from(&task_name_exec(tasks, &parts[4])),
                    },
                )
            } else {
                None
            }
        },
    }
}

/// The listening ports a tool's output lists, with the process holding
/// each. `tasklist` is read only for [`PortTool::WindowsNetstat`].
pub fn parse_ports(tool: PortTool, output: &str, tasklist: &str) -> (r: Vec<PortInfo>)
    ensures
        r@.map_values(|p: PortInfo| port_view(p)) == listed_ports(tool, output@, tasklist@),
{
    let all = lines_of(&chars_of(output));
    let tasks = lines_of(&chars_of(tasklist));
    let ghost tv = tasks@.map_values(|t: Vec<char>| t@);
    assert(tv =~= lines(tasklist@));
    let start: usize = if tool == PortTool::MacLsof && all.len() > 0 {
        1
    } else {
        0
    };
    let ghost ls = if tool == PortTool::MacLsof && lines(output@).len() > 0 {
        lines(output@).drop_first()
    } else {
        lines(output@)
    };
    let mut out: Vec<PortInfo> = Vec::new();
    let mut i: usize = start;
    assert(ls.take(0) =~= Seq::<Seq<char>>::empty());
    while i < all.len()
        invariant
            start <= i <= all.len(),
            all@.len() == lines(output@).len(),
            forall|k: int| 0 <= k < all@.len() ==> #[trigger] all@[k]@ == lines(output@)[k],
            ls.len() == all.len() - start,
            forall|k: int| 0 <= k < ls.len() ==> #[trigger] ls[k] == lines(output@)[k + start],
            tv == tasks@.map_values(|t: Vec<char>| t@),
            tv == lines(tasklist@),
            out@.map_values(|p: PortInfo| port_view(p)) == ports_in(ls.take(i - start), tool, tv),
        decreases all.len() - i,
    {
        let ghost before = out@;
        assert(ls.take(i - start + 1).drop_last() =~= ls.take(i - start));
        assert(ls.take(i - start + 1).last() == all@[i as int]@);
        match port_line_exec(tool, &all[i], &tasks) {
            Some(p) => {
                out.push(p);
                assert(out@.map_values(|p: PortInfo| port_view(p)) =~= before.map_values(
                    |p: PortInfo| port_view(p),
                ).push(port_view(out@[out@.len() - 1])));
            },
            None => {},
        }
        i = i + 1;
    }
    assert(ls.take(all.len() - start) =~= ls);
    out
}

/// What checking a local port answers: the first listed record of that
/// port tells it is taken and by which process.
pub open spec fn port_check(ports: Seq<PortInfo>, port: Seq<char>) -> (bool, Option<Seq<char>>, Option<Seq<char>>)
    decreases ports.len(),
{
    if ports.len() == 0 {
        (false, None, None)
    } else if ports[0].port@ == port {
        (true, Some(ports[0].pid@), Some(ports[0].process@))
    } else {
        port_check(ports.drop_first(), port)
    }
}

/// The values of a port check.
pub open spec fn check_view(r: PortCheckResult) -> (bool, Option<Seq<char>>, Option<Seq<char>>) {
    (
        r.occupied,
        match r.pid {
            Some(s) => Some(s@),
            None => None,
        },
        match r.process {
            Some(s) => Some(s@),
            None => None,
        },
    )
}

/// Whether a local port is taken among the listed ports, and by what.
pub fn check_local_port(ports: Vec<PortInfo>, port: &str) -> (r: PortCheckResult)
    ensures
        check_view(r) == port_check(ports@, port@),
{
    let mut i: usize = 0;
    let want = chars_of(port);
    assert(ports@.skip(0) =~= ports@);
    while i < ports.len()
        invariant
            i <= ports.len(),
            want@ == port@,
            port_check(ports@, port@) == port_check(ports@.skip(i as int), port@),
        decreases ports.len() - i,
    {
        assert(ports@.skip(i as int)[0] == ports@[i as int]);
        assert(ports@.skip(i as int).drop_first() =~= ports@.skip(i + 1));
        if chars_eq(&chars_of(ports[i].port.as_str()), &want) {
            return PortCheckResult {
                occupied: true,
                pid: Some(ports[i].pid.clone()),
                process: Some(ports[i].process.clone()),
            };
        }
        i = i + 1;
    }
    PortCheckResult { occupied: false, pid: None, process: None }
}

} // verus!

verus! {

// ---------------------------------------------------------------------------
// Start-up marks
// ---------------------------------------------------------------------------

/// The key under which a tunnel's start-up mark is stored: `<type>_<id>`.
pub open spec fn auto_start_key_of(tunnel_type: Seq<char>, tunnel_id: Seq<char>) -> Seq<char> {
    tunnel_type + "_"@ + tunnel_id
}

/// The key under which a tunnel's start-up mark is stored.
pub fn auto_start_key(tunnel_type: &str, tunnel_id: &str) -> (r: String)
    ensures
        r@ == auto_start_key_of(tunnel_type@, tunnel_id@),
{
    let mut v = chars_of(tunnel_type);
    v.push('_');
    push_str(&mut v, tunnel_id);
    assert(v@ =~= tunnel_type@ + "_"@ + tunnel_id@) by {
        reveal_strlit("_");
    }
    string_from(&v)
}

/// The values of stored marks: each key with its value when that is a boolean.
pub open spec fn entries_view(v: Seq<(String, Option<bool>)>) -> Seq<(Seq<char>, Option<bool>)> {
    v.map_values(|e: (String, Option<bool>)| (e.0@, e.1))
}

/// The marked tunnels of the stored marks, as (type, id) split at the key's
/// first `_`, in the order of the marks; keys without `_` are skipped.
pub open spec fn marked_tunnels(entries: Seq<(Seq<char>, Option<bool>)>) -> Seq<(Seq<char>, Seq<char>)>
    decreases entries.len(),
{
    if entries.len() == 0 {
        Seq::empty()
    } else {
        let rest = marked_tunnels(entries.drop_last());
        let (key, value) = entries.last();
        if value == Some(true) {
            match find_char(key, '_') {
                Some(p) => rest.push((key.take(p), key.skip(p + 1))),
                None => rest,
            }
        } else {
            rest
        }
    }
}

/// The tunnels marked to start with the launcher.
pub fn get_auto_start_tunnels(entries: &Vec<(String, Option<bool>)>) -> (r: Vec<(String, String)>)
    ensures
        crate::ini::pairs_view(r@) == marked_tunnels(entries_view(entries@)),
{
    let ghost ev = entries_view(entries@);
    let mut out: Vec<(String, String)> = Vec::new();
    let mut i: usize = 0;
    assert(ev.take(0) =~= Seq::<(Seq<char>, Option<bool>)>::empty());
    while i < entries.len()
        invariant
            i <= entries.len(),
            ev == entries_view(entries@),
            crate::ini::pairs_view(out@) == marked_tunnels(ev.take(i as int)),
        decreases entries.len() - i,
    {
        assert(ev.take(i + 1).drop_last() =~= ev.take(i as int));
        assert(ev.take(i + 1).last() == (entries@[i as int].0@, entries@[i as int].1));
        let ghost before = out@;
        if entries[i].1 == Some(true) {
            let key = chars_of(entries[i].0.as_str());
            match find_char_exec(&key, '_') {
                Some(p) => {
                    let t = sub_chars(&key, 0, p);
                    let id = sub_chars(&key, p + 1, key.len());
                    assert(t@ =~= key@.take(p as int));
                    assert(id@ =~= key@.skip(p + 1));
                    out.push((string_from(&t), string_from(&id)));
                    assert(crate::ini::pairs_view(out@) =~= crate::ini::pairs_view(before).push(
                        (t@, id@),
                    ));
                },
                None => {},
            }
        }
        i = i + 1;
    }
    assert(ev.take(entries.len() as int) =~= ev);
    out
}

/// Whether a tunnel is marked: the value stored under its key, false when
/// there is none or it is not a boolean.
pub open spec fn marked_value(entries: Seq<(Seq<char>, Option<bool>)>, key: Seq<char>) -> bool
    decreases entries.len(),
{
    if entries.len() == 0 {
        false
    } else if entries[0].0 == key {
        entries[0].1 == Some(true)
    } else {
        marked_value(entries.drop_first(), key)
    }
}

/// Whether a tunnel is marked to start with the launcher.
pub fn get_tunnel_auto_start(
    entries: &Vec<(String, Option<bool>)>,
    tunnel_type: &str,
    tunnel_id: &str,
) -> (r: bool)
    ensures
        r == marked_value(entries_view(entries@), auto_start_key_of(tunnel_type@, tunnel_id@)),
{
    let key = auto_start_key(tunnel_type, tunnel_id);
    let kv = chars_of(key.as_str());
    let ghost ev = entries_view(entries@);
    let mut i: usize = 0;
    assert(ev.skip(0) =~= ev);
    while i < entries.len()
        invariant
            i <= entries.len(),
            ev == entries_view(entries@),
            kv@ == auto_start_key_of(tunnel_type@, tunnel_id@),
            marked_value(ev, kv@) == marked_value(ev.skip(i as int), kv@),
        decreases entries.len() - i,
    {
        assert(ev.skip(i as int)[0] == (entries@[i as int].0@, entries@[i as int].1));
        assert(ev.skip(i as int).drop_first() =~= ev.skip(i + 1));
        if chars_eq(&chars_of(entries[i].0.as_str()), &kv) {
            return entries[i].1 == Some(true);
        }
        i = i + 1;
    }
    false
}

// ---------------------------------------------------------------------------
// Background images and videos
// ---------------------------------------------------------------------------

/// Whether a lower-case extension names an image the slideshow takes.
pub open spec fn is_image_extension(ext: Seq<char>) -> bool {
    ext == "png"@ || ext == "jpg"@ || ext == "jpeg"@ || ext == "gif"@ || ext == "webp"@ || ext
        == "bmp"@
}

/// Whether a lower-case extension names a background video.
pub open spec fn is_video_extension(ext: Seq<char>) -> bool {
    ext == "mp4"@ || ext == "webm"@ || ext == "ogv"@ || ext == "mov"@
}

fn one_of(s: &str, options: &[&str]) -> (r: bool)
    ensures
        r == exists|k: int| 0 <= k < options@.len() && #[trigger] options@[k]@ == s@,
{
    let v = chars_of(s);
    let mut i: usize = 0;
    while i < options.len()
        invariant
            i <= options@.len(),
            v@ == s@,
            forall|k: int| 0 <= k < i ==> #[trigger] options@[k]@ != s@,
        decreases options.len() - i,
    {
        if chars_eq(&v, &chars_of(options[i])) {
            return true;
        }
        i = i + 1;
    }
    false
}

fn image_extension(ext: &str) -> (r: bool)
    ensures
        r == is_image_extension(ext@),
{
    let options: [&str; 6] = ["png", "jpg", "jpeg", "gif", "webp", "bmp"];
    let o: &[&str] = &options;
    let r = one_of(ext, o);
    assert(r == is_image_extension(ext@)) by {
        if is_image_extension(ext@) {
            if ext@ == "png"@ { assert(o@[0]@ == ext@); }
            else if ext@ == "jpg"@ { assert(o@[1]@ == ext@); }
            else if ext@ == "jpeg"@ { assert(o@[2]@ == ext@); }
            else if ext@ == "gif"@ { assert(o@[3]@ == ext@); }
            else if ext@ == "webp"@ { assert(o@[4]@ == ext@); }
            else { assert(o@[5]@ == ext@); }
        }
    }
    r
}

fn video_extension(ext: &str) -> (r: bool)
    ensures
        r == is_video_extension(ext@),
{
    let options: [&str; 4] = ["mp4", "webm", "ogv", "mov"];
    let o: &[&str] = &options;
    let r = one_of(ext, o);
    assert(r == is_video_extension(ext@)) by {
        if is_video_extension(ext@) {
            if ext@ == "mp4"@ { assert(o@[0]@ == ext@); }
            else if ext@ == "webm"@ { assert(o@[1]@ == ext@); }
            else if ext@ == "ogv"@ { assert(o@[2]@ == ext@); }
            else { assert(o@[3]@ == ext@); }
        }
    }
    r
}

/// A file stem made safe for a file name: ASCII letters, digits, `-` and
/// `_` kept, anything else replaced by `_`.
pub open spec fn safe_stem(stem: Seq<char>) -> Seq<char> {
    stem.map_values(
        |c: char|
            if ('a' <= c <= 'z') || ('A' <= c <= 'Z') || ('0' <= c <= '9') || c == '-' || c == '_' {
                c
            } else {
                '_'
            },
    )
}

/// A counter written with at least three digits (`{:03}`).
pub open spec fn padded3(n: nat) -> Seq<char> {
    let d = decimal(n);
    if d.len() < 3 {
        Seq::new((3 - d.len()) as nat, |i: int| '0') + d
    } else {
        d
    }
}

/// The name of the `counter`-th slideshow image: `NNN_<safe stem>.<ext>`,
/// the stem being `image` when the file has none.
pub open spec fn slide_name(counter: nat, stem: Option<Seq<char>>, ext: Seq<char>) -> Seq<char> {
    let st = match stem {
        Some(s) => s,
        None => "image"@,
    };
    padded3(counter) + "_"@ + safe_stem(st) + "."@ + ext
}

/// A directory entry as the slideshow import reads it: whether it is a
/// file, its extension and its stem (when they are text).
pub open spec fn entry_view(e: (bool, Option<String>, Option<String>)) -> (bool, Option<Seq<char>>, Option<Seq<char>>) {
    (
        e.0,
        match e.1 {
            Some(s) => Some(s@),
            None => None,
        },
        match e.2 {
            Some(s) => Some(s@),
            None => None,
        },
    )
}

/// The images a folder's entries give the slideshow, in order: the entry's
/// position and the name its copy gets. Files with an image extension (in
/// any case) are taken and numbered from 0.
pub open spec fn slideshow_plan(entries: Seq<(bool, Option<Seq<char>>, Option<Seq<char>>)>) -> Seq<(int, Seq<char>)>
    decreases entries.len(),
{
    if entries.len() == 0 {
        Seq::empty()
    } else {
        let rest = slideshow_plan(entries.drop_last());
        let (is_file, ext, stem) = entries.last();
        if is_file && ext is Some && is_image_extension(lowercase_of(ext.unwrap())) {
            rest.push(
                ((entries.len() - 1) as int, slide_name(rest.len(), stem, lowercase_of(ext.unwrap()))),
            )
        } else {
            rest
        }
    }
}

fn padded3_exec(n: usize) -> (r: Vec<char>)
    ensures
        r@ == padded3(n as nat),
{
    let d = u64_decimal(n as u64);
    if d.len() < 3 {
        let mut v: Vec<char> = Vec::new();
        let k = 3 - d.len();
        let mut i: usize = 0;
        while i < k
            invariant
                i <= k,
                v@ == Seq::new(i as nat, |j: int| '0'),
            decreases k - i,
        {
            v.push('0');
            assert(v@ =~= Seq::new((i + 1) as nat, |j: int| '0'));
            i = i + 1;
        }
        let mut dd = d;
        v.append(&mut dd);
        v
    } else {
        d
    }
}

fn safe_stem_exec(stem: &str) -> (r: Vec<char>)
    ensures
        r@ == safe_stem(stem@),
{
    let v = chars_of(stem);
    let mut out: Vec<char> = Vec::new();
    let mut i: usize = 0;
    while i < v.len()
        invariant
            i <= v.len(),
            v@ == stem@,
            out@ =~= safe_stem(v@.take(i as int)),
        decreases v.len() - i,
    {
        let c = v[i];
        let keep = ('a' <= c && c <= 'z') || ('A' <= c && c <= 'Z') || ('0' <= c && c <= '9') || c
            == '-' || c == '_';
        out.push(
            if keep {
                c
            } else {
                '_'
            },
        );
        assert(v@.take(i + 1) =~= v@.take(i as int).push(c));
        i = i + 1;
    }
    assert(v@.take(v.len() as int) =~= v@);
    out
}

/// The name of the `counter`-th slideshow image.
pub fn slide_file_name(counter: usize, stem: Option<&str>, ext: &str) -> (r: String)
    ensures
        r@ == slide_name(
            counter as nat,
            match stem {
                Some(s) => Some(s@),
                None => None,
            },
            ext@,
        ),
{
    let mut v = padded3_exec(counter);
    v.push('_');
    let st: &str = match stem {
        Some(s) => s,
        None => "image",
    };
    let mut safe = safe_stem_exec(st);
    v.append(&mut safe);
    v.push('.');
    push_str(&mut v, ext);
    proof {
        reveal_strlit("_");
        reveal_strlit(".");
    }
    string_from(&v)
}

/// The images a folder's entries give the slideshow, with the names of
/// their copies.
pub fn import_background_plan(entries: &Vec<(bool, Option<String>, Option<String>)>) -> (r: Vec<(usize, String)>)
    ensures
        r@.map_values(|p: (usize, String)| (p.0 as int, p.1@)) == slideshow_plan(
            entries@.map_values(|e: (bool, Option<String>, Option<String>)| entry_view(e)),
        ),
{
    let ghost ev = entries@.map_values(|e: (bool, Option<String>, Option<String>)| entry_view(e));
    let mut out: Vec<(usize, String)> = Vec::new();
    let mut i: usize = 0;
    assert(ev.take(0) =~= Seq::<(bool, Option<Seq<char>>, Option<Seq<char>>)>::empty());
    while i < entries.len()
        invariant
            i <= entries.len(),
            ev == entries@.map_values(|e: (bool, Option<String>, Option<String>)| entry_view(e)),
            out@.map_values(|p: (usize, String)| (p.0 as int, p.1@)) == slideshow_plan(
                ev.take(i as int),
            ),
            out@.len() <= i,
        decreases entries.len() - i,
    {
        let ghost before = out@;
        assert(ev.take(i + 1).drop_last() =~= ev.take(i as int));
        assert(ev.take(i + 1).last() == entry_view(entries@[i as int]));
        assert(ev.take(i + 1).len() == i + 1);
        let e = &entries[i];
        if e.0 {
            match &e.1 {
                Some(ext) => {
                    let lower = to_lowercase(ext.as_str());
                    if image_extension(lower.as_str()) {
                        let stem: Option<&str> = match &e.2 {
                            Some(st) => Some(st.as_str()),
                            None => None,
                        };
                        let name = slide_file_name(out.len(), stem, lower.as_str());
                        out.push((i, name));
                        assert(out@.map_values(|p: (usize, String)| (p.0 as int, p.1@))
                            =~= before.map_values(|p: (usize, String)| (p.0 as int, p.1@)).push(
                            (i as int, out@[out@.len() - 1].1@),
                        ));
                    }
                },
                None => {},
            }
        }
        i = i + 1;
    }
    assert(ev.take(entries.len() as int) =~= ev);
    out
}

/// The first entry that is a background video: a file whose extension, in
/// lower case, is a video one.
pub open spec fn first_video(entries: Seq<(bool, Option<Seq<char>>)>) -> Option<int>
    decreases entries.len(),
{
    if entries.len() == 0 {
        None
    } else if entries[0].0 && entries[0].1 is Some && is_video_extension(
        lowercase_of(entries[0].1.unwrap()),
    ) {
        Some(0)
    } else {
        match first_video(entries.drop_first()) {
            Some(k) => Some(k + 1),
            None => None,
        }
    }
}

/// The position of the first background video among directory entries
/// (whether each is a file, and its extension).
pub fn find_background_video(entries: &Vec<(bool, Option<String>)>) -> (r: Option<usize>)
    ensures
        ({
            let ev = entries@.map_values(
                |e: (bool, Option<String>)|
                    (
                        e.0,
                        match e.1 {
                            Some(s) => Some(s@),
                            None => None,
                        },
                    ),
            );
            match first_video(ev) {
                Some(k) => r == Some(k as usize),
                None => r is None,
            }
        }),
{
    let ghost ev = entries@.map_values(
        |e: (bool, Option<String>)|
            (
                e.0,
                match e.1 {
                    Some(s) => Some(s@),
                    None => None,
                },
            ),
    );
    let mut i: usize = 0;
    assert(ev.skip(0) =~= ev);
    while i < entries.len()
        invariant
            i <= entries.len(),
            ev.len() == entries.len(),
            ev == entries@.map_values(
                |e: (bool, Option<String>)|
                    (
                        e.0,
                        match e.1 {
                            Some(s) => Some(s@),
                            None => None,
                        },
                    ),
            ),
            first_video(ev) == (match first_video(ev.skip(i as int)) {
                Some(k) => Some(k + i),
                None => None::<int>,
            }),
        decreases entries.len() - i,
    {
        assert(ev.skip(i as int)[0] == ev[i as int]);
        assert(ev.skip(i as int).drop_first() =~= ev.skip(i + 1));
        let e = &entries[i];
        if e.0 {
            match &e.1 {
                Some(ext) => {
                    let lower = to_lowercase(ext.as_str());
                    if video_extension(lower.as_str()) {
                        return Some(i);
                    }
                },
                None => {},
            }
        }
        i = i + 1;
    }
    None
}

// ---------------------------------------------------------------------------
// The TLS repair of `frpc.ini`
// ---------------------------------------------------------------------------

/// The configuration with every `tls_enable = false` turned into
/// `tls_enable = true`.
pub open spec fn tls_repaired(content: Seq<char>) -> Seq<char> {
    replace_all(content, "tls_enable = false"@, "tls_enable = true"@)
}

/// A repaired configuration holds no `tls_enable = false` any more, so a
/// second repair changes nothing, and `enable_tls` refuses it.
pub proof fn repair_leaves_nothing_to_repair(content: Seq<char>)
    ensures
        !contains_text(tls_repaired(content), "tls_enable = false"@),
        tls_repaired(tls_repaired(content)) == tls_repaired(content),
{
    reveal_strlit("tls_enable = false");
    reveal_strlit("tls_enable = true");
    let p = "tls_enable = false"@;
    let to = "tls_enable = true"@;
    assert forall|j: int| 1 <= j < p.len() implies #[trigger] p[j] != to[0] by {}
    assert forall|i: int| 0 <= i < to.len() implies #[trigger] breaks_at(to, p, i) by {
        if i == 0 {
            assert(to[13] != p[13]);
        } else if i == 13 {
            assert(to[14] != p[1]);
        } else {
            assert(to[i] != p[0]);
        }
    }
    lemma_replaced_pattern_gone(content, p, to);
    lemma_replace_absent(tls_repaired(content), p, to);
}

/// The configuration with TLS switched on: every `tls_enable = false`
/// becomes `tls_enable = true`; refused when there is none to change.
pub fn enable_tls(content: &str) -> (r: Result<String, String>)
    ensures
        ({
            let fixed = tls_repaired(content@);
            if fixed == content@ {
                r matches Err(e) && e@ == "配置文件中未找到 tls_enable = false"@
            } else {
                r matches Ok(s) && s@ == fixed
            }
        }),
{
    let v = chars_of(content);
    let fixed = replace_chars(&v, &chars_of("tls_enable = false"), &chars_of("tls_enable = true"));
    if chars_eq(&fixed, &v) {
        Err("配置文件中未找到 tls_enable = false".to_owned())
    } else {
        Ok(string_from(&fixed))
    }
}

// ---------------------------------------------------------------------------
// The tray icon
// ---------------------------------------------------------------------------

/// What a tray menu item does.
#[derive(Debug, Clone, Copy, PartialEq, Eq, Structural)]
pub enum TrayAction {
    ShowWindow,
    Quit,
    Nothing,
}

/// What the tray menu item with the given id does.
pub fn tray_menu_action(id: &str) -> (r: TrayAction)
    ensures
        r == (if id@ == "show"@ {
            TrayAction::ShowWindow
        } else if id@ == "quit"@ {
            TrayAction::Quit
        } else {
            TrayAction::Nothing
        }),
{
    let v = chars_of(id);
    if chars_eq(&v, &chars_of("show")) {
        TrayAction::ShowWindow
    } else if chars_eq(&v, &chars_of("quit")) {
        TrayAction::Quit
    } else {
        TrayAction::Nothing
    }
}

/// What a left click on the tray icon does to the window.
#[derive(Debug, Clone, Copy, PartialEq, Eq, Structural)]
pub enum WindowToggle {
    Hide,
    Show,
    ShowAndFocus,
}

/// A left click hides a visible window and shows a hidden one; when the
/// window's state cannot be read it is shown and focused.
pub fn tray_click_toggle(visible: Option<bool>) -> (r: WindowToggle)
    ensures
        r == (match visible {
            Some(true) => WindowToggle::Hide,
            Some(false) => WindowToggle::Show,
            None => WindowToggle::ShowAndFocus,
        }),
{
    match visible {
        Some(true) => WindowToggle::Hide,
        Some(false) => WindowToggle::Show,
        None => WindowToggle::ShowAndFocus,
    }
}

} // verus!

verus! {

proof fn lemma_find_char_after(t: Seq<char>, rest: Seq<char>, c: char)
    requires
        forall|k: int| 0 <= k < t.len() ==> t[k] != c,
        rest.len() > 0,
        rest[0] == c,
    ensures
        find_char(t + rest, c) == Some(t.len() as int),
    decreases t.len(),
{
    if t.len() == 0 {
        assert(t + rest =~= rest);
    } else {
        lemma_find_char_after(t.drop_first(), rest, c);
        assert((t + rest).drop_first() =~= t.drop_first() + rest);
    }
}

/// A marked tunnel whose type has no `_` is read back from its stored key
/// as the same type and id.
pub proof fn auto_start_key_reads_back(tunnel_type: Seq<char>, tunnel_id: Seq<char>)
    requires
        forall|k: int| 0 <= k < tunnel_type.len() ==> tunnel_type[k] != '_',
    ensures
        marked_tunnels(seq![(auto_start_key_of(tunnel_type, tunnel_id), Some(true))]) == seq![
            (tunnel_type, tunnel_id),
        ],
{
    reveal_strlit("_");
    let key = auto_start_key_of(tunnel_type, tunnel_id);
    let rest = "_"@ + tunnel_id;
    assert(key =~= tunnel_type + rest);
    lemma_find_char_after(tunnel_type, rest, '_');
    assert(key.take(tunnel_type.len() as int) =~= tunnel_type);
    assert(key.skip(tunnel_type.len() as int + 1) =~= tunnel_id);
    let entries = seq![(key, Some(true))];
    assert(entries.drop_last() =~= Seq::<(Seq<char>, Option<bool>)>::empty());
    assert(entries.last() == (key, Some(true)));
    assert(marked_tunnels(entries.drop_last()) =~= Seq::<(Seq<char>, Seq<char>)>::empty());
    assert(marked_tunnels(entries) == Seq::<(Seq<char>, Seq<char>)>::empty().push(
        (key.take(tunnel_type.len() as int), key.skip(tunnel_type.len() as int + 1)),
    ));
    assert(marked_tunnels(entries) =~= seq![(tunnel_type, tunnel_id)]);
}

} // verus!
