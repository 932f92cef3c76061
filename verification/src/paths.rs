//! Where the launcher keeps its files inside its data directory.

use vstd::prelude::*;
use crate::text::{ends_with, starts_with};

verus! {

broadcast use vstd::string::group_string_axioms;

/// Characters that make a file name that `Path::join` appends as is.
pub open spec fn is_file_name_char(c: char) -> bool {
    ('a' <= c && c <= 'z') || ('A' <= c && c <= 'Z') || ('0' <= c && c <= '9') || c == '_'
        || c == '-' || c == '.'
}

/// A plain, relative file name: letters, digits, `_`, `-`, `.`, and not
/// made of dots alone (so neither `.` nor `..`).
pub open spec fn plain_file_name(name: Seq<char>) -> bool {
    &&& forall|k: int| 0 <= k < name.len() ==> is_file_name_char(#[trigger] name[k])
    &&& exists|k: int| 0 <= k < name.len() && #[trigger] name[k] != '.'
}

/// A directory with a Windows verbatim prefix, `\\?\`. Joining to such
/// a directory normalises the whole path.
pub open spec fn verbatim_prefixed(dir: Seq<char>) -> bool {
    starts_with(dir, seq!['\\', '\\', '?', '\\'])
}

/// `path` is `dir` with `name` appended: directly, or after a `/` or `\`
/// separator.
pub open spec fn joined(path: Seq<char>, dir: Seq<char>, name: Seq<char>) -> bool {
    ||| path == dir + name
    ||| path == dir + seq!['/'] + name
    ||| path == dir + seq!['\\'] + name
}

/// `path` is `dir`, a `/` or `\` separator, and `name`.
pub open spec fn separated(path: Seq<char>, dir: Seq<char>, name: Seq<char>) -> bool {
    ||| path == dir + seq!['/'] + name
    ||| path == dir + seq!['\\'] + name
}

/// A directory that a joined name must be separated from: not empty, not
/// ending in a separator, not a bare drive such as `C:`, and without a
/// verbatim prefix.
pub open spec fn needs_separator(dir: Seq<char>) -> bool {
    &&& !verbatim_prefixed(dir)
    &&& dir.len() > 0
    &&& dir.last() != '/'
    &&& dir.last() != '\\'
    &&& dir.last() != ':'
}

/// `Path::new(dir).join(name)` as text. The joined path ends with the
/// name. Unless the directory has a Windows verbatim prefix, the result is
/// the directory, perhaps a `/` or `\`, and the name; after a directory that
/// needs one (`/tmp` joined with `file.bk` is `/tmp/file.bk`) the platform's
/// separator is always added, and only which separator is the platform's
/// choice. After a verbatim prefix the documentation has the whole path
/// normalised (`.` and `..` components removed), and nothing more is said
/// here.
#[verifier::external_body]
fn path_join(dir: &str, name: &str) -> (r: String)
    requires
        plain_file_name(name@),
    ensures
        ends_with(r@, name@),
        !verbatim_prefixed(dir@) ==> joined(r@, dir@, name@),
        needs_separator(dir@) ==> separated(r@, dir@, name@),
{
    std::path::Path::new(dir).join(name).to_string_lossy().into_owned()
}

/// `Path::exists`: whether something is found at the path. The answer
/// depends on the disk; nothing is promised about it.
#[verifier::external_body]
fn path_exists(path: &str) -> (r: bool) {
    std::path::Path::new(path).exists()
}

/// The platform's main path separator, `std::path::MAIN_SEPARATOR`.
#[verifier::external_body]
fn main_separator() -> (c: char) {
    std::path::MAIN_SEPARATOR
}

/// The frpc executable's name on a platform: `frpc.exe` on Windows,
/// `frpc` elsewhere.
pub fn frpc_file_name_for(windows: bool) -> (r: &'static str)
    ensures
        r@ == (if windows {
            "frpc.exe"@
        } else {
            "frpc"@
        }),
{
    if windows {
        "frpc.exe"
    } else {
        "frpc"
    }
}

/// The frpc executable's name on this platform (Windows is recognised by
/// its `\` path separator).
pub fn frpc_file_name() -> (r: &'static str)
    ensures
        r@ == "frpc.exe"@ || r@ == "frpc"@,
{
    frpc_file_name_for(main_separator() == '\\')
}

proof fn lemma_frpc_names_plain()
    ensures
        plain_file_name("frpc.exe"@),
        plain_file_name("frpc"@),
{
    reveal_strlit("frpc.exe");
    reveal_strlit("frpc");
    assert("frpc.exe"@[0] != '.');
    assert("frpc"@[0] != '.');
}

/// Where frpc is kept in the data directory.
pub fn get_frpc_path(data_dir: &str) -> (r: String)
    ensures
        ends_with(r@, "frpc.exe"@) || ends_with(r@, "frpc"@),
        !verbatim_prefixed(data_dir@) ==> (joined(r@, data_dir@, "frpc.exe"@) || joined(
            r@,
            data_dir@,
            "frpc"@,
        )),
        needs_separator(data_dir@) ==> (separated(r@, data_dir@, "frpc.exe"@) || separated(
            r@,
            data_dir@,
            "frpc"@,
        )),
{
    proof {
        lemma_frpc_names_plain();
    }
    path_join(data_dir, frpc_file_name())
}

/// Where frpc is started from: the same place it is kept.
pub fn resolve_frpc_path(data_dir: &str) -> (r: String)
    ensures
        ends_with(r@, "frpc.exe"@) || ends_with(r@, "frpc"@),
        !verbatim_prefixed(data_dir@) ==> (joined(r@, data_dir@, "frpc.exe"@) || joined(
            r@,
            data_dir@,
            "frpc"@,
        )),
        needs_separator(data_dir@) ==> (separated(r@, data_dir@, "frpc.exe"@) || separated(
            r@,
            data_dir@,
            "frpc"@,
        )),
{
    get_frpc_path(data_dir)
}

/// Whether frpc has been downloaded into the data directory. The answer
/// comes from the disk.
pub fn check_frpc_exists(data_dir: &str) -> (r: bool) {
    let path = get_frpc_path(data_dir);
    path_exists(path.as_str())
}

/// The record of running tunnel processes, `running_tunnels.json`.
pub fn get_persistence_path(data_dir: &str) -> (r: String)
    ensures
        ends_with(r@, "running_tunnels.json"@),
        !verbatim_prefixed(data_dir@) ==> joined(r@, data_dir@, "running_tunnels.json"@),
        needs_separator(data_dir@) ==> separated(r@, data_dir@, "running_tunnels.json"@),
{
    proof {
        reveal_strlit("running_tunnels.json");
        assert("running_tunnels.json"@[0] != '.');
    }
    path_join(data_dir, "running_tunnels.json")
}

/// The stored tunnel logs, `tunnel_logs.jsonl`.
pub fn get_logs_persistence_path(data_dir: &str) -> (r: String)
    ensures
        ends_with(r@, "tunnel_logs.jsonl"@),
        !verbatim_prefixed(data_dir@) ==> joined(r@, data_dir@, "tunnel_logs.jsonl"@),
        needs_separator(data_dir@) ==> separated(r@, data_dir@, "tunnel_logs.jsonl"@),
{
    proof {
        reveal_strlit("tunnel_logs.jsonl");
        assert("tunnel_logs.jsonl"@[0] != '.');
    }
    path_join(data_dir, "tunnel_logs.jsonl")
}

} // verus!
