//! What the launcher writes and shows around an frpc process: its log
//! lines, start messages and generated configuration file names.

use vstd::prelude::*;
use crate::numbers::{decimal, int_decimal, i64_decimal, u64_decimal};
use crate::sanitize::{
    replace_all, replace_chars, sanitize_log, sanitized, slices_at_boundaries,
};
use crate::clock::local_log_time;
use crate::models::LogMessage;
use crate::text::{chars_of, ends_with, ends_with_exec, push_str, starts_with, starts_with_exec, string_from};

verus! {

broadcast use vstd::string::group_string_axioms;

/// A line with its ANSI escape sequences removed.
pub uninterp spec fn ansi_stripped(s: Seq<char>) -> Seq<char>;

/// `strip_ansi_escapes::strip_str`: the line without its ANSI escape
/// sequences, named `ansi_stripped`; the escape grammar is not restated.
#[verifier::external_body]
fn strip_ansi(line: &str) -> (r: String)
    ensures
        r@ == ansi_stripped(line@),
{
    strip_ansi_escapes::strip_str(line)
}

/// A line of frpc output as the log shows it: escapes stripped, account
/// and node tokens hidden, and `[ERR] ` in front of standard-error lines.
pub open spec fn log_line(line: Seq<char>, user_token: Seq<char>, node_token: Seq<char>, is_stderr: bool) -> Seq<char> {
    let clean = sanitized(ansi_stripped(line), seq![user_token, node_token]);
    if is_stderr {
        "[ERR] "@ + clean
    } else {
        clean
    }
}

/// Turns one line of frpc output into the text the log shows.
pub fn format_log_line(line: &str, user_token: &str, node_token: &str, is_stderr: bool) -> (r: String)
    requires
        slices_at_boundaries(user_token@),
        slices_at_boundaries(node_token@),
        4 * user_token@.len() <= usize::MAX,
        4 * node_token@.len() <= usize::MAX,
    ensures
        r@ == log_line(line@, user_token@, node_token@, is_stderr),
{
    let clean = strip_ansi(line);
    let secrets: [&str; 2] = [user_token, node_token];
    let s: &[&str] = &secrets;
    assert(s@ =~= seq![user_token, node_token]);
    assert(crate::sanitize::secrets_view(s@) =~= seq![user_token@, node_token@]);
    let sanitized = sanitize_log(clean.as_str(), s);
    if is_stderr {
        let mut v = chars_of("[ERR] ");
        push_str(&mut v, sanitized.as_str());
        string_from(&v)
    } else {
        sanitized
    }
}

/// A log entry of a tunnel, stamped with the local time of the call; the
/// stamp comes from the clock, so no clause constrains it.
pub fn stamped_log(tunnel_id: i32, message: String) -> (r: LogMessage)
    ensures
        r.tunnel_id == tunnel_id,
        r.message@ == message@,
{
    LogMessage { tunnel_id, message, timestamp: local_log_time() }
}

/// The log entry of one line of frpc output (see `format_log_line`).
pub fn output_log(
    tunnel_id: i32,
    line: &str,
    user_token: &str,
    node_token: &str,
    is_stderr: bool,
) -> (r: LogMessage)
    requires
        slices_at_boundaries(user_token@),
        slices_at_boundaries(node_token@),
        4 * user_token@.len() <= usize::MAX,
        4 * node_token@.len() <= usize::MAX,
    ensures
        r.tunnel_id == tunnel_id,
        r.message@ == log_line(line@, user_token@, node_token@, is_stderr),
{
    stamped_log(tunnel_id, format_log_line(line, user_token, node_token, is_stderr))
}

/// The log entry written when a tunnel's process has started.
pub fn started_log(tunnel_id: i32, template: &str, pid: u32) -> (r: LogMessage)
    ensures
        r.tunnel_id == tunnel_id,
        r.message@ == replace_all(template@, "{pid}"@, decimal(pid as nat)),
{
    stamped_log(tunnel_id, start_message(template, pid))
}

/// The start message with `{pid}` replaced by the process id.
pub fn start_message(template: &str, pid: u32) -> (r: String)
    ensures
        r@ == replace_all(template@, "{pid}"@, decimal(pid as nat)),
{
    let t = chars_of(template);
    let p = chars_of("{pid}");
    let d = u64_decimal(pid as u64);
    string_from(&replace_chars(&t, &p, &d))
}

/// The start message template of an API tunnel.
pub fn api_start_template() -> (r: String)
    ensures
        r@ == "[I] [ChmlFrpLauncher] frpc 进程已启动 (PID: {pid}), 开始连接服务器..."@,
{
    "[I] [ChmlFrpLauncher] frpc 进程已启动 (PID: {pid}), 开始连接服务器...".to_owned()
}

/// The start message template of a local tunnel.
pub fn custom_start_template(original_id: &str) -> (r: String)
    ensures
        r@ == "[I] [ChmlFrpLauncher] 自定义隧道 "@ + original_id@ + " 进程已启动 (PID: {pid})"@,
{
    let mut v = chars_of("[I] [ChmlFrpLauncher] 自定义隧道 ");
    push_str(&mut v, original_id);
    push_str(&mut v, " 进程已启动 (PID: {pid})");
    string_from(&v)
}

/// The answer after the desktop launcher started an API tunnel's process.
pub fn frpc_started_template() -> (r: String)
    ensures
        r@ == "frpc 已启动 (PID: {pid})"@,
{
    "frpc 已启动 (PID: {pid})".to_owned()
}

/// The answer after the desktop launcher started a local tunnel's process.
pub fn custom_started_template() -> (r: String)
    ensures
        r@ == "自定义隧道已启动 (PID: {pid})"@,
{
    "自定义隧道已启动 (PID: {pid})".to_owned()
}

/// `g_<tunnel id>.ini`, the configuration written for an API tunnel.
pub open spec fn generated_config_name(tunnel_id: i32) -> Seq<char> {
    "g_"@ + int_decimal(tunnel_id as int) + ".ini"@
}

/// The name of the configuration generated for an API tunnel.
pub fn generated_config_file_name(tunnel_id: i32) -> (r: String)
    ensures
        r@ == generated_config_name(tunnel_id),
{
    let mut v = chars_of("g_");
    let mut d = i64_decimal(tunnel_id as i64);
    v.append(&mut d);
    push_str(&mut v, ".ini");
    string_from(&v)
}

/// Whether a file in the data directory is a generated API tunnel
/// configuration (`g_*.ini`), which is removed at start-up.
pub fn is_generated_config(file_name: &str) -> (r: bool)
    ensures
        r == (starts_with(file_name@, "g_"@) && ends_with(file_name@, ".ini"@)),
{
    let v = chars_of(file_name);
    starts_with_exec(&v, &chars_of("g_")) && ends_with_exec(&v, &chars_of(".ini"))
}

} // verus!
