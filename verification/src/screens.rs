//! The text of the terminal launcher's other screens: the sign-in screen,
//! the user and status bars, the key help, the log view and the settings
//! list. Colours and layout are the renderer's.

use vstd::prelude::*;
use crate::api::{contains_chars, contains_text};
use crate::app::App;
use crate::models::{LogMessage, StoredUser, Tunnel};
use crate::numbers::{decimal, i64_decimal, int_decimal, u64_decimal};
use crate::text::{chars_of, push_str, string_from};
use crate::tui::{LoginState, OfficialTunnelMode, Tab, TunnelPageMode};
use crate::view::lines_view;

verus! {

broadcast use vstd::string::group_string_axioms;

/// The lines of the sign-in screen: a welcome before the sign-in starts;
/// while waiting, the address to visit and the code to enter (each only
/// once known); after a failure, the error.
pub open spec fn login_lines_of(state: LoginState, uri: Seq<char>, code: Seq<char>, error: Seq<char>) -> Seq<Seq<char>> {
    match state {
        LoginState::Idle => seq![
            ""@,
            "欢迎使用 ChmlFrp Launcher TUI"@,
            ""@,
            "使用 OAuth2 设备码授权登录"@,
            ""@,
            "按 Enter 开始登录"@,
            "按 q 退出"@,
        ],
        LoginState::WaitingForAuth => {
            let head = seq![""@, "请在浏览器中完成授权"@, ""@];
            let with_uri = if uri.len() > 0 {
                head.push("访问: "@ + uri)
            } else {
                head
            };
            let with_code = if code.len() > 0 {
                with_uri.push(""@).push("输入验证码: "@ + code)
            } else {
                with_uri
            };
            with_code + seq![
                ""@,
                "等待授权中..."@,
                ""@,
                "快捷键: [c]复制验证码  [u]复制授权链接  [q]退出"@,
            ]
        },
        LoginState::Error => seq![
            ""@,
            "登录失败"@,
            ""@,
            error,
            ""@,
            "按 Enter 重试 | 按 q 退出"@,
        ],
    }
}

/// The user bar: the account's name and group, how many tunnels are
/// listed and running, and whether frpc is installed; ` 未登录` when no
/// account is signed in.
pub open spec fn user_bar_of(user: Option<StoredUser>, listed: nat, running: nat, frpc_installed: bool) -> Seq<char> {
    match user {
        Some(u) => " 用户: "@ + u.username@ + " | 组: "@ + u.usergroup@ + " | 隧道总数: "@
            + decimal(listed) + " | 运行中: "@ + decimal(running) + " | frpc: "@
            + if frpc_installed { "已安装"@ } else { "未安装"@ },
        None => " 未登录"@,
    }
}

/// The key help of the current screen state.
pub open spec fn help_of(editing: bool, tab: Tab, page: TunnelPageMode, mode: OfficialTunnelMode) -> Seq<char> {
    if editing {
        " 输入内容 Enter换行 Backspace删除 s保存 Esc取消"@
    } else {
        match tab {
            Tab::Tunnels => match page {
                TunnelPageMode::List => " ↑↓选择 Enter启动/停止 c官方创建 n新建 e编辑 x删除 a自动启动 o打开 r刷新 d下载 l注销 q退出"@,
                TunnelPageMode::OfficialNodeSelect => " ↑↓选择节点 Enter继续 Esc返回"@,
                TunnelPageMode::OfficialForm => if mode is Edit {
                    " ↑↓切字段 输入内容 Backspace删除 Tab/空格切换 Enter保存 Esc返回"@
                } else {
                    " ↑↓切字段 输入内容 Backspace删除 Tab/空格切换 Enter提交 Esc返回"@
                },
                TunnelPageMode::ApiDeleteConfirm => " Enter/y确认删除 Esc/n取消"@,
            },
            Tab::Logs => " ↑↓滚动 r刷新 q退出"@,
            Tab::Settings => " ↑↓选择 Enter切换状态 q退出"@,
        }
    }
}

/// The position of a tab among `[1] 隧道`, `[2] 日志`, `[3] 设置`.
pub open spec fn tab_position(tab: Tab) -> usize {
    match tab {
        Tab::Tunnels => 0,
        Tab::Logs => 1,
        Tab::Settings => 2,
    }
}

/// The status bar while no download runs: the status, then the quit
/// prompt when one is shown.
pub open spec fn status_line_of(status: Seq<char>, confirm_quit: bool) -> Seq<char> {
    with_hint(" "@ + status + " "@, confirm_quit, " [y]确认退出 [其他键]取消"@)
}

/// `text`, followed by `hint` when `shown`.
pub open spec fn with_hint(text: Seq<char>, shown: bool, hint: Seq<char>) -> Seq<char> {
    if shown {
        text + hint
    } else {
        text
    }
}

/// How a log line is coloured: errors first, then warnings, then the
/// launcher's own lines.
#[derive(Debug, Clone, Copy, PartialEq, Eq, Structural)]
pub enum LogTone {
    Error,
    Warning,
    Launcher,
    Plain,
}

/// The tone of a log message.
pub open spec fn log_tone_of(message: Seq<char>) -> LogTone {
    if contains_text(message, "[ERR]"@) {
        LogTone::Error
    } else if contains_text(message, "[W]"@) || contains_text(message, "warn"@) {
        LogTone::Warning
    } else if contains_text(message, "ChmlFrpLauncher"@) {
        LogTone::Launcher
    } else {
        LogTone::Plain
    }
}

/// The two prefixes of a log line: `[<timestamp>] ` and `T<tunnel id> `.
pub open spec fn log_prefixes_of(l: LogMessage) -> (Seq<char>, Seq<char>) {
    ("["@ + l.timestamp@ + "] "@, "T"@ + int_decimal(l.tunnel_id as int) + " "@)
}

/// `a - b`, or 0 when `b` is larger.
pub open spec fn sat_sub(a: u16, b: u16) -> u16 {
    if a > b {
        (a - b) as u16
    } else {
        0
    }
}

/// The first log line shown: the chosen scroll, at most the last full
/// page; an unscrolled view that overflows follows the end.
pub open spec fn log_scroll_of(total: u16, visible: u16, scroll: u16) -> u16 {
    let max_scroll = sat_sub(total, visible);
    if scroll == 0 && total > visible {
        max_scroll
    } else if scroll > max_scroll {
        max_scroll
    } else {
        scroll
    }
}

/// The name shown for a marked tunnel id: the name of the first account
/// tunnel at or after `from` with that id, or `未知隧道`.
pub open spec fn marked_name(tunnels: Seq<Tunnel>, id: i32, from: int) -> Seq<char>
    decreases tunnels.len() - from,
{
    if from < 0 || from >= tunnels.len() {
        "未知隧道"@
    } else if tunnels[from].id == id {
        tunnels[from].name@
    } else {
        marked_name(tunnels, id, from + 1)
    }
}

/// ` [*] ` before the selected setting, ` [ ] ` before the others.
pub open spec fn setting_mark(selected: bool) -> Seq<char> {
    " ["@ + if selected { "*"@ } else { " "@ } + "]"@
}

/// The settings list: the service entry, the auto-start entry (each with
/// its hint when selected), a blank line, the heading of the marked
/// tunnels and one line per marked id, or `(暂无)` when none is marked.
pub open spec fn settings_lines_of(
    selected: usize,
    service_installed: bool,
    auto_start: bool,
    marked: Seq<i32>,
    tunnels: Seq<Tunnel>,
) -> Seq<Seq<char>> {
    let service = with_hint(
        setting_mark(selected == 0) + " 系统服务 (开机自启/进程守护): "@
            + if service_installed { "已安装"@ } else { "未安装"@ },
        selected == 0,
        if service_installed { "  <按 Enter 查看提示>"@ } else { "  <依赖 deb 包安装>"@ },
    );
    let auto = with_hint(
        setting_mark(selected == 1) + " 软件打开/后台启动时自动连接标记的隧道: "@
            + if auto_start { "已开启"@ } else { "已关闭"@ },
        selected == 1,
        "  <按 Enter 切换>"@,
    );
    let head = seq![service, auto, ""@, " 已标记为自动启动的隧道 (在隧道列表按 'a' 标记):"@];
    if marked.len() == 0 {
        head.push("   (暂无)"@)
    } else {
        head + Seq::new(
            marked.len(),
            |i: int| "   - "@ + marked_name(tunnels, marked[i], 0) + " (ID: "@ + int_decimal(marked[i] as int) + ")"@,
        )
    }
}

/// The tone of a log message.
pub fn log_tone(message: &str) -> (r: LogTone)
    ensures
        r == log_tone_of(message@),
{
    let m = chars_of(message);
    if contains_chars(&m, &chars_of("[ERR]")) {
        LogTone::Error
    } else if contains_chars(&m, &chars_of("[W]")) || contains_chars(&m, &chars_of("warn")) {
        LogTone::Warning
    } else if contains_chars(&m, &chars_of("ChmlFrpLauncher")) {
        LogTone::Launcher
    } else {
        LogTone::Plain
    }
}

/// The two prefixes of a log line.
pub fn log_prefixes(l: &LogMessage) -> (r: (String, String))
    ensures
        (r.0@, r.1@) == log_prefixes_of(*l),
{
    let mut stamp = chars_of("[");
    push_str(&mut stamp, l.timestamp.as_str());
    push_str(&mut stamp, "] ");
    let mut tunnel = chars_of("T");
    let mut id = i64_decimal(l.tunnel_id as i64);
    tunnel.append(&mut id);
    push_str(&mut tunnel, " ");
    (string_from(&stamp), string_from(&tunnel))
}

fn marked_name_exec(tunnels: &Vec<Tunnel>, id: i32) -> (r: String)
    ensures
        r@ == marked_name(tunnels@, id, 0),
{
    let mut i: usize = 0;
    while i < tunnels.len()
        invariant
            i <= tunnels.len(),
            marked_name(tunnels@, id, 0) == marked_name(tunnels@, id, i as int),
        decreases tunnels.len() - i,
    {
        if tunnels[i].id == id {
            return tunnels[i].name.clone();
        }
        i += 1;
    }
    "未知隧道".to_owned()
}

fn setting_line(selected: bool, label: &str, state: &str, hint: &str) -> (r: String)
    ensures
        r@ == with_hint(setting_mark(selected) + label@ + state@, selected, hint@),
{
    let mut v = chars_of(" [");
    push_str(&mut v, if selected { "*" } else { " " });
    push_str(&mut v, "]");
    push_str(&mut v, label);
    push_str(&mut v, state);
    if selected {
        push_str(&mut v, hint);
    }
    string_from(&v)
}

impl App {
    /// The lines of the sign-in screen.
    pub fn login_lines(&self) -> (r: Vec<String>)
        ensures
            lines_view(r@) == login_lines_of(
                self.login_state,
                self.login_verification_uri@,
                self.login_user_code@,
                self.login_error@,
            ),
    {
        let mut lines: Vec<String> = Vec::new();
        match self.login_state {
            LoginState::Idle => {
                lines.push("".to_owned());
                lines.push("欢迎使用 ChmlFrp Launcher TUI".to_owned());
                lines.push("".to_owned());
                lines.push("使用 OAuth2 设备码授权登录".to_owned());
                lines.push("".to_owned());
                lines.push("按 Enter 开始登录".to_owned());
                lines.push("按 q 退出".to_owned());
            },
            LoginState::WaitingForAuth => {
                lines.push("".to_owned());
                lines.push("请在浏览器中完成授权".to_owned());
                lines.push("".to_owned());
                if !self.login_verification_uri.as_str().is_empty() {
                    let mut v = chars_of("访问: ");
                    push_str(&mut v, self.login_verification_uri.as_str());
                    lines.push(string_from(&v));
                }
                if !self.login_user_code.as_str().is_empty() {
                    lines.push("".to_owned());
                    let mut v = chars_of("输入验证码: ");
                    push_str(&mut v, self.login_user_code.as_str());
                    lines.push(string_from(&v));
                }
                lines.push("".to_owned());
                lines.push("等待授权中...".to_owned());
                lines.push("".to_owned());
                lines.push("快捷键: [c]复制验证码  [u]复制授权链接  [q]退出".to_owned());
            },
            LoginState::Error => {
                lines.push("".to_owned());
                lines.push("登录失败".to_owned());
                lines.push("".to_owned());
                lines.push(self.login_error.clone());
                lines.push("".to_owned());
                lines.push("按 Enter 重试 | 按 q 退出".to_owned());
            },
        }
        assert(lines_view(lines@) =~= login_lines_of(
            self.login_state,
            self.login_verification_uri@,
            self.login_user_code@,
            self.login_error@,
        ));
        lines
    }

    /// The user bar; whether frpc is installed is read from disk by the
    /// caller.
    pub fn user_bar(&self, frpc_installed: bool) -> (r: String)
        ensures
            r@ == user_bar_of(
                self.stored_user,
                self.tunnel_items.len() as nat,
                self.running_tunnels.len() as nat,
                frpc_installed,
            ),
    {
        match &self.stored_user {
            Some(u) => {
                let mut v = chars_of(" 用户: ");
                push_str(&mut v, u.username.as_str());
                push_str(&mut v, " | 组: ");
                push_str(&mut v, u.usergroup.as_str());
                push_str(&mut v, " | 隧道总数: ");
                let mut listed = u64_decimal(self.tunnel_items.len() as u64);
                v.append(&mut listed);
                push_str(&mut v, " | 运行中: ");
                let mut running = u64_decimal(self.running_tunnels.len() as u64);
                v.append(&mut running);
                push_str(&mut v, " | frpc: ");
                push_str(&mut v, if frpc_installed { "已安装" } else { "未安装" });
                string_from(&v)
            },
            None => " 未登录".to_owned(),
        }
    }

    /// The key help of the current screen state.
    pub fn help_text(&self) -> (r: &'static str)
        ensures
            r@ == help_of(
                self.tunnel_editor is Some,
                self.tab,
                self.tunnel_page_mode,
                self.official_tunnel_mode,
            ),
    {
        if self.is_editing_tunnel() {
            " 输入内容 Enter换行 Backspace删除 s保存 Esc取消"
        } else {
            match self.tab {
                Tab::Tunnels => match self.tunnel_page_mode {
                    TunnelPageMode::List => " ↑↓选择 Enter启动/停止 c官方创建 n新建 e编辑 x删除 a自动启动 o打开 r刷新 d下载 l注销 q退出",
                    TunnelPageMode::OfficialNodeSelect => " ↑↓选择节点 Enter继续 Esc返回",
                    TunnelPageMode::OfficialForm => if self.official_tunnel_mode.is_edit() {
                        " ↑↓切字段 输入内容 Backspace删除 Tab/空格切换 Enter保存 Esc返回"
                    } else {
                        " ↑↓切字段 输入内容 Backspace删除 Tab/空格切换 Enter提交 Esc返回"
                    },
                    TunnelPageMode::ApiDeleteConfirm => " Enter/y确认删除 Esc/n取消",
                },
                Tab::Logs => " ↑↓滚动 r刷新 q退出",
                Tab::Settings => " ↑↓选择 Enter切换状态 q退出",
            }
        }
    }

    /// The position of the current tab in the tab bar.
    pub fn tab_index(&self) -> (r: usize)
        ensures
            r == tab_position(self.tab),
    {
        match self.tab {
            Tab::Tunnels => 0,
            Tab::Logs => 1,
            Tab::Settings => 2,
        }
    }

    /// The status bar while no download runs.
    pub fn status_line(&self) -> (r: String)
        ensures
            r@ == status_line_of(self.status_message@, self.show_confirm_quit),
    {
        let mut v = chars_of(" ");
        push_str(&mut v, self.status_message.as_str());
        push_str(&mut v, " ");
        if self.show_confirm_quit {
            push_str(&mut v, " [y]确认退出 [其他键]取消");
        }
        string_from(&v)
    }

    /// The first log line shown in a log view `area_height` rows tall
    /// (two of them border); the line count is taken modulo 2^16.
    pub fn log_view_scroll(&self, area_height: u16) -> (r: u16)
        ensures
            r == log_scroll_of(self.logs.len() as u16, sat_sub(area_height, 2), self.log_scroll),
    {
        let total = self.logs.len() as u16;
        let visible: u16 = if area_height > 2 {
            area_height - 2
        } else {
            0
        };
        let max_scroll: u16 = if total > visible {
            total - visible
        } else {
            0
        };
        if self.log_scroll == 0 && total > visible {
            max_scroll
        } else if self.log_scroll > max_scroll {
            max_scroll
        } else {
            self.log_scroll
        }
    }

    /// The title of the log view: ` 日志 (<count>) `.
    pub fn log_title(&self) -> (r: String)
        ensures
            r@ == " 日志 ("@ + decimal(self.logs.len() as nat) + ") "@,
    {
        let mut v = chars_of(" 日志 (");
        let mut n = u64_decimal(self.logs.len() as u64);
        v.append(&mut n);
        push_str(&mut v, ") ");
        string_from(&v)
    }

    /// The lines of the settings list.
    pub fn settings_lines(&self) -> (r: Vec<String>)
        ensures
            lines_view(r@) == settings_lines_of(
                self.selected_setting,
                self.is_systemd_installed,
                self.settings.auto_start_tunnels_enabled,
                self.settings.auto_start_tunnel_ids@,
                self.tunnels@,
            ),
    {
        let installed = self.is_systemd_installed;
        let service = setting_line(
            self.selected_setting == 0,
            " 系统服务 (开机自启/进程守护): ",
            if installed { "已安装" } else { "未安装" },
            if installed { "  <按 Enter 查看提示>" } else { "  <依赖 deb 包安装>" },
        );
        let auto = setting_line(
            self.selected_setting == 1,
            " 软件打开/后台启动时自动连接标记的隧道: ",
            if self.settings.auto_start_tunnels_enabled { "已开启" } else { "已关闭" },
            "  <按 Enter 切换>",
        );
        let mut lines: Vec<String> = Vec::new();
        lines.push(service);
        lines.push(auto);
        lines.push("".to_owned());
        lines.push(" 已标记为自动启动的隧道 (在隧道列表按 'a' 标记):".to_owned());
        let ghost head = lines_view(lines@);
        let ids = &self.settings.auto_start_tunnel_ids;
        if ids.len() == 0 {
            lines.push("   (暂无)".to_owned());
        } else {
            let mut i: usize = 0;
            while i < ids.len()
                invariant
                    i <= ids.len(),
                    lines.len() == 4 + i,
                    head.len() == 4,
                    forall|j: int| 0 <= j < 4 ==> #[trigger] lines@[j]@ == head[j],
                    forall|j: int|
                        4 <= j < 4 + i ==> #[trigger] lines@[j]@ == "   - "@ + marked_name(
                            self.tunnels@,
                            ids@[j - 4],
                            0,
                        ) + " (ID: "@ + int_decimal(ids@[j - 4] as int) + ")"@,
                decreases ids.len() - i,
            {
                let mut v = chars_of("   - ");
                let name = marked_name_exec(&self.tunnels, ids[i]);
                push_str(&mut v, name.as_str());
                push_str(&mut v, " (ID: ");
                let mut d = i64_decimal(ids[i] as i64);
                v.append(&mut d);
                push_str(&mut v, ")");
                lines.push(string_from(&v));
                i += 1;
            }
        }
        let ghost expected = settings_lines_of(
            self.selected_setting,
            self.is_systemd_installed,
            self.settings.auto_start_tunnels_enabled,
            self.settings.auto_start_tunnel_ids@,
            self.tunnels@,
        );
        assert(head =~= expected.subrange(0, 4));
        assert(expected.len() == lines.len());
        assert forall|k: int| 0 <= k < lines.len() implies #[trigger] lines_view(lines@)[k] == expected[k] by {
            if k < 4 {
                assert(expected[k] == expected.subrange(0, 4)[k]);
            }
        }
        assert(lines_view(lines@) =~= expected);
        lines
    }
}

} // verus!
