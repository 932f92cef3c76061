//! What a key press does in the terminal launcher. The decision is made
//! here from the screen state; the caller carries out the returned action,
//! most of them through the [`App`] methods of the same name.

use vstd::prelude::*;
use crate::app::{item_id, item_name, listed, without_value, App, AppSettings};
use crate::auth::DeviceAuthorizationResponse;
use crate::models::StoredUser;
use crate::numbers::{decimal, i64_decimal};
use crate::text::{chars_of, push_str, string_from, string_push};
use crate::tui::{LoginState, Screen, Tab, TunnelPageMode};

verus! {

broadcast use vstd::string::group_string_axioms;

/// A key as the launcher tells keys apart.
#[derive(Debug, Clone, Copy, PartialEq, Eq, Structural)]
pub enum Key {
    Char(char),
    Enter,
    Esc,
    Up,
    Down,
    Backspace,
    Tab,
    Other,
}

/// What a key press asks for.
#[derive(Debug, Clone, Copy, PartialEq, Eq, Structural)]
pub enum KeyAction {
    Nothing,
    Quit,
    DismissQuitPrompt,
    AskQuitConfirmation,
    StartDeviceLogin,
    CopyUserCode,
    CopyVerificationUri,
    SelectTab(Tab),
    MoveUp,
    MoveDown,
    StartSelected,
    StopSelected,
    ShowServiceHelp,
    ToggleAutoStartSetting,
    ToggleTunnelAutoStart,
    StartOfficialCreation,
    NewLocalTunnel,
    EditSelected,
    DeleteSelected,
    Refresh,
    Download,
    Logout,
    OpenUrl,
    CancelEditor,
    SaveEditor,
    EditorBackspace,
    EditorNewline,
    EditorIndent,
    EditorChar(char),
    CancelNodeSelect,
    NodeUp,
    NodeDown,
    LoadNodeForm,
    FormBack,
    FormUp,
    FormDown,
    FormBackspace,
    FormToggle,
    FormSubmit,
    FormChar(char),
    CancelDelete,
    ConfirmDelete,
}

/// Whether the key is the character `c`.
pub open spec fn is_char(key: Key, c: char) -> bool {
    key == Key::Char(c)
}

/// What a key does on the sign-in screen.
pub open spec fn login_action(a: App, key: Key) -> KeyAction {
    let waiting = a.login_state == LoginState::WaitingForAuth;
    if is_char(key, 'q') {
        KeyAction::Quit
    } else if key == Key::Enter {
        if a.login_state == LoginState::Idle || a.login_state == LoginState::Error {
            KeyAction::StartDeviceLogin
        } else {
            KeyAction::Nothing
        }
    } else if is_char(key, 'c') && waiting {
        KeyAction::CopyUserCode
    } else if is_char(key, 'u') && waiting {
        KeyAction::CopyVerificationUri
    } else {
        KeyAction::Nothing
    }
}

/// What a key does in the local-tunnel editor.
pub open spec fn editor_action(key: Key) -> KeyAction {
    match key {
        Key::Esc => KeyAction::CancelEditor,
        Key::Char(c) => if c == 's' || c == 'S' {
            KeyAction::SaveEditor
        } else {
            KeyAction::EditorChar(c)
        },
        Key::Backspace => KeyAction::EditorBackspace,
        Key::Enter => KeyAction::EditorNewline,
        Key::Tab => KeyAction::EditorIndent,
        _ => KeyAction::Nothing,
    }
}

/// What a key does while a node is chosen.
pub open spec fn node_select_action(key: Key) -> KeyAction {
    if key == Key::Esc {
        KeyAction::CancelNodeSelect
    } else if key == Key::Up || is_char(key, 'k') {
        KeyAction::NodeUp
    } else if key == Key::Down || is_char(key, 'j') {
        KeyAction::NodeDown
    } else if key == Key::Enter {
        KeyAction::LoadNodeForm
    } else {
        KeyAction::Nothing
    }
}

/// What a key does in the official-tunnel form.
pub open spec fn form_action(key: Key) -> KeyAction {
    if key == Key::Esc {
        KeyAction::FormBack
    } else if key == Key::Up || is_char(key, 'k') {
        KeyAction::FormUp
    } else if key == Key::Down || is_char(key, 'j') {
        KeyAction::FormDown
    } else if key == Key::Backspace {
        KeyAction::FormBackspace
    } else if key == Key::Tab || is_char(key, ' ') {
        KeyAction::FormToggle
    } else if key == Key::Enter {
        KeyAction::FormSubmit
    } else {
        match key {
            Key::Char(c) => KeyAction::FormChar(c),
            _ => KeyAction::Nothing,
        }
    }
}

/// What a key does while the deletion of an account tunnel is asked.
pub open spec fn delete_confirm_action(key: Key) -> KeyAction {
    if key == Key::Esc || is_char(key, 'n') || is_char(key, 'N') {
        KeyAction::CancelDelete
    } else if key == Key::Enter || is_char(key, 'y') || is_char(key, 'Y') {
        KeyAction::ConfirmDelete
    } else {
        KeyAction::Nothing
    }
}

/// The process id of the selected row, 0 when none is selected.
pub open spec fn selected_id_or_zero(a: App) -> i32 {
    if a.selected_tunnel < a.tunnel_items.len() {
        item_id(a.tunnel_items@[a.selected_tunnel as int])
    } else {
        0
    }
}

/// What a key does on the main screen outside the editor and the official
/// tunnel pages.
pub open spec fn main_action(a: App, key: Key) -> KeyAction {
    let tunnels = a.tab == Tab::Tunnels;
    if is_char(key, 'q') {
        if a.running_tunnels.len() > 0 {
            KeyAction::AskQuitConfirmation
        } else {
            KeyAction::Quit
        }
    } else if is_char(key, '1') {
        KeyAction::SelectTab(Tab::Tunnels)
    } else if is_char(key, '2') {
        KeyAction::SelectTab(Tab::Logs)
    } else if is_char(key, '3') {
        KeyAction::SelectTab(Tab::Settings)
    } else if key == Key::Up || is_char(key, 'k') {
        KeyAction::MoveUp
    } else if key == Key::Down || is_char(key, 'j') {
        KeyAction::MoveDown
    } else if key == Key::Enter {
        if tunnels && a.tunnel_items.len() > 0 {
            if listed(a.running_tunnels@, selected_id_or_zero(a)) {
                KeyAction::StopSelected
            } else {
                KeyAction::StartSelected
            }
        } else if a.tab == Tab::Settings && a.selected_setting == 0 {
            KeyAction::ShowServiceHelp
        } else if a.tab == Tab::Settings && a.selected_setting == 1 {
            KeyAction::ToggleAutoStartSetting
        } else {
            KeyAction::Nothing
        }
    } else if is_char(key, 'a') || is_char(key, 'A') {
        if tunnels && a.selected_tunnel < a.tunnel_items.len() {
            KeyAction::ToggleTunnelAutoStart
        } else {
            KeyAction::Nothing
        }
    } else if is_char(key, 'c') && tunnels {
        KeyAction::StartOfficialCreation
    } else if is_char(key, 'n') && tunnels {
        KeyAction::NewLocalTunnel
    } else if is_char(key, 'e') && tunnels {
        KeyAction::EditSelected
    } else if is_char(key, 'x') && tunnels {
        KeyAction::DeleteSelected
    } else if is_char(key, 'r') {
        KeyAction::Refresh
    } else if is_char(key, 'd') {
        if a.is_downloading {
            KeyAction::Nothing
        } else {
            KeyAction::Download
        }
    } else if is_char(key, 'l') || is_char(key, 'L') {
        KeyAction::Logout
    } else if (is_char(key, 'o') || is_char(key, 'O')) && tunnels {
        KeyAction::OpenUrl
    } else {
        KeyAction::Nothing
    }
}

/// What a key press does: the quit prompt takes any key first, Ctrl+C
/// quits, and then the screen, the editor and the tunnel page decide.
pub open spec fn key_action(a: App, key: Key, ctrl: bool) -> KeyAction {
    if a.show_confirm_quit {
        if is_char(key, 'y') || is_char(key, 'Y') {
            KeyAction::Quit
        } else {
            KeyAction::DismissQuitPrompt
        }
    } else if ctrl && is_char(key, 'c') {
        KeyAction::Quit
    } else if a.screen == Screen::Login {
        login_action(a, key)
    } else if a.tunnel_editor is Some {
        editor_action(key)
    } else if a.tab == Tab::Tunnels && a.tunnel_page_mode == TunnelPageMode::OfficialNodeSelect {
        node_select_action(key)
    } else if a.tab == Tab::Tunnels && a.tunnel_page_mode == TunnelPageMode::OfficialForm {
        form_action(key)
    } else if a.tab == Tab::Tunnels && a.tunnel_page_mode == TunnelPageMode::ApiDeleteConfirm {
        delete_confirm_action(key)
    } else {
        main_action(a, key)
    }
}

fn char_key(key: Key, c: char) -> (r: bool)
    ensures
        r == is_char(key, c),
{
    match key {
        Key::Char(k) => k == c,
        _ => false,
    }
}

impl App {
    /// Decides what a key press does (`ctrl` tells whether Control is held).
    pub fn key_action(&self, key: Key, ctrl: bool) -> (r: KeyAction)
        ensures
            r == key_action(*self, key, ctrl),
    {
        if self.show_confirm_quit {
            return if char_key(key, 'y') || char_key(key, 'Y') {
                KeyAction::Quit
            } else {
                KeyAction::DismissQuitPrompt
            };
        }
        if ctrl && char_key(key, 'c') {
            return KeyAction::Quit;
        }
        if self.screen == Screen::Login {
            let waiting = self.login_state == LoginState::WaitingForAuth;
            return if char_key(key, 'q') {
                KeyAction::Quit
            } else if key == Key::Enter {
                if self.login_state == LoginState::Idle || self.login_state == LoginState::Error {
                    KeyAction::StartDeviceLogin
                } else {
                    KeyAction::Nothing
                }
            } else if char_key(key, 'c') && waiting {
                KeyAction::CopyUserCode
            } else if char_key(key, 'u') && waiting {
                KeyAction::CopyVerificationUri
            } else {
                KeyAction::Nothing
            };
        }
        if self.tunnel_editor.is_some() {
            return match key {
                Key::Esc => KeyAction::CancelEditor,
                Key::Char(c) => if c == 's' || c == 'S' {
                    KeyAction::SaveEditor
                } else {
                    KeyAction::EditorChar(c)
                },
                Key::Backspace => KeyAction::EditorBackspace,
                Key::Enter => KeyAction::EditorNewline,
                Key::Tab => KeyAction::EditorIndent,
                _ => KeyAction::Nothing,
            };
        }
        let tunnels = self.tab == Tab::Tunnels;
        if tunnels && self.tunnel_page_mode == TunnelPageMode::OfficialNodeSelect {
            return if key == Key::Esc {
                KeyAction::CancelNodeSelect
            } else if key == Key::Up || char_key(key, 'k') {
                KeyAction::NodeUp
            } else if key == Key::Down || char_key(key, 'j') {
                KeyAction::NodeDown
            } else if key == Key::Enter {
                KeyAction::LoadNodeForm
            } else {
                KeyAction::Nothing
            };
        }
        if tunnels && self.tunnel_page_mode == TunnelPageMode::OfficialForm {
            return if key == Key::Esc {
                KeyAction::FormBack
            } else if key == Key::Up || char_key(key, 'k') {
                KeyAction::FormUp
            } else if key == Key::Down || char_key(key, 'j') {
                KeyAction::FormDown
            } else if key == Key::Backspace {
                KeyAction::FormBackspace
            } else if key == Key::Tab || char_key(key, ' ') {
                KeyAction::FormToggle
            } else if key == Key::Enter {
                KeyAction::FormSubmit
            } else {
                match key {
                    Key::Char(c) => KeyAction::FormChar(c),
                    _ => KeyAction::Nothing,
                }
            };
        }
        if tunnels && self.tunnel_page_mode == TunnelPageMode::ApiDeleteConfirm {
            return if key == Key::Esc || char_key(key, 'n') || char_key(key, 'N') {
                KeyAction::CancelDelete
            } else if key == Key::Enter || char_key(key, 'y') || char_key(key, 'Y') {
                KeyAction::ConfirmDelete
            } else {
                KeyAction::Nothing
            };
        }
        if char_key(key, 'q') {
            if self.running_tunnels.len() > 0 {
                KeyAction::AskQuitConfirmation
            } else {
                KeyAction::Quit
            }
        } else if char_key(key, '1') {
            KeyAction::SelectTab(Tab::Tunnels)
        } else if char_key(key, '2') {
            KeyAction::SelectTab(Tab::Logs)
        } else if char_key(key, '3') {
            KeyAction::SelectTab(Tab::Settings)
        } else if key == Key::Up || char_key(key, 'k') {
            KeyAction::MoveUp
        } else if key == Key::Down || char_key(key, 'j') {
            KeyAction::MoveDown
        } else if key == Key::Enter {
            if tunnels && self.tunnel_items.len() > 0 {
                let id = match self.selected_tunnel_id() {
                    Some(id) => id,
                    None => 0,
                };
                if self.is_running(id) {
                    KeyAction::StopSelected
                } else {
                    KeyAction::StartSelected
                }
            } else if self.tab == Tab::Settings && self.selected_setting == 0 {
                KeyAction::ShowServiceHelp
            } else if self.tab == Tab::Settings && self.selected_setting == 1 {
                KeyAction::ToggleAutoStartSetting
            } else {
                KeyAction::Nothing
            }
        } else if char_key(key, 'a') || char_key(key, 'A') {
            if tunnels && self.selected_tunnel < self.tunnel_items.len() {
                KeyAction::ToggleTunnelAutoStart
            } else {
                KeyAction::Nothing
            }
        } else if char_key(key, 'c') && tunnels {
            KeyAction::StartOfficialCreation
        } else if char_key(key, 'n') && tunnels {
            KeyAction::NewLocalTunnel
        } else if char_key(key, 'e') && tunnels {
            KeyAction::EditSelected
        } else if char_key(key, 'x') && tunnels {
            KeyAction::DeleteSelected
        } else if char_key(key, 'r') {
            KeyAction::Refresh
        } else if char_key(key, 'd') {
            if self.is_downloading {
                KeyAction::Nothing
            } else {
                KeyAction::Download
            }
        } else if char_key(key, 'l') || char_key(key, 'L') {
            KeyAction::Logout
        } else if (char_key(key, 'o') || char_key(key, 'O')) && tunnels {
            KeyAction::OpenUrl
        } else {
            KeyAction::Nothing
        }
    }
}

} // verus!

verus! {

/// The status after a tunnel's start-up mark changed.
pub open spec fn auto_start_mark_text(marked: bool, name: Seq<char>, id: i32) -> Seq<char> {
    if marked {
        "隧道 "@ + name + " (ID: "@ + crate::numbers::int_decimal(id as int) + ") 已设为自动启动"@
    } else {
        "已取消隧道 "@ + name + " (ID: "@ + crate::numbers::int_decimal(id as int) + ") 的自启标记"@
    }
}

/// The status after a tunnel's start-up mark changed.
pub fn auto_start_mark_message(marked: bool, name: &str, id: i32) -> (r: String)
    ensures
        r@ == auto_start_mark_text(marked, name@, id),
{
    let mut text = if marked {
        chars_of("隧道 ")
    } else {
        chars_of("已取消隧道 ")
    };
    push_str(&mut text, name);
    push_str(&mut text, " (ID: ");
    let mut d = i64_decimal(id as i64);
    text.append(&mut d);
    if marked {
        push_str(&mut text, ") 已设为自动启动");
    } else {
        push_str(&mut text, ") 的自启标记");
    }
    string_from(&text)
}

impl App {
    /// Asks to confirm quitting while tunnels run.
    pub fn ask_quit_confirmation(&mut self)
        ensures
            *final(self) == (App {
                show_confirm_quit: true,
                status_message: final(self).status_message,
                ..*old(self)
            }),
            final(self).status_message@ == "有隧道运行中，按 y 确认退出（隧道将继续在后台运行）"@,
    {
        self.show_confirm_quit = true;
        self.status_message = "有隧道运行中，按 y 确认退出（隧道将继续在后台运行）".to_owned();
    }

    /// Closes the quit prompt.
    pub fn dismiss_quit_prompt(&mut self)
        ensures
            *final(self) == (App { show_confirm_quit: false, ..*old(self) }),
    {
        self.show_confirm_quit = false;
    }

    /// Shows a tab.
    pub fn select_tab(&mut self, tab: Tab)
        ensures
            *final(self) == (App { tab, ..*old(self) }),
    {
        self.tab = tab;
    }

    /// Moves up in the shown tab: the tunnel selection, the log scroll or
    /// the settings selection, none below its first position.
    pub fn move_up(&mut self)
        ensures
            old(self).tab == Tab::Tunnels ==> *final(self) == (App {
                selected_tunnel: if old(self).selected_tunnel > 0 {
                    (old(self).selected_tunnel - 1) as usize
                } else {
                    old(self).selected_tunnel
                },
                ..*old(self)
            }),
            old(self).tab == Tab::Logs ==> *final(self) == (App {
                log_scroll: if old(self).log_scroll > 0 {
                    (old(self).log_scroll - 1) as u16
                } else {
                    old(self).log_scroll
                },
                ..*old(self)
            }),
            old(self).tab == Tab::Settings ==> *final(self) == (App {
                selected_setting: if old(self).selected_setting > 0 {
                    (old(self).selected_setting - 1) as usize
                } else {
                    old(self).selected_setting
                },
                ..*old(self)
            }),
    {
        if self.tab == Tab::Tunnels {
            self.move_tunnel_selection_up();
        }
        if self.tab == Tab::Logs && self.log_scroll > 0 {
            self.log_scroll = self.log_scroll - 1;
        }
        if self.tab == Tab::Settings && self.selected_setting > 0 {
            self.selected_setting = self.selected_setting - 1;
        }
    }

    /// Moves down in the shown tab: the tunnel selection (up to the last
    /// row), the log scroll, or the settings selection (up to the second).
    pub fn move_down(&mut self)
        requires
            old(self).tab == Tab::Logs ==> old(self).log_scroll < u16::MAX,
        ensures
            old(self).tab == Tab::Tunnels ==> *final(self) == (App {
                selected_tunnel: if old(self).selected_tunnel + 1 < old(self).tunnel_items.len() {
                    (old(self).selected_tunnel + 1) as usize
                } else {
                    old(self).selected_tunnel
                },
                ..*old(self)
            }),
            old(self).tab == Tab::Logs ==> *final(self) == (App {
                log_scroll: (old(self).log_scroll + 1) as u16,
                ..*old(self)
            }),
            old(self).tab == Tab::Settings ==> *final(self) == (App {
                selected_setting: if old(self).selected_setting < 1 {
                    (old(self).selected_setting + 1) as usize
                } else {
                    old(self).selected_setting
                },
                ..*old(self)
            }),
    {
        if self.tab == Tab::Tunnels {
            self.move_tunnel_selection_down();
        }
        if self.tab == Tab::Logs {
            self.log_scroll = self.log_scroll + 1;
        }
        if self.tab == Tab::Settings && self.selected_setting < 1 {
            self.selected_setting = self.selected_setting + 1;
        }
    }

    /// Explains how the background service is installed or removed.
    pub fn show_service_help(&mut self)
        ensures
            *final(self) == (App { status_message: final(self).status_message, ..*old(self) }),
            final(self).status_message@ == (if old(self).is_systemd_installed {
                "请手动执行 sudo systemctl disable --now chmlfrp-tui.service 并删除 service 文件"@
            } else {
                "请使用 sudo 安装 deb 包获取后台服务支持"@
            }),
    {
        if self.is_systemd_installed {
            self.status_message = "请手动执行 sudo systemctl disable --now chmlfrp-tui.service 并删除 service 文件".to_owned();
        } else {
            self.status_message = "请使用 sudo 安装 deb 包获取后台服务支持".to_owned();
        }
    }

    /// Switches whether marked tunnels start with the launcher.
    pub fn toggle_auto_start_setting(&mut self)
        ensures
            *final(self) == (App {
                settings: AppSettings {
                    auto_start_tunnels_enabled: !old(self).settings.auto_start_tunnels_enabled,
                    ..old(self).settings
                },
                status_message: final(self).status_message,
                ..*old(self)
            }),
            final(self).status_message@ == (if final(self).settings.auto_start_tunnels_enabled {
                "已开启软件启动时自动开启隧道"@
            } else {
                "已关闭软件启动时自动开启隧道"@
            }),
    {
        self.settings.auto_start_tunnels_enabled = !self.settings.auto_start_tunnels_enabled;
        if self.settings.auto_start_tunnels_enabled {
            self.status_message = "已开启软件启动时自动开启隧道".to_owned();
        } else {
            self.status_message = "已关闭软件启动时自动开启隧道".to_owned();
        }
    }

    /// Marks the selected row to start with the launcher, or removes its
    /// mark. No row, no change.
    pub fn toggle_tunnel_auto_start(&mut self)
        ensures
            old(self).selected_tunnel >= old(self).tunnel_items.len() ==> *final(self) == *old(
                self,
            ),
            old(self).selected_tunnel < old(self).tunnel_items.len() ==> {
                let item = old(self).tunnel_items@[old(self).selected_tunnel as int];
                let id = item_id(item);
                let was = listed(old(self).settings.auto_start_tunnel_ids@, id);
                &&& *final(self) == (App {
                    settings: AppSettings {
                        auto_start_tunnel_ids: final(self).settings.auto_start_tunnel_ids,
                        ..old(self).settings
                    },
                    status_message: final(self).status_message,
                    ..*old(self)
                })
                &&& final(self).settings.auto_start_tunnel_ids@ == toggled_marks(
                    old(self).settings.auto_start_tunnel_ids@,
                    id,
                )
                &&& final(self).status_message@ == auto_start_mark_text(!was, item_name(item), id)
            },
    {
        if self.selected_tunnel >= self.tunnel_items.len() {
            return;
        }
        let id = self.tunnel_items[self.selected_tunnel].id();
        let name = self.tunnel_items[self.selected_tunnel].name().to_owned();
        let was = crate::persistence::contains_id(&self.settings.auto_start_tunnel_ids, id);
        if was {
            let kept = crate::app::remove_value(&self.settings.auto_start_tunnel_ids, id);
            self.settings.auto_start_tunnel_ids = kept;
        } else {
            self.settings.auto_start_tunnel_ids.push(id);
        }
        self.status_message = auto_start_mark_message(!was, name.as_str(), id);
    }

    /// Signs out: the account's tunnels, the list and the running ones are
    /// forgotten and the sign-in screen is shown.
    pub fn logout(&mut self)
        ensures
            *final(self) == (App {
                stored_user: None,
                tunnels: final(self).tunnels,
                tunnel_items: final(self).tunnel_items,
                running_tunnels: final(self).running_tunnels,
                screen: Screen::Login,
                status_message: final(self).status_message,
                ..*old(self)
            }),
            final(self).tunnels@.len() == 0,
            final(self).tunnel_items@.len() == 0,
            final(self).running_tunnels@.len() == 0,
            final(self).status_message@ == "已注销"@,
    {
        self.stored_user = None;
        self.tunnels = Vec::new();
        self.tunnel_items = Vec::new();
        self.running_tunnels = Vec::new();
        self.screen = Screen::Login;
        self.status_message = "已注销".to_owned();
    }

    /// Indents in the editor with four spaces.
    pub fn editor_indent(&mut self)
        ensures
            *final(self) == (App {
                tunnel_editor_content: final(self).tunnel_editor_content,
                ..*old(self)
            }),
            final(self).tunnel_editor_content@ == old(self).tunnel_editor_content@ + seq![' ', ' ', ' ', ' '],
    {
        let mut k: usize = 0;
        let ghost start = self.tunnel_editor_content@;
        while k < 4
            invariant
                k <= 4,
                *self == (App { tunnel_editor_content: self.tunnel_editor_content, ..*old(self) }),
                start == old(self).tunnel_editor_content@,
                self.tunnel_editor_content@ == start + Seq::new(k as nat, |i: int| ' '),
            decreases 4 - k,
        {
            string_push(&mut self.tunnel_editor_content, ' ');
            k = k + 1;
        }
        assert(Seq::new(4, |i: int| ' ') =~= seq![' ', ' ', ' ', ' ']);
    }

    /// Starts the device sign-in.
    pub fn device_login_started(&mut self)
        ensures
            *final(self) == (App {
                login_state: LoginState::WaitingForAuth,
                login_error: final(self).login_error,
                status_message: final(self).status_message,
                ..*old(self)
            }),
            final(self).login_error@.len() == 0,
            final(self).status_message@ == "正在申请设备授权..."@,
    {
        self.login_state = LoginState::WaitingForAuth;
        self.login_error = String::new();
        self.status_message = "正在申请设备授权...".to_owned();
    }

    /// Takes in the answer to the device-authorization request. On success
    /// the codes are shown and the address to open in the browser is
    /// returned (the complete one when given); otherwise the error is shown.
    pub fn device_authorization_received(&mut self, auth: Result<DeviceAuthorizationResponse, String>) -> (r: Option<String>)
        ensures
            match auth {
                Ok(a) => {
                    &&& *final(self) == (App {
                        login_user_code: a.user_code,
                        login_verification_uri: a.verification_uri,
                        login_device_code: a.device_code,
                        status_message: final(self).status_message,
                        ..*old(self)
                    })
                    &&& final(self).status_message@ == "请在浏览器中完成授权"@
                    &&& r == Some(match a.verification_uri_complete {
                        Some(u) => u,
                        None => a.verification_uri,
                    })
                },
                Err(e) => {
                    &&& r is None
                    &&& *final(self) == (App {
                        login_state: LoginState::Error,
                        login_error: final(self).login_error,
                        ..*old(self)
                    })
                    &&& final(self).login_error@ == "申请设备授权失败: "@ + e@
                },
            },
    {
        match auth {
            Ok(a) => {
                let open = match &a.verification_uri_complete {
                    Some(u) => u.clone(),
                    None => a.verification_uri.clone(),
                };
                self.login_user_code = a.user_code;
                self.login_verification_uri = a.verification_uri;
                self.login_device_code = a.device_code;
                self.status_message = "请在浏览器中完成授权".to_owned();
                Some(open)
            },
            Err(e) => {
                let mut v = chars_of("申请设备授权失败: ");
                push_str(&mut v, e.as_str());
                self.login_state = LoginState::Error;
                self.login_error = string_from(&v);
                None
            },
        }
    }

    /// The status after the user code was copied.
    pub fn user_code_copied(&mut self)
        ensures
            *final(self) == (App { status_message: final(self).status_message, ..*old(self) }),
            final(self).status_message@ == "验证码已复制到剪贴板"@,
    {
        self.status_message = "验证码已复制到剪贴板".to_owned();
    }

    /// The status after the authorization address was copied.
    pub fn verification_uri_copied(&mut self)
        ensures
            *final(self) == (App { status_message: final(self).status_message, ..*old(self) }),
            final(self).status_message@ == "授权链接已复制到剪贴板"@,
    {
        self.status_message = "授权链接已复制到剪贴板".to_owned();
    }

    /// Starts a frpc download.
    pub fn download_started(&mut self)
        ensures
            *final(self) == (App {
                is_downloading: true,
                status_message: final(self).status_message,
                ..*old(self)
            }),
            final(self).status_message@ == "开始下载 frpc..."@,
    {
        self.is_downloading = true;
        self.status_message = "开始下载 frpc...".to_owned();
    }

    /// Takes the pending refresh request, if any. After a requested refresh
    /// the marked tunnels are to start, when that is switched on.
    pub fn take_refresh_request(&mut self) -> (r: bool)
        ensures
            r == old(self).needs_refresh,
            *final(self) == (App {
                needs_refresh: false,
                needs_auto_start: old(self).needs_auto_start || (old(self).needs_refresh
                    && old(self).settings.auto_start_tunnels_enabled),
                ..*old(self)
            }),
    {
        let r = self.needs_refresh;
        self.needs_refresh = false;
        if r && self.settings.auto_start_tunnels_enabled {
            self.needs_auto_start = true;
        }
        r
    }

    /// Takes the pending request to start the marked tunnels, if any.
    pub fn take_auto_start_request(&mut self) -> (r: bool)
        ensures
            r == old(self).needs_auto_start,
            *final(self) == (App { needs_auto_start: false, ..*old(self) }),
    {
        let r = self.needs_auto_start;
        self.needs_auto_start = false;
        r
    }
}

} // verus!

verus! {

/// The marks after pressing `a` on a row with process id `id`: a marked id
/// loses every mark, an unmarked one is appended.
pub open spec fn toggled_marks(marks: Seq<i32>, id: i32) -> Seq<i32> {
    if listed(marks, id) {
        without_value(marks, id)
    } else {
        marks.push(id)
    }
}

proof fn lemma_without_absent(v: Seq<i32>, id: i32)
    requires
        !v.contains(id),
    ensures
        without_value(v, id) == v,
    decreases v.len(),
{
    if v.len() > 0 {
        assert(!v.drop_last().contains(id)) by {
            if v.drop_last().contains(id) {
                let k = choose|k: int| 0 <= k < v.drop_last().len() && v.drop_last()[k] == id;
                assert(v[k] == id);
            }
        }
        assert(v.contains(v.last()));
        lemma_without_absent(v.drop_last(), id);
        assert(v.drop_last().push(v.last()) =~= v);
    }
}

proof fn lemma_without_drops(v: Seq<i32>, id: i32)
    ensures
        !without_value(v, id).contains(id),
    decreases v.len(),
{
    if v.len() > 0 {
        lemma_without_drops(v.drop_last(), id);
        if v.last() != id {
            let w = without_value(v.drop_last(), id);
            if w.push(v.last()).contains(id) {
                let k = choose|k: int| 0 <= k < w.push(v.last()).len() && w.push(v.last())[k] == id;
                if k < w.len() {
                    assert(w[k] == id);
                    assert(w.contains(id));
                }
            }
        }
    }
}

/// Pressing `a` on a row flips whether its id is marked; pressing it twice
/// on an unmarked row leaves the marks exactly as they were.
pub proof fn auto_start_toggle_flips(marks: Seq<i32>, id: i32)
    ensures
        listed(toggled_marks(marks, id), id) == !listed(marks, id),
        !listed(marks, id) ==> toggled_marks(toggled_marks(marks, id), id) == marks,
{
    if listed(marks, id) {
        lemma_without_drops(marks, id);
    } else {
        let pushed = marks.push(id);
        assert(pushed[marks.len() as int] == id);
        assert(pushed.drop_last() =~= marks);
        lemma_without_absent(marks, id);
    }
}

} // verus!
