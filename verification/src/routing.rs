//! Which part of the interface a key press goes to: modal popups first, the
//! terminal screen, global keys and bindings, then the screen's own handler.

use vstd::prelude::*;

use crate::action::AppAction;
use crate::keybindings::ParsedKeybindings;
use crate::keys::{KeyCode, KeyEvent};
use crate::screen::Screen;

verus! {

/// What the interface shows when a key arrives.
#[derive(Debug, Clone, Copy, PartialEq, Eq, Structural)]
pub struct KeyContext {
    /// The screen shown.
    pub screen: Screen,
    /// The update popup is open.
    pub update_popup: bool,
    /// The dashboard's tag filter popup is open.
    pub tag_popup: bool,
    /// A file manager popup is open.
    pub file_manager_popup: bool,
    /// A snippet results or quick-execute popup is open (shown on any screen).
    pub snippet_overlay: bool,
    /// A snippet popup is open, or a snippet search is being typed.
    pub snippet_popup_or_search: bool,
    /// A host popup is open, or a host search is being typed.
    pub host_popup_or_search: bool,
    /// The terminal screen has no tab.
    pub no_terminal_tabs: bool,
    /// The help popup is shown.
    pub show_help: bool,
    /// A status message is shown.
    pub status_message: bool,
}

/// Where a key press goes.
#[derive(Debug)]
pub enum KeyRoute {
    /// Ask the main loop for this action.
    Action(AppAction),
    /// The update popup handles the key.
    UpdatePopup,
    /// The terminal screen handles the key.
    Terminal,
    /// The tag filter popup handles the key.
    TagPopup,
    /// The file manager popup handles the key.
    FileManagerPopup,
    /// The snippets handler takes the key.
    SnippetsInput,
    /// The handler of this screen takes the key.
    ScreenInput(Screen),
    /// Show this screen, clearing the status message; set up the file
    /// manager or open the terminal host picker when asked.
    SwitchScreen { screen: Screen, bootstrap_files: bool, open_host_picker: bool },
    /// Show or hide the help popup (scrolled to the top when shown).
    ToggleHelp,
    /// Hide the help popup.
    CloseHelp,
    /// Clear the status message.
    ClearStatus,
    /// Nothing happens.
    Ignore,
}

/// The key is Ctrl+C.
pub open spec fn is_ctrl_c(key: KeyEvent) -> bool {
    key.modifiers.control && key.code == KeyCode::Char('c')
}

/// The screen the next-screen key leads to from `s`.
pub open spec fn screen_after(s: Screen) -> Screen {
    match s {
        Screen::Dashboard => Screen::FileManager,
        Screen::DetailView => Screen::Dashboard,
        Screen::FileManager => Screen::Snippets,
        Screen::Snippets => Screen::Terminal,
        Screen::Terminal => Screen::Dashboard,
    }
}

/// The switch to screen `s` from a global key.
pub open spec fn switch_to(s: Screen, no_tabs: bool) -> KeyRoute {
    KeyRoute::SwitchScreen {
        screen: s,
        bootstrap_files: s == Screen::FileManager,
        open_host_picker: s == Screen::Terminal && no_tabs,
    }
}

/// The screen handler's route for a key on screen `s`.
pub open spec fn screen_route(s: Screen) -> KeyRoute {
    if s == Screen::Terminal {
        KeyRoute::Ignore
    } else {
        KeyRoute::ScreenInput(s)
    }
}

/// Where a key goes, given what is shown and the key bindings.
pub open spec fn key_route(ctx: KeyContext, kb: ParsedKeybindings, key: KeyEvent) -> KeyRoute {
    let s = ctx.screen;
    if ctx.update_popup {
        if is_ctrl_c(key) {
            KeyRoute::Action(AppAction::Quit)
        } else {
            KeyRoute::UpdatePopup
        }
    } else if s == Screen::Terminal {
        KeyRoute::Terminal
    } else if is_ctrl_c(key) {
        KeyRoute::Action(AppAction::Quit)
    } else if ctx.tag_popup && s == Screen::Dashboard {
        KeyRoute::TagPopup
    } else if ctx.file_manager_popup && s == Screen::FileManager {
        KeyRoute::FileManagerPopup
    } else if ctx.snippet_overlay {
        KeyRoute::SnippetsInput
    } else if ctx.snippet_popup_or_search && s == Screen::Snippets {
        KeyRoute::SnippetsInput
    } else if ctx.host_popup_or_search {
        if s == Screen::Dashboard {
            KeyRoute::ScreenInput(Screen::Dashboard)
        } else {
            KeyRoute::Ignore
        }
    } else if key.code == kb.quit {
        KeyRoute::Action(AppAction::Quit)
    } else if key.code == kb.dashboard || key.code == KeyCode::Char('1') {
        switch_to(Screen::Dashboard, ctx.no_terminal_tabs)
    } else if key.code == kb.file_manager || key.code == KeyCode::Char('2') {
        switch_to(Screen::FileManager, ctx.no_terminal_tabs)
    } else if key.code == kb.snippets || key.code == KeyCode::Char('3') {
        switch_to(Screen::Snippets, ctx.no_terminal_tabs)
    } else if key.code == KeyCode::Char('4') || key.code == KeyCode::F(4) {
        if s == Screen::DetailView {
            KeyRoute::ScreenInput(Screen::DetailView)
        } else {
            KeyRoute::SwitchScreen {
                screen: Screen::Terminal,
                bootstrap_files: false,
                open_host_picker: ctx.no_terminal_tabs,
            }
        }
    } else if key.code == kb.next_screen.code && key.modifiers.control == kb.next_screen.ctrl {
        if s == Screen::FileManager {
            KeyRoute::Action(AppAction::FmSwitchPanel)
        } else {
            switch_to(screen_after(s), ctx.no_terminal_tabs)
        }
    } else if key.code == KeyCode::Char('?') {
        KeyRoute::ToggleHelp
    } else if key.code == KeyCode::Esc {
        if ctx.show_help {
            KeyRoute::CloseHelp
        } else if ctx.status_message {
            KeyRoute::ClearStatus
        } else {
            screen_route(s)
        }
    } else {
        screen_route(s)
    }
}

/// With no popup or search open, off the terminal screen, the keys `1` to
/// `4` show the dashboard, the file manager, the snippets and the terminal
/// (the file manager set up on the way in, the host picker opened when the
/// terminal has no tab; `4` on the detail view is the detail view's own), and
/// the next-screen binding goes from the dashboard to the file manager, the
/// snippets, the terminal and back, from the detail view to the dashboard,
/// and on the file manager switches panels. Configured bindings on the same
/// keys come first.
pub proof fn law_screen_keys(ctx: KeyContext, kb: ParsedKeybindings, key: KeyEvent)
    requires
        !ctx.update_popup,
        ctx.screen != Screen::Terminal,
        !ctx.tag_popup,
        !ctx.file_manager_popup,
        !ctx.snippet_overlay,
        !ctx.snippet_popup_or_search,
        !ctx.host_popup_or_search,
        !key.modifiers.control,
        key.code != kb.quit,
        key.code != kb.dashboard,
        key.code != kb.file_manager,
        key.code != kb.snippets,
    ensures
        key.code == KeyCode::Char('1') ==> key_route(ctx, kb, key) == (KeyRoute::SwitchScreen {
            screen: Screen::Dashboard,
            bootstrap_files: false,
            open_host_picker: false,
        }),
        key.code == KeyCode::Char('2') ==> key_route(ctx, kb, key) == (KeyRoute::SwitchScreen {
            screen: Screen::FileManager,
            bootstrap_files: true,
            open_host_picker: false,
        }),
        key.code == KeyCode::Char('3') ==> key_route(ctx, kb, key) == (KeyRoute::SwitchScreen {
            screen: Screen::Snippets,
            bootstrap_files: false,
            open_host_picker: false,
        }),
        key.code == KeyCode::Char('4') && ctx.screen != Screen::DetailView ==> key_route(ctx, kb, key) == (
        KeyRoute::SwitchScreen { screen: Screen::Terminal, bootstrap_files: false, open_host_picker: ctx.no_terminal_tabs }),
        ({
            let k = key.code;
            let next = k == kb.next_screen.code && !kb.next_screen.ctrl && k != KeyCode::Char('1') && k != KeyCode::Char('2')
                && k != KeyCode::Char('3') && k != KeyCode::Char('4') && k != KeyCode::F(4);
            &&& next && ctx.screen == Screen::Dashboard ==> key_route(ctx, kb, key) == (KeyRoute::SwitchScreen {
                screen: Screen::FileManager,
                bootstrap_files: true,
                open_host_picker: false,
            })
            &&& next && ctx.screen == Screen::FileManager ==> key_route(ctx, kb, key) == KeyRoute::Action(
                AppAction::FmSwitchPanel,
            )
            &&& next && ctx.screen == Screen::Snippets ==> key_route(ctx, kb, key) == (KeyRoute::SwitchScreen {
                screen: Screen::Terminal,
                bootstrap_files: false,
                open_host_picker: ctx.no_terminal_tabs,
            })
            &&& next && ctx.screen == Screen::DetailView ==> key_route(ctx, kb, key) == (KeyRoute::SwitchScreen {
                screen: Screen::Dashboard,
                bootstrap_files: false,
                open_host_picker: false,
            })
        }),
{
}

fn switch_route(s: Screen, no_tabs: bool) -> (res: KeyRoute)
    ensures
        res == switch_to(s, no_tabs),
{
    KeyRoute::SwitchScreen {
        screen: s,
        bootstrap_files: s == Screen::FileManager,
        open_host_picker: s == Screen::Terminal && no_tabs,
    }
}

fn screen_route_exec(s: Screen) -> (res: KeyRoute)
    ensures
        res == screen_route(s),
{
    if s == Screen::Terminal {
        KeyRoute::Ignore
    } else {
        KeyRoute::ScreenInput(s)
    }
}

/// Decides where a key press goes: the update popup takes every key but
/// Ctrl+C, the terminal screen takes every key, Ctrl+C quits, then open
/// popups and searches, then the quit and screen keys, the help and escape
/// keys, and finally the screen's own handler.
pub fn route_key(ctx: KeyContext, kb: &ParsedKeybindings, key: KeyEvent) -> (res: KeyRoute)
    ensures
        res == key_route(ctx, *kb, key),
{
    let s = ctx.screen;
    let ctrl_c = key.modifiers.control && key.code == KeyCode::Char('c');
    if ctx.update_popup {
        if ctrl_c {
            return KeyRoute::Action(AppAction::Quit);
        }
        return KeyRoute::UpdatePopup;
    }
    if s == Screen::Terminal {
        return KeyRoute::Terminal;
    }
    if ctrl_c {
        return KeyRoute::Action(AppAction::Quit);
    }
    if ctx.tag_popup && s == Screen::Dashboard {
        return KeyRoute::TagPopup;
    }
    if ctx.file_manager_popup && s == Screen::FileManager {
        return KeyRoute::FileManagerPopup;
    }
    if ctx.snippet_overlay {
        return KeyRoute::SnippetsInput;
    }
    if ctx.snippet_popup_or_search && s == Screen::Snippets {
        return KeyRoute::SnippetsInput;
    }
    if ctx.host_popup_or_search {
        if s == Screen::Dashboard {
            return KeyRoute::ScreenInput(Screen::Dashboard);
        }
        return KeyRoute::Ignore;
    }
    if key.code == kb.quit {
        return KeyRoute::Action(AppAction::Quit);
    }
    if key.code == kb.dashboard || key.code == KeyCode::Char('1') {
        return switch_route(Screen::Dashboard, ctx.no_terminal_tabs);
    }
    if key.code == kb.file_manager || key.code == KeyCode::Char('2') {
        return switch_route(Screen::FileManager, ctx.no_terminal_tabs);
    }
    if key.code == kb.snippets || key.code == KeyCode::Char('3') {
        return switch_route(Screen::Snippets, ctx.no_terminal_tabs);
    }
    if key.code == KeyCode::Char('4') || key.code == KeyCode::F(4) {
        if s == Screen::DetailView {
            return KeyRoute::ScreenInput(Screen::DetailView);
        }
        return KeyRoute::SwitchScreen {
            screen: Screen::Terminal,
            bootstrap_files: false,
            open_host_picker: ctx.no_terminal_tabs,
        };
    }
    if kb.next_screen.matches(key) {
        if s == Screen::FileManager {
            return KeyRoute::Action(AppAction::FmSwitchPanel);
        }
        let next = match s {
            Screen::Dashboard => Screen::FileManager,
            Screen::DetailView => Screen::Dashboard,
            Screen::FileManager => Screen::Snippets,
            Screen::Snippets => Screen::Terminal,
            Screen::Terminal => Screen::Dashboard,
        };
        return switch_route(next, ctx.no_terminal_tabs);
    }
    if key.code == KeyCode::Char('?') {
        return KeyRoute::ToggleHelp;
    }
    if key.code == KeyCode::Esc {
        if ctx.show_help {
            return KeyRoute::CloseHelp;
        }
        if ctx.status_message {
            return KeyRoute::ClearStatus;
        }
        return screen_route_exec(s);
    }
    screen_route_exec(s)
}

} // verus!
