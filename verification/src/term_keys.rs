//! What a key press does on the terminal screen: screen switches, tab and
//! split control, tab-number selection, and otherwise the bytes sent to the
//! focused session.

use vstd::prelude::*;

use crate::action::AppAction;
use crate::keybindings::KeyBind;
use crate::keys::{KeyCode, KeyEvent};
use crate::screen::Screen;
use crate::term_input::{key_bytes, key_to_bytes};
use crate::terminal::{SplitFocus, SplitView, TerminalView};

verus! {

/// The outcome of a key on the terminal screen.
#[derive(Debug)]
pub enum TermKeyOutcome {
    /// The host picker is open and handles the key.
    HostPicker,
    /// The key was handled, possibly asking the main loop for an action.
    Done(Option<AppAction>),
}

/// What a key asks of the main loop.
pub enum KeyEffect {
    /// The host picker handles the key.
    Picker,
    /// Nothing more to do.
    Nothing,
    /// This action.
    Act(AppAction),
    /// Send these bytes to the focused session.
    Send(Seq<u8>),
}

/// What a key does on the terminal screen.
pub struct TermKeyStep {
    pub effect: KeyEffect,
    pub active_tab: usize,
    pub split: Option<SplitView>,
    pub tab_select_mode: bool,
    /// The tab whose unread-output mark is cleared, if any.
    pub seen: Option<usize>,
}

/// The screen a key switches to from the terminal: Ctrl+Q and F1 to the
/// dashboard, F2 to the file manager, F3 to the snippets.
pub open spec fn screen_switch(key: KeyEvent) -> Option<Screen> {
    if key.code == KeyCode::Char('q') && key.modifiers.control {
        Some(Screen::Dashboard)
    } else if key.code == KeyCode::F(1) {
        Some(Screen::Dashboard)
    } else if key.code == KeyCode::F(2) {
        Some(Screen::FileManager)
    } else if key.code == KeyCode::F(3) {
        Some(Screen::Snippets)
    } else {
        None
    }
}

/// The step for a key that none of the control keys took: the next-tab
/// binding, tab-number selection, or the bytes of the key.
pub open spec fn plain_step(
    active: usize,
    split: Option<SplitView>,
    ntabs: nat,
    select_mode: bool,
    next_tab: KeyBind,
    key: KeyEvent,
) -> TermKeyStep {
    if key.code == next_tab.code && key.modifiers.control == next_tab.ctrl {
        if split is Some {
            TermKeyStep {
                effect: KeyEffect::Act(AppAction::TermFocusNextPane),
                active_tab: active,
                split,
                tab_select_mode: select_mode,
                seen: None,
            }
        } else if ntabs > 1 {
            let next = ((active + 1) % (ntabs as int)) as usize;
            TermKeyStep { effect: KeyEffect::Nothing, active_tab: next, split, tab_select_mode: true, seen: Some(next) }
        } else {
            TermKeyStep { effect: KeyEffect::Nothing, active_tab: active, split, tab_select_mode: true, seen: None }
        }
    } else {
        let digit = match key.code {
            KeyCode::Char(c) => if '1' <= c && c <= '9' {
                Some(((c as u32) - ('1' as u32)) as nat)
            } else {
                None
            },
            _ => None,
        };
        if select_mode && digit is Some {
            let n = digit->0;
            TermKeyStep {
                effect: if n < ntabs {
                    KeyEffect::Act(AppAction::TermSwitchTab(n as usize))
                } else {
                    KeyEffect::Nothing
                },
                active_tab: active,
                split,
                tab_select_mode: false,
                seen: None,
            }
        } else {
            TermKeyStep {
                effect: if key_bytes(key).len() == 0 {
                    KeyEffect::Nothing
                } else {
                    KeyEffect::Send(key_bytes(key))
                },
                active_tab: active,
                split,
                tab_select_mode: false,
                seen: None,
            }
        }
    }
}

/// The outcome `o` carries out the effect `e`.
pub open spec fn carries_out(o: TermKeyOutcome, e: KeyEffect) -> bool {
    match e {
        KeyEffect::Picker => o is HostPicker,
        KeyEffect::Nothing => o == TermKeyOutcome::Done(None),
        KeyEffect::Send(b) => match o {
            TermKeyOutcome::Done(Some(AppAction::TermInput(v))) => v@ == b,
            _ => false,
        },
        KeyEffect::Act(a) => o == TermKeyOutcome::Done(Some(a)),
    }
}

/// What a key does on the terminal screen with `ntabs` tabs, the active
/// tab `active`, the split layout `split` focused on `focus`, tab-number
/// selection armed or not, the host picker open or not, and the next-tab
/// binding `next_tab`.
pub open spec fn terminal_key_step(
    active: usize,
    split: Option<SplitView>,
    focus: SplitFocus,
    ntabs: nat,
    select_mode: bool,
    picker_open: bool,
    next_tab: KeyBind,
    key: KeyEvent,
) -> TermKeyStep {
    let unchanged = |e: KeyEffect|
        TermKeyStep { effect: e, active_tab: active, split, tab_select_mode: select_mode, seen: None };
    if picker_open {
        unchanged(KeyEffect::Picker)
    } else if screen_switch(key) is Some {
        unchanged(KeyEffect::Act(AppAction::SwitchScreen(screen_switch(key)->0)))
    } else if key.modifiers.control && key.code == KeyCode::Char('t') {
        unchanged(KeyEffect::Act(AppAction::TermOpenHostPicker))
    } else if key.modifiers.control && key.code == KeyCode::Char('w') {
        unchanged(KeyEffect::Act(AppAction::TermCloseTab))
    } else if key.modifiers.control && key.code == KeyCode::Char('h') {
        unchanged(if split is Some { KeyEffect::Act(AppAction::TermSwitchPaneHost) } else { KeyEffect::Nothing })
    } else if key.modifiers.control && key.code == KeyCode::Char('4') {
        unchanged(KeyEffect::Act(AppAction::TermSplitVertical))
    } else if key.modifiers.control && key.code == KeyCode::Char('5') {
        unchanged(KeyEffect::Act(AppAction::TermSplitHorizontal))
    } else if key.modifiers.control && (key.code == KeyCode::Right || key.code == KeyCode::Left) {
        let right = key.code == KeyCode::Right;
        if ntabs <= 1 {
            unchanged(KeyEffect::Nothing)
        } else if split is Some && focus == SplitFocus::Secondary {
            let s = split->0.secondary_tab;
            let moved = if right {
                ((s + 1) % (ntabs as int)) as usize
            } else if s == 0 {
                (ntabs - 1) as usize
            } else {
                (s - 1) as usize
            };
            TermKeyStep {
                effect: KeyEffect::Nothing,
                active_tab: active,
                split: Some(SplitView { direction: split->0.direction, secondary_tab: moved }),
                tab_select_mode: select_mode,
                seen: None,
            }
        } else {
            let target = if right {
                ((active + 1) % (ntabs as int)) as usize
            } else if active == 0 {
                (ntabs - 1) as usize
            } else {
                (active - 1) as usize
            };
            unchanged(KeyEffect::Act(AppAction::TermSwitchTab(target)))
        }
    } else {
        plain_step(active, split, ntabs, select_mode, next_tab, key)
    }
}

/// With the host picker closed, Ctrl+Right switches to the next tab and
/// Ctrl+Left to the previous one, wrapping around at either end, when no
/// split pane is focused and there are several tabs; F1 and Ctrl+Q show the
/// dashboard, F2 the file manager and F3 the snippets.
pub proof fn law_terminal_navigation_keys(
    active: usize,
    split: Option<SplitView>,
    focus: SplitFocus,
    ntabs: nat,
    select_mode: bool,
    next_tab: KeyBind,
    key: KeyEvent,
)
    requires
        ntabs > 1,
        active < ntabs,
        !(split is Some && focus == SplitFocus::Secondary),
    ensures
        key.modifiers.control && key.code == KeyCode::Right ==> terminal_key_step(
            active,
            split,
            focus,
            ntabs,
            select_mode,
            false,
            next_tab,
            key,
        ).effect == KeyEffect::Act(
            AppAction::TermSwitchTab(
                if active + 1 < ntabs {
                    (active + 1) as usize
                } else {
                    0usize
                },
            ),
        ),
        key.modifiers.control && key.code == KeyCode::Left ==> terminal_key_step(
            active,
            split,
            focus,
            ntabs,
            select_mode,
            false,
            next_tab,
            key,
        ).effect == KeyEffect::Act(
            AppAction::TermSwitchTab(
                if active > 0 {
                    (active - 1) as usize
                } else {
                    (ntabs - 1) as usize
                },
            ),
        ),
        key.code == KeyCode::F(1) || (key.modifiers.control && key.code == KeyCode::Char('q')) ==> terminal_key_step(
            active,
            split,
            focus,
            ntabs,
            select_mode,
            false,
            next_tab,
            key,
        ).effect == KeyEffect::Act(AppAction::SwitchScreen(Screen::Dashboard)),
        key.code == KeyCode::F(2) ==> terminal_key_step(active, split, focus, ntabs, select_mode, false, next_tab, key).effect
            == KeyEffect::Act(AppAction::SwitchScreen(Screen::FileManager)),
        key.code == KeyCode::F(3) ==> terminal_key_step(active, split, focus, ntabs, select_mode, false, next_tab, key).effect
            == KeyEffect::Act(AppAction::SwitchScreen(Screen::Snippets)),
{
    if active + 1 < ntabs {
        assert((active + 1) % (ntabs as int) == active + 1) by (nonlinear_arith)
            requires
                active + 1 < ntabs,
        ;
    } else {
        assert(active + 1 == ntabs);
        assert((active + 1) % (ntabs as int) == 0) by (nonlinear_arith)
            requires
                active + 1 == ntabs,
                ntabs > 1,
        ;
    }
}

/// Handles a key on the terminal screen: updates the view (tab cycling in
/// the focused pane, tab-number selection, unread marks) and says what the
/// main loop should do.
pub fn terminal_key(view: &mut TerminalView, next_tab: KeyBind, key: KeyEvent) -> (res: TermKeyOutcome)
    requires
        old(view).active_tab < usize::MAX,
        old(view).split matches Some(sv) ==> sv.secondary_tab < usize::MAX,
    ensures
        ({
            let step = terminal_key_step(
                old(view).active_tab,
                old(view).split,
                old(view).split_focus,
                old(view).tabs.len() as nat,
                old(view).tab_select_mode,
                old(view).host_picker is Some,
                next_tab,
                key,
            );
            &&& carries_out(res, step.effect)
            &&& final(view).active_tab == step.active_tab
            &&& final(view).split == step.split
            &&& final(view).tab_select_mode == step.tab_select_mode
            &&& final(view).tabs.len() == old(view).tabs.len()
            &&& forall|i: int|
                0 <= i < old(view).tabs.len() ==> {
                    let t = #[trigger] final(view).tabs@[i];
                    let o = old(view).tabs@[i];
                    &&& t.session_id == o.session_id
                    &&& t.host_name == o.host_name
                    &&& t.scroll_offset == o.scroll_offset
                    &&& t.has_activity == if step.seen == Some(i as usize) {
                        false
                    } else {
                        o.has_activity
                    }
                }
            &&& final(view).split_focus == old(view).split_focus
            &&& final(view).host_picker == old(view).host_picker
        }),
{
    let ctrl = key.modifiers.control;
    let ntabs = view.tabs.len();
    if view.host_picker.is_some() {
        return TermKeyOutcome::HostPicker;
    }
    if ctrl && key.code == KeyCode::Char('q') {
        return TermKeyOutcome::Done(Some(AppAction::SwitchScreen(Screen::Dashboard)));
    }
    match key.code {
        KeyCode::F(1) => {
            return TermKeyOutcome::Done(Some(AppAction::SwitchScreen(Screen::Dashboard)));
        },
        KeyCode::F(2) => {
            return TermKeyOutcome::Done(Some(AppAction::SwitchScreen(Screen::FileManager)));
        },
        KeyCode::F(3) => {
            return TermKeyOutcome::Done(Some(AppAction::SwitchScreen(Screen::Snippets)));
        },
        _ => {},
    }
    if ctrl {
        match key.code {
            KeyCode::Char('t') => {
                return TermKeyOutcome::Done(Some(AppAction::TermOpenHostPicker));
            },
            KeyCode::Char('w') => {
                return TermKeyOutcome::Done(Some(AppAction::TermCloseTab));
            },
            KeyCode::Char('h') => {
                if view.split.is_some() {
                    return TermKeyOutcome::Done(Some(AppAction::TermSwitchPaneHost));
                }
                return TermKeyOutcome::Done(None);
            },
            KeyCode::Char('4') => {
                return TermKeyOutcome::Done(Some(AppAction::TermSplitVertical));
            },
            KeyCode::Char('5') => {
                return TermKeyOutcome::Done(Some(AppAction::TermSplitHorizontal));
            },
            KeyCode::Right | KeyCode::Left => {
                let right = key.code == KeyCode::Right;
                if ntabs > 1 {
                    if view.split_focus == SplitFocus::Secondary {
                        if let Some(sv) = view.split {
                            let s = sv.secondary_tab;
                            let moved = if right {
                                (s + 1) % ntabs
                            } else if s == 0 {
                                ntabs - 1
                            } else {
                                s - 1
                            };
                            view.split = Some(SplitView { direction: sv.direction, secondary_tab: moved });
                            return TermKeyOutcome::Done(None);
                        }
                    }
                    let a = view.active_tab;
                    let target = if right {
                        (a + 1) % ntabs
                    } else if a == 0 {
                        ntabs - 1
                    } else {
                        a - 1
                    };
                    return TermKeyOutcome::Done(Some(AppAction::TermSwitchTab(target)));
                }
                return TermKeyOutcome::Done(None);
            },
            _ => {},
        }
    }
    if next_tab.matches(key) {
        if view.split.is_some() {
            return TermKeyOutcome::Done(Some(AppAction::TermFocusNextPane));
        }
        if ntabs > 1 {
            let next = (view.active_tab + 1) % ntabs;
            view.active_tab = next;
            let mut t = view.tabs[next].clone();
            t.has_activity = false;
            view.tabs.set(next, t);
        }
        view.tab_select_mode = true;
        return TermKeyOutcome::Done(None);
    }
    if view.tab_select_mode {
        if let KeyCode::Char(c) = key.code {
            if '1' <= c && c <= '9' {
                let n: usize = ((c as u32) - ('1' as u32)) as usize;
                view.tab_select_mode = false;
                if n < ntabs {
                    return TermKeyOutcome::Done(Some(AppAction::TermSwitchTab(n)));
                }
                return TermKeyOutcome::Done(None);
            }
        }
        view.tab_select_mode = false;
    }
    let bytes = key_to_bytes(key);
    if bytes.len() == 0 {
        TermKeyOutcome::Done(None)
    } else {
        TermKeyOutcome::Done(Some(AppAction::TermInput(bytes)))
    }
}

} // verus!
