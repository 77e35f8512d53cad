//! Keys on the dashboard's host list: moving and searching the list, the
//! add/edit form, and the confirmation popups.

use vstd::prelude::*;

use crate::action::AppAction;
use crate::form::{erased, is_boundary, typed, FormField};
use crate::host::HostForm;
use crate::host_list::{HostListView, HostPopup};
use crate::keys::{KeyCode, KeyEvent};
use crate::text::{chars_of, push_char, string_of};

verus! {

/// The focused field of `f` can take a typed character or a backspace.
pub open spec fn form_editable(f: HostForm) -> bool {
    &&& f.fields.len() > 0
    &&& f.focused_field < usize::MAX
    &&& f.focused_field < f.fields.len() ==> {
        let fld = f.fields@[f.focused_field as int];
        &&& is_boundary(fld.value@, fld.cursor as int)
        &&& fld.cursor + 4 <= usize::MAX
    }
}

/// A field edited to show the text and cursor `tc`.
pub open spec fn shows_edit(f: FormField, tc: (Seq<char>, int)) -> bool {
    f.value@ == tc.0 && f.cursor == tc.1
}

/// What a key does to the add/edit form `f0`, giving `f1` and the action `a`:
/// Enter confirms, Tab and Shift+Tab move the focus, Backspace erases before
/// the cursor and a character without Ctrl is typed at it.
pub open spec fn form_keyed(f0: HostForm, f1: HostForm, key: KeyEvent, a: Option<AppAction>) -> bool {
    let i = f0.focused_field;
    let in_range = i < f0.fields.len();
    if key.code == KeyCode::Enter {
        f1 == f0 && a == Some(AppAction::ConfirmForm)
    } else if key.code == KeyCode::Tab {
        &&& f1.fields == f0.fields
        &&& f1.focused_field == (i + 1) % (f0.fields.len() as int)
        &&& a is None
    } else if key.code == KeyCode::BackTab {
        &&& f1.fields == f0.fields
        &&& f1.focused_field == if i == 0 {
            f0.fields.len() - 1
        } else {
            i - 1
        }
        &&& a is None
    } else if key.code == KeyCode::Backspace && in_range {
        &&& f1.focused_field == i
        &&& f1.fields.len() == f0.fields.len()
        &&& forall|j: int| 0 <= j < f0.fields.len() && j != i ==> #[trigger] f1.fields@[j] == f0.fields@[j]
        &&& shows_edit(f1.fields@[i as int], erased(f0.fields@[i as int].value@, f0.fields@[i as int].cursor as int))
        &&& a is None
    } else if (key.code matches KeyCode::Char(c)) && !key.modifiers.control && in_range {
        let c = key.code->Char_0;
        &&& f1.focused_field == i
        &&& f1.fields.len() == f0.fields.len()
        &&& forall|j: int| 0 <= j < f0.fields.len() && j != i ==> #[trigger] f1.fields@[j] == f0.fields@[j]
        &&& shows_edit(f1.fields@[i as int], typed(f0.fields@[i as int].value@, f0.fields@[i as int].cursor as int, c))
        &&& a is None
    } else {
        f1 == f0 && a is None
    }
}

/// The index of the selected host, if any.
pub open spec fn selected_of(v: HostListView) -> Option<usize> {
    if v.selected < v.filtered_indices.len() {
        Some(v.filtered_indices@[v.selected as int])
    } else {
        None
    }
}

fn form_key(form: &mut HostForm, key: KeyEvent) -> (res: Option<AppAction>)
    requires
        form_editable(*old(form)),
    ensures
        form_keyed(*old(form), *final(form), key, res),
{
    let i = form.focused_field;
    match key.code {
        KeyCode::Enter => Some(AppAction::ConfirmForm),
        KeyCode::Tab => {
            form.focus_next();
            None
        },
        KeyCode::BackTab => {
            form.focus_prev();
            None
        },
        KeyCode::Backspace => {
            if i < form.fields.len() {
                let ghost before = form.fields@;
                let mut f = form.fields.remove(i);
                f.backspace();
                form.fields.insert(i, f);
                assert forall|j: int| 0 <= j < before.len() && j != i implies #[trigger] form.fields@[j]
                    == before[j] by {
                    if j < i {
                    } else {
                    }
                }
            }
            None
        },
        KeyCode::Char(c) => {
            if !key.modifiers.control && i < form.fields.len() {
                let ghost before = form.fields@;
                let mut f = form.fields.remove(i);
                f.insert_char(c);
                form.fields.insert(i, f);
                assert forall|j: int| 0 <= j < before.len() && j != i implies #[trigger] form.fields@[j]
                    == before[j] by {
                    if j < i {
                    } else {
                    }
                }
            }
            None
        },
        _ => None,
    }
}

fn pop_char(s: &String) -> (res: String)
    ensures
        res@ == if s@.len() > 0 {
            s@.drop_last()
        } else {
            s@
        },
{
    let cs = chars_of(s.as_str());
    let mut out: Vec<char> = Vec::new();
    let n: usize = if cs.len() > 0 { cs.len() - 1 } else { 0 };
    let mut i: usize = 0;
    while i < n
        invariant
            n <= cs.len(),
            i <= n,
            out@ == cs@.take(i as int),
        decreases n - i,
    {
        out.push(cs[i]);
        assert(cs@.take(i + 1) =~= cs@.take(i as int).push(cs@[i as int]));
        i = i + 1;
    }
    if cs.len() > 0 {
        assert(cs@.take(n as int) =~= cs@.drop_last());
    } else {
        assert(cs@.take(0) =~= cs@);
    }
    string_of(&out)
}

/// Handles a key on the host list: popups first (Esc closes any of them),
/// then the search being typed, then the list's own keys.
pub fn handle_input(key: KeyEvent, hlv: &mut HostListView) -> (res: Option<AppAction>)
    requires
        old(hlv).selected < usize::MAX,
        old(hlv).popup matches Some(HostPopup::Add(f)) ==> form_editable(f),
        old(hlv).popup matches Some(HostPopup::Edit { form, .. }) ==> form_editable(form),
    ensures
        final(hlv).filtered_indices == old(hlv).filtered_indices,
        final(hlv).sort_order == old(hlv).sort_order,
        final(hlv).tag_filter == old(hlv).tag_filter,
        old(hlv).popup is Some ==> final(hlv).selected == old(hlv).selected && final(hlv).search_query
            == old(hlv).search_query && final(hlv).search_mode == old(hlv).search_mode,
        old(hlv).popup is Some && key.code == KeyCode::Esc ==> final(hlv).popup is None && res is None,
        old(hlv).popup is Some && key.code != KeyCode::Esc ==> match old(hlv).popup {
            Some(HostPopup::Add(f0)) => final(hlv).popup matches Some(HostPopup::Add(f1)) && form_keyed(
                f0,
                f1,
                key,
                res,
            ),
            Some(HostPopup::Edit { host_idx, form }) => final(hlv).popup matches Some(
                HostPopup::Edit { host_idx: h1, form: f1 },
            ) && h1 == host_idx && form_keyed(form, f1, key, res),
            Some(HostPopup::DeleteConfirm(idx)) => if key.code == KeyCode::Char('y') || key.code
                == KeyCode::Char('Y') {
                res == Some(AppAction::ConfirmDelete) && final(hlv).popup == old(hlv).popup
            } else if key.code == KeyCode::Char('n') || key.code == KeyCode::Char('N') {
                res is None && final(hlv).popup is None
            } else {
                res is None && final(hlv).popup == old(hlv).popup
            },
            Some(HostPopup::KeySetupConfirm(idx)) => final(hlv).popup == old(hlv).popup && if key.code
                == KeyCode::Char('y') || key.code == KeyCode::Char('Y') || key.code == KeyCode::Enter {
                res == Some(AppAction::ConfirmKeySetup(idx))
            } else if key.code == KeyCode::Char('n') || key.code == KeyCode::Char('N') {
                res == Some(AppAction::CancelKeySetup)
            } else {
                res is None
            },
            _ => res is None && final(hlv).popup == old(hlv).popup,
        },
        old(hlv).popup is None && old(hlv).search_mode ==> {
            &&& final(hlv).popup is None
            &&& final(hlv).selected == old(hlv).selected
            &&& if key.code == KeyCode::Enter {
                !final(hlv).search_mode && final(hlv).search_query == old(hlv).search_query && res is None
            } else if key.code == KeyCode::Esc {
                !final(hlv).search_mode && final(hlv).search_query@.len() == 0 && res
                    == Some(AppAction::SearchQueryChanged)
            } else if key.code == KeyCode::Backspace {
                final(hlv).search_mode && final(hlv).search_query@ == (if old(hlv).search_query@.len() > 0 {
                    old(hlv).search_query@.drop_last()
                } else {
                    old(hlv).search_query@
                }) && res == Some(AppAction::SearchQueryChanged)
            } else if (key.code matches KeyCode::Char(c)) && !key.modifiers.control {
                final(hlv).search_mode && final(hlv).search_query@ == old(hlv).search_query@.push(
                    key.code->Char_0,
                ) && res == Some(AppAction::SearchQueryChanged)
            } else {
                final(hlv).search_mode && final(hlv).search_query == old(hlv).search_query && res is None
            }
        },
        old(hlv).popup is None && !old(hlv).search_mode ==> {
            let sel = selected_of(*old(hlv));
            let n = old(hlv).filtered_indices.len();
            &&& final(hlv).search_query == old(hlv).search_query
            &&& if key.code == KeyCode::Down || key.code == KeyCode::Char('j') {
                &&& final(hlv).selected == (if n == 0 {
                    old(hlv).selected as int
                } else if old(hlv).selected + 1 < n {
                    old(hlv).selected + 1
                } else {
                    n - 1
                })
                &&& res is None && final(hlv).popup is None && !final(hlv).search_mode
            } else if key.code == KeyCode::Up || key.code == KeyCode::Char('k') {
                &&& final(hlv).selected == (if old(hlv).selected == 0 {
                    0
                } else {
                    old(hlv).selected - 1
                })
                &&& res is None && final(hlv).popup is None && !final(hlv).search_mode
            } else {
                &&& final(hlv).selected == old(hlv).selected
                &&& if key.code == KeyCode::Enter {
                    res == (match sel {
                        Some(i) => Some(AppAction::ConnectAt(i)),
                        None => None,
                    }) && final(hlv).popup is None && !final(hlv).search_mode
                } else if key.code == KeyCode::Char('/') {
                    res is None && final(hlv).popup is None && final(hlv).search_mode
                } else if key.code == KeyCode::Char('a') {
                    &&& res is None && !final(hlv).search_mode
                    &&& final(hlv).popup matches Some(HostPopup::Add(f)) && f.fields.len() == 8
                        && f.focused_field == 0 && forall|j: int|
                        0 <= j < 8 ==> (#[trigger] f.fields@[j]).value@.len() == 0 && f.fields@[j].cursor == 0
                } else if key.code == KeyCode::Char('e') {
                    res == (if sel is Some {
                        Some(AppAction::OpenEditPopup)
                    } else {
                        None
                    }) && final(hlv).popup is None && !final(hlv).search_mode
                } else if key.code == KeyCode::Char('d') {
                    res is None && !final(hlv).search_mode && final(hlv).popup == match sel {
                        Some(i) => Some(HostPopup::DeleteConfirm(i)),
                        None => None,
                    }
                } else if key.code == KeyCode::Char('K') {
                    res == (if sel is Some {
                        Some(AppAction::StartKeySetup)
                    } else {
                        None
                    }) && final(hlv).popup is None && !final(hlv).search_mode
                } else if key.code == KeyCode::Char('r') {
                    res == Some(AppAction::ReloadHosts) && final(hlv).popup is None && !final(hlv).search_mode
                } else {
                    res is None && final(hlv).popup is None && !final(hlv).search_mode
                }
            }
        },
{
    if hlv.popup.is_some() {
        if key.code == KeyCode::Esc {
            hlv.popup = None;
            return None;
        }
        let popup = hlv.popup.take();
        match popup {
            Some(HostPopup::Add(mut form)) => {
                let r = form_key(&mut form, key);
                hlv.popup = Some(HostPopup::Add(form));
                return r;
            },
            Some(HostPopup::Edit { host_idx, mut form }) => {
                let r = form_key(&mut form, key);
                hlv.popup = Some(HostPopup::Edit { host_idx, form });
                return r;
            },
            Some(HostPopup::DeleteConfirm(idx)) => {
                if key.code == KeyCode::Char('y') || key.code == KeyCode::Char('Y') {
                    hlv.popup = Some(HostPopup::DeleteConfirm(idx));
                    return Some(AppAction::ConfirmDelete);
                }
                if key.code == KeyCode::Char('n') || key.code == KeyCode::Char('N') {
                    return None;
                }
                hlv.popup = Some(HostPopup::DeleteConfirm(idx));
                return None;
            },
            Some(HostPopup::KeySetupConfirm(idx)) => {
                hlv.popup = Some(HostPopup::KeySetupConfirm(idx));
                if key.code == KeyCode::Char('y') || key.code == KeyCode::Char('Y') || key.code == KeyCode::Enter {
                    return Some(AppAction::ConfirmKeySetup(idx));
                }
                if key.code == KeyCode::Char('n') || key.code == KeyCode::Char('N') {
                    return Some(AppAction::CancelKeySetup);
                }
                return None;
            },
            other => {
                hlv.popup = other;
                return None;
            },
        }
    }
    if hlv.search_mode {
        match key.code {
            KeyCode::Enter => {
                hlv.search_mode = false;
                return None;
            },
            KeyCode::Esc => {
                hlv.search_mode = false;
                hlv.search_query = String::new();
                return Some(AppAction::SearchQueryChanged);
            },
            KeyCode::Backspace => {
                hlv.search_query = pop_char(&hlv.search_query);
                return Some(AppAction::SearchQueryChanged);
            },
            KeyCode::Char(c) => {
                if !key.modifiers.control {
                    push_char(&mut hlv.search_query, c);
                    return Some(AppAction::SearchQueryChanged);
                }
                return None;
            },
            _ => {
                return None;
            },
        }
    }
    match key.code {
        KeyCode::Down | KeyCode::Char('j') => {
            hlv.select_next();
            None
        },
        KeyCode::Up | KeyCode::Char('k') => {
            hlv.select_prev();
            None
        },
        KeyCode::Enter => match hlv.selected_host_idx() {
            Some(i) => Some(AppAction::ConnectAt(i)),
            None => None,
        },
        KeyCode::Char('/') => {
            hlv.search_mode = true;
            None
        },
        KeyCode::Char('a') => {
            hlv.popup = Some(HostPopup::Add(HostForm::empty()));
            None
        },
        KeyCode::Char('e') => {
            if hlv.selected_host_idx().is_some() {
                Some(AppAction::OpenEditPopup)
            } else {
                None
            }
        },
        KeyCode::Char('d') => {
            if let Some(idx) = hlv.selected_host_idx() {
                hlv.popup = Some(HostPopup::DeleteConfirm(idx));
            }
            None
        },
        KeyCode::Char('K') => {
            if hlv.selected_host_idx().is_some() {
                Some(AppAction::StartKeySetup)
            } else {
                None
            }
        },
        KeyCode::Char('r') => Some(AppAction::ReloadHosts),
        _ => None,
    }
}

} // verus!
