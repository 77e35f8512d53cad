//! The main loop's decisions: what an input handler's action or a
//! background task's event does to the application state and the views, and
//! which outside work (terminal sessions, reloads, saves, polling) it asks
//! the loop to carry out.

use vstd::prelude::*;

use crate::action::{AppAction, AppState};
use crate::file_manager::{
    join_path, paste_error, parent_dir, paths_of, plan_paste, shown_entries, focus_index, transfers_planned, FileManagerPopup, Transfer, FileManagerView, FilePanelView, FmClipboard, FmPanel};
use crate::form::FormField;
use crate::path_set::PathSet;
use crate::host::{opt_view, ConnectionStatus, Host, HostForm};
use crate::host_list::{clamp_selection, sort_keys, visible_hosts, HostListView, HostPopup, MetricKeys};
use crate::order::sorted_by_keys;
use crate::screen::{Screen, SortOrder};
use crate::snippet_actions::{
    broadcast_targets, confirm_snippet_delete, confirm_snippet_form, param_values, prepare_run, run_pending,
    snippet_form_confirmed, start_snippet, SnippetConfirmed, SnippetStart,
};
use crate::snippets::{
    matching_snippets, quick_view_command, quick_view_text, snippet_form_values, substituted, values_of, Snippet,
    SnippetForm, SnippetScope,
    SnippetPopup, SnippetResultEntry, SnippetsView,
};
use crate::terminal::{
    active_after_removal, focused_index, lemma_tab_of_session_bounds, tab_of_session, toggled_split, SessionId, SplitDirection,
    SplitFocus, TermHostPicker, TermTab, TerminalView,
};
use crate::assoc::{lookup, set_value};
use crate::host_actions::{confirm_host_delete, confirm_host_form, offer_key_setup, host_form_confirmed, rebuilt, Confirmed};
use crate::host_list::metrics_lookup;
use crate::services::ServiceKind;
use crate::text::{append_chars, append_str, chars_of, owned, split_chars, split_on, str_eq, string_of, trim, trim_chars, views};

verus! {

/// The state of every view the main loop drives.
#[derive(Debug, Default)]
pub struct ViewState {
    /// The message in the status bar, if any.
    pub status_message: Option<String>,
    pub host_list: HostListView,
    pub snippets_view: SnippetsView,
    pub file_manager: FileManagerView,
    pub terminal_view: TerminalView,
    /// The number the next file transfer gets.
    pub next_transfer_id: u64,
}

/// Outside work that the main loop carries out after an action or event.
#[derive(Debug)]
pub enum Effect {
    /// Open a terminal tab on the host at this index of the host list.
    OpenTab(usize),
    /// Replace the focused pane's session by one on the host at this index.
    SwitchPaneHost(usize),
    /// Send bytes to a terminal session.
    Write(SessionId, Vec<u8>),
    /// Close a terminal session.
    CloseSession(SessionId),
    /// Reload the hosts from disk and the SSH config.
    ReloadHosts,
    /// Poll the metrics of every host now.
    RefreshMetrics,
    /// (Re)start metrics polling for the current host list.
    RestartPolling,
    /// Connect the file manager's panels.
    BootstrapFileManager,
    /// Load the preview of the entry under the active panel's cursor.
    RequestPreview,
    /// Save the host list.
    SaveHosts,
    /// Save the snippet list.
    SaveSnippets,
    /// Run a command on the host at this index of the host list, for the
    /// results entry named `snippet_name`.
    RunCommand { host_idx: usize, command: String, snippet_name: String },
    /// Run a snippet's command on the named hosts, for results entries named
    /// `snippet_name`.
    RunSnippet { command: String, host_names: Vec<String>, snippet_name: String },
    /// Run SSH key setup on the host at this index of the host list.
    RunKeySetup(usize),
    /// Run these file transfers.
    Transfers(Vec<Transfer>),
    /// Connect the remote panel over SFTP to the host at this index.
    ConnectSftp(usize),
    /// List a directory of the local panel, or of the remote one over SFTP.
    ListDir { remote: bool, path: String },
    /// Delete these paths.
    DeletePaths { remote: bool, paths: Vec<String> },
    /// Create a directory.
    MakeDir { remote: bool, path: String },
    /// Rename a file or directory.
    RenamePath { remote: bool, from: String, to: String },
    /// An action that needs what only the shell knows (the dashboard's grid
    /// moves need the terminal's size), handed on as it came.
    Feature(AppAction),
}

/// The terminal view's active tab lies among its tabs when there are any,
/// and can be stepped past.
pub open spec fn terminal_ok(tv: TerminalView) -> bool {
    &&& tv.tabs.len() > 0 ==> tv.active_tab < tv.tabs.len()
    &&& tv.active_tab < usize::MAX
}

/// The host list view after its filter is rebuilt for the hosts of `st`:
/// the visible hosts in sort order, the selection kept in range, and
/// everything else as before.
pub open spec fn refiltered(before: HostListView, after: HostListView, st: AppState) -> bool {
    &&& after.filtered_indices@.to_set() == visible_hosts(st.hosts@, before.search_query@, before.tag_filter).to_set()
    &&& sorted_by_keys(
        after.filtered_indices@,
        sort_keys(before.sort_order, st.hosts@, st.metrics@, st.connection_statuses@),
    )
    &&& after.selected == clamp_selection(before.selected, after.filtered_indices@.len())
    &&& after.search_mode == before.search_mode
    &&& after.search_query == before.search_query
    &&& after.popup == before.popup
    &&& after.sort_order == before.sort_order
    &&& after.tag_filter == before.tag_filter
    &&& after.tag_popup_open == before.tag_popup_open
    &&& after.tag_popup_selected == before.tag_popup_selected
    &&& after.available_tags == before.available_tags
}

/// `v` with its first `i` removed when it holds one, else with `i` added at
/// the end.
pub open spec fn toggled_index(v: Seq<usize>, i: usize) -> Seq<usize>
    decreases v.len(),
{
    if v.len() == 0 {
        seq![i]
    } else if v[0] == i {
        v.drop_first()
    } else {
        seq![v[0]] + toggled_index(v.drop_first(), i)
    }
}

/// With no `i` among the first `k` items, toggling removes the item at `k`
/// when it is `i`, and appends `i` when `k` is the end.
proof fn lemma_toggled_index(v: Seq<usize>, i: usize, k: int)
    requires
        0 <= k <= v.len(),
        forall|j: int| 0 <= j < k ==> v[j] != i,
    ensures
        k < v.len() && v[k] == i ==> toggled_index(v, i) == v.remove(k),
        k == v.len() ==> toggled_index(v, i) == v.push(i),
    decreases k,
{
    if k == 0 {
        if v.len() > 0 && v[0] == i {
            assert(v.drop_first() =~= v.remove(0));
        }
        if v.len() == 0 {
            assert(v.push(i) =~= seq![i]);
        }
    } else {
        let t = v.drop_first();
        assert forall|j: int| 0 <= j < k - 1 implies t[j] != i by {
            assert(t[j] == v[j + 1]);
        }
        lemma_toggled_index(t, i, k - 1);
        assert(v[0] != i);
        if k < v.len() && v[k] == i {
            assert(seq![v[0]] + t.remove(k - 1) =~= v.remove(k));
        }
        if k == v.len() {
            assert(seq![v[0]] + t.push(i) =~= v.push(i));
        }
    }
}

/// The host picker's cursor after a move by `delta` over `n` hosts: down
/// stops at the last host, up at the first; nothing moves without hosts.
pub open spec fn picker_cursor(cursor: usize, delta: i8, n: nat) -> usize {
    if n == 0 {
        cursor
    } else if delta > 0 {
        if cursor + 1 < n {
            (cursor + 1) as usize
        } else {
            (n - 1) as usize
        }
    } else if cursor > 0 {
        (cursor - 1) as usize
    } else {
        0
    }
}

/// The status shown when a split is asked for with too few tabs.
pub open spec fn split_refused_message() -> Seq<char> {
    "Need at least 2 tabs to split. Open another tab with Ctrl+T."@
}

/// Toggles `i` in `v`: removes its first occurrence, or appends it.
fn toggle_index(v: &mut Vec<usize>, i: usize)
    ensures
        final(v)@ == toggled_index(old(v)@, i),
{
    let mut k: usize = 0;
    while k < v.len()
        invariant
            k <= v.len(),
            v@ == old(v)@,
            forall|j: int| 0 <= j < k ==> v@[j] != i,
        decreases v.len() - k,
    {
        if v[k] == i {
            proof {
                lemma_toggled_index(v@, i, k as int);
            }
            v.remove(k);
            return;
        }
        k = k + 1;
    }
    proof {
        lemma_toggled_index(v@, i, k as int);
    }
    v.push(i);
}

/// The split key for `dir`, with the status message it may set.
fn split_key(view: &mut ViewState, dir: SplitDirection)
    requires
        terminal_ok(old(view).terminal_view),
    ensures
        ({
            let tv = old(view).terminal_view;
            let ok = tv.split matches Some(sv) && sv.direction == dir || tv.tabs.len() >= 2;
            &&& final(view).terminal_view.split == toggled_split(tv.split, dir, tv.tabs.len() as nat, tv.active_tab as nat)
            &&& final(view).terminal_view.split_focus == if ok {
                SplitFocus::Primary
            } else {
                tv.split_focus
            }
            &&& final(view).terminal_view.tabs@ == tv.tabs@
            &&& final(view).terminal_view.active_tab == tv.active_tab
            &&& final(view).terminal_view.host_picker == tv.host_picker
            &&& final(view).terminal_view.tab_select_mode == tv.tab_select_mode
            &&& if ok {
                final(view).status_message == old(view).status_message
            } else {
                final(view).status_message matches Some(m) && m@ == split_refused_message()
            }
        }),
        final(view).host_list == old(view).host_list,
        final(view).snippets_view == old(view).snippets_view,
        final(view).file_manager == old(view).file_manager,
        final(view).next_transfer_id == old(view).next_transfer_id,
        terminal_ok(final(view).terminal_view),
{
    if !view.terminal_view.toggle_split(dir) {
        view.status_message = Some(owned("Need at least 2 tabs to split. Open another tab with Ctrl+T."));
    }
}

/// The file panel with keyboard focus.
pub open spec fn active_panel_of(fm: FileManagerView) -> FilePanelView {
    match fm.active_panel {
        FmPanel::Local => fm.local,
        FmPanel::Remote => fm.remote,
    }
}

/// The paths a file operation acts on in panel `p`: the marked paths, else
/// the path under the cursor unless it is `..`.
pub open spec fn operand_paths(p: FilePanelView) -> Set<Seq<char>> {
    if p.marked.contents() != Set::<Seq<char>>::empty() {
        p.marked.contents()
    } else if p.cursor < p.entries.len() && p.entries@[p.cursor as int].name@ != ".."@ {
        set![p.entries@[p.cursor as int].path@]
    } else {
        Set::empty()
    }
}

/// The paths a file operation acts on in the active panel, each once.
fn active_operands(fm: &FileManagerView) -> (res: Vec<String>)
    ensures
        views(res@).to_set() == operand_paths(active_panel_of(*fm)),
        views(res@).no_duplicates(),
{
    let p = match fm.active_panel {
        FmPanel::Local => &fm.local,
        FmPanel::Remote => &fm.remote,
    };
    let res = p.marked_or_cursor_paths();
    proof {
        if p.marked.contents() == Set::<Seq<char>>::empty() {
            if p.cursor < p.entries.len() && p.entries@[p.cursor as int].name@ != ".."@ {
                assert(seq![p.entries@[p.cursor as int].path@].to_set() =~= set![p.entries@[p.cursor as int].path@]) by {
                    let q = seq![p.entries@[p.cursor as int].path@];
                    assert(q.contains(q[0]));
                }
            } else {
                assert(Seq::<Seq<char>>::empty().to_set() =~= Set::<Seq<char>>::empty());
            }
        }
    }
    res
}

/// The marks of panel `p` after the mark key: the path under the cursor is
/// unmarked when marked and marked when not; nothing changes on `..` or
/// without an entry.
pub open spec fn toggled_marks(p: FilePanelView) -> Set<Seq<char>> {
    if p.cursor < p.entries.len() && p.entries@[p.cursor as int].name@ != ".."@ {
        let path = p.entries@[p.cursor as int].path@;
        if p.marked.contents().contains(path) {
            p.marked.contents().remove(path)
        } else {
            p.marked.contents().insert(path)
        }
    } else {
        p.marked.contents()
    }
}

/// Panel `q` is panel `p` with hidden entries shown when they were not
/// (and hidden when they were), refiltered: the cursor follows the path it
/// was on, or goes to the top, and marks on entries no longer shown drop.
pub open spec fn hidden_toggled(p: FilePanelView, q: FilePanelView) -> bool {
    &&& q == FilePanelView { show_hidden: !p.show_hidden, entries: q.entries, cursor: q.cursor, marked: q.marked, ..p }
    &&& q.entries@ == shown_entries(p.raw_entries@, !p.show_hidden)
    &&& q.cursor == focus_index(
        q.entries@,
        if p.cursor < p.entries.len() {
            Some(p.entries@[p.cursor as int].path@)
        } else {
            None
        },
    )
    &&& q.marked.contents() == p.marked.contents().filter(|x: Seq<char>| paths_of(q.entries@).contains(x))
}

/// The hidden-files key on a panel.
fn toggle_hidden(panel: &mut FilePanelView)
    ensures
        hidden_toggled(*old(panel), *final(panel)),
{
    panel.show_hidden = !panel.show_hidden;
    panel.apply_hidden_filter();
}

/// The mark key on a panel.
fn toggle_mark(panel: &mut FilePanelView)
    ensures
        *final(panel) == (FilePanelView { marked: final(panel).marked, ..*old(panel) }),
        final(panel).marked.contents() == toggled_marks(*old(panel)),
{
    let path = match panel.cursor_entry() {
        Some(e) => {
            if str_eq(e.name.as_str(), "..") {
                None
            } else {
                Some(owned(e.path.as_str()))
            }
        },
        None => None,
    };
    match path {
        Some(p) => {
            if panel.marked.contains(p.as_str()) {
                panel.marked.remove(p.as_str());
            } else {
                panel.marked.insert(p);
            }
        },
        None => {},
    }
}

/// The host list's form popup has all its fields.
pub open spec fn host_forms_ok(hl: HostListView) -> bool {
    match hl.popup {
        Some(HostPopup::Add(form)) => form.fields.len() >= 8,
        Some(HostPopup::Edit { form, .. }) => form.fields.len() >= 8,
        _ => true,
    }
}

/// The snippet form popup has all its fields.
pub open spec fn snippet_forms_ok(sv: SnippetsView) -> bool {
    match sv.popup {
        Some(SnippetPopup::Add(form)) => form.fields.len() >= 6,
        Some(SnippetPopup::Edit { form, .. }) => form.fields.len() >= 6,
        _ => true,
    }
}

/// The outside work after the host form is confirmed: the list is saved
/// when it changed, and polling restarts when a host was added.
pub open spec fn confirm_effects(r: Confirmed) -> Seq<Effect> {
    (if r.hosts_changed {
        seq![Effect::SaveHosts]
    } else {
        Seq::empty()
    }) + (if r.host_added {
        seq![Effect::RestartPolling]
    } else {
        Seq::empty()
    })
}

/// The host list view with only its popup changed.
pub open spec fn host_list_but_popup(a: HostListView, b: HostListView) -> bool {
    b == HostListView { popup: b.popup, ..a }
}

/// The views with only the host list changed.
pub open spec fn views_but_host_list(a: ViewState, b: ViewState) -> bool {
    b == ViewState { host_list: b.host_list, ..a }
}

/// The views with only the terminal view changed.
pub open spec fn views_but_terminal(a: ViewState, b: ViewState) -> bool {
    b == ViewState { terminal_view: b.terminal_view, ..a }
}

/// The host picker after a move by `delta` over `n` hosts.
fn step_picker(p: TermHostPicker, delta: i8, n: usize) -> (res: TermHostPicker)
    ensures
        res == (TermHostPicker { cursor: picker_cursor(p.cursor, delta, n as nat), ..p }),
{
    if n == 0 {
        p
    } else if delta > 0 {
        let c = if p.cursor < n - 1 {
            p.cursor + 1
        } else {
            n - 1
        };
        TermHostPicker { cursor: c, ..p }
    } else {
        let c = if p.cursor > 0 {
            p.cursor - 1
        } else {
            0
        };
        TermHostPicker { cursor: c, ..p }
    }
}

/// What an action does: the state's screen, the views and the effects,
/// from the state `st0` and the views `ov0` before to `fs0` and `fv0`
/// after.
pub open spec fn action_outcome(
    st0: AppState,
    fs0: AppState,
    ov0: ViewState,
    fv0: ViewState,
    action: AppAction,
    effects: Vec<Effect>,
) -> bool {
            let ov = ov0;
            let fv = fv0;
            let st = st0;
            let tv = ov.terminal_view;
            let ftv = fv.terminal_view;
            let fi = focused_index(tv.split, tv.split_focus, tv.active_tab);
            match action {
                AppAction::Quit => effects@.len() == 0 && fv == ov && fs0.screen == st.screen,
                AppAction::ConnectAt(i) => effects@ == seq![Effect::OpenTab(i)] && fv == ov
                    && fs0.screen == st.screen,
                AppAction::OpenEditPopup => {
                    &&& effects@.len() == 0
                    &&& fs0.screen == st.screen
                    &&& views_but_host_list(ov, fv)
                    &&& host_list_but_popup(ov.host_list, fv.host_list)
                    &&& if ov.host_list.selected < ov.host_list.filtered_indices.len()
                        && ov.host_list.filtered_indices@[ov.host_list.selected as int] < st.hosts.len() {
                        let idx = ov.host_list.filtered_indices@[ov.host_list.selected as int];
                        fv.host_list.popup matches Some(HostPopup::Edit { host_idx, form }) && host_idx == idx
                            && crate::host::field_values(form.fields@) == crate::host::host_form_values(
                            st.hosts@[idx as int],
                        )
                    } else {
                        fv.host_list == ov.host_list
                    }
                },
                AppAction::ConfirmDelete => {
                    &&& fs0.screen == st.screen
                    &&& fv == ViewState { host_list: fv.host_list, status_message: fv.status_message, ..ov }
                    &&& fv.host_list.popup is None
                    &&& match ov.host_list.popup {
                        Some(HostPopup::DeleteConfirm(idx)) => {
                            &&& effects@ == seq![Effect::SaveHosts]
                            &&& rebuilt(ov.host_list, fv.host_list, fs0)
                            &&& if idx < st.hosts.len() {
                                &&& fs0.hosts@ == st.hosts@.remove(idx as int)
                                &&& fv.status_message matches Some(m) && m@ == "Deleted '"@ + st.hosts@[idx as int].name@
                                    + "'."@
                            } else {
                                fs0.hosts@ == st.hosts@ && fv.status_message == ov.status_message
                            }
                        },
                        _ => effects@.len() == 0 && fs0.hosts@ == st.hosts@ && fv.status_message == ov.status_message,
                    }
                },
                AppAction::CancelKeySetup => {
                    &&& effects@.len() == 0
                    &&& fs0.screen == st.screen
                    &&& fv == ViewState { host_list: HostListView { popup: None, ..ov.host_list }, ..ov }
                },
                AppAction::OpenDetailView => effects@.len() == 0 && fv == ov && fs0.screen == Screen::DetailView,
                AppAction::CloseDetailView => effects@.len() == 0 && fv == ov && fs0.screen == Screen::Dashboard,
                AppAction::ConnectFromDetailView => {
                    &&& fv == ov
                    &&& fs0.screen == st.screen
                    &&& effects@ == if ov.host_list.selected < ov.host_list.filtered_indices.len() {
                        seq![Effect::OpenTab(ov.host_list.filtered_indices@[ov.host_list.selected as int])]
                    } else {
                        Seq::<Effect>::empty()
                    }
                },
                AppAction::OpenSnippetDeleteConfirm => {
                    &&& effects@.len() == 0
                    &&& fs0.screen == st.screen
                    &&& fv == ViewState { snippets_view: fv.snippets_view, ..ov }
                    &&& fv.snippets_view == if ov.snippets_view.selected < ov.snippets_view.filtered_indices.len() {
                        SnippetsView {
                            popup: Some(
                                SnippetPopup::DeleteConfirm(
                                    ov.snippets_view.filtered_indices@[ov.snippets_view.selected as int],
                                ),
                            ),
                            ..ov.snippets_view
                        }
                    } else {
                        ov.snippets_view
                    }
                },
                AppAction::DismissSnippetResult => {
                    &&& effects@.len() == 0
                    &&& fs0.screen == st.screen
                    &&& fv == ViewState { snippets_view: fv.snippets_view, ..ov }
                    &&& fv.snippets_view == if ov.snippets_view.popup matches Some(SnippetPopup::Results { .. }) {
                        SnippetsView { popup: None, ..ov.snippets_view }
                    } else {
                        ov.snippets_view
                    }
                },
                AppAction::ConfirmSnippetDelete => {
                    &&& fs0.screen == st.screen
                    &&& fv == ViewState { snippets_view: fv.snippets_view, status_message: fv.status_message, ..ov }
                    &&& fv.snippets_view.popup is None
                    &&& match ov.snippets_view.popup {
                        Some(SnippetPopup::DeleteConfirm(idx)) => {
                            &&& effects@ == seq![Effect::SaveSnippets]
                            &&& fv.snippets_view.filtered_indices@ == matching_snippets(
                                fs0.snippets@,
                                ov.snippets_view.search_query@,
                            )
                            &&& fv.snippets_view.selected == clamp_selection(
                                ov.snippets_view.selected,
                                fv.snippets_view.filtered_indices@.len(),
                            )
                            &&& if idx < st.snippets.len() {
                                &&& fs0.snippets@ == st.snippets@.remove(idx as int)
                                &&& fv.status_message matches Some(m) && m@ == "Deleted snippet '"@
                                    + st.snippets@[idx as int].name@ + "'."@
                            } else {
                                fs0.snippets@ == st.snippets@ && fv.status_message == ov.status_message
                            }
                        },
                        _ => effects@.len() == 0 && fs0.snippets@ == st.snippets@ && fv.status_message
                            == ov.status_message,
                    }
                },
                AppAction::SnippetSearchChanged => {
                    &&& effects@.len() == 0
                    &&& fs0.screen == st.screen
                    &&& fv == ViewState { snippets_view: fv.snippets_view, ..ov }
                    &&& fv.snippets_view == SnippetsView {
                        filtered_indices: fv.snippets_view.filtered_indices,
                        selected: fv.snippets_view.selected,
                        ..ov.snippets_view
                    }
                    &&& fv.snippets_view.filtered_indices@ == matching_snippets(st.snippets@, ov.snippets_view.search_query@)
                    &&& fv.snippets_view.selected == clamp_selection(
                        ov.snippets_view.selected,
                        fv.snippets_view.filtered_indices@.len(),
                    )
                },
                AppAction::OpenSnippetAdd => {
                    &&& effects@.len() == 0
                    &&& fs0.screen == st.screen
                    &&& fv == ViewState { snippets_view: fv.snippets_view, ..ov }
                    &&& fv.snippets_view == SnippetsView { popup: fv.snippets_view.popup, ..ov.snippets_view }
                    &&& fv.snippets_view.popup matches Some(SnippetPopup::Add(form)) && form.focused_field == 0
                        && form.fields.len() == 6 && forall|i: int|
                        0 <= i < 6 ==> (#[trigger] form.fields@[i]).value@.len() == 0
                },
                AppAction::OpenSnippetEdit => {
                    &&& effects@.len() == 0
                    &&& fs0.screen == st.screen
                    &&& fv == ViewState { snippets_view: fv.snippets_view, ..ov }
                    &&& fv.snippets_view == SnippetsView { popup: fv.snippets_view.popup, ..ov.snippets_view }
                    &&& if ov.snippets_view.selected < ov.snippets_view.filtered_indices.len()
                        && ov.snippets_view.filtered_indices@[ov.snippets_view.selected as int] < st.snippets.len() {
                        let idx = ov.snippets_view.filtered_indices@[ov.snippets_view.selected as int];
                        fv.snippets_view.popup matches Some(SnippetPopup::Edit { snippet_idx, form }) && snippet_idx
                            == idx && values_of(form.fields@) == snippet_form_values(st.snippets@[idx as int])
                    } else {
                        fv.snippets_view.popup == ov.snippets_view.popup
                    }
                },
                AppAction::FmSwitchPanel => {
                    &&& effects@ == seq![Effect::RequestPreview]
                    &&& fs0.screen == st.screen
                    &&& fv == ViewState { file_manager: fv.file_manager, ..ov }
                    &&& fv.file_manager == FileManagerView {
                        active_panel: if ov.file_manager.active_panel == FmPanel::Local {
                            FmPanel::Remote
                        } else {
                            FmPanel::Local
                        },
                        ..ov.file_manager
                    }
                },
                AppAction::FmNavUp | AppAction::FmNavDown => {
                    let before = active_panel_of(ov.file_manager);
                    let after = active_panel_of(fv.file_manager);
                    &&& effects@ == seq![Effect::RequestPreview]
                    &&& fs0.screen == st.screen
                    &&& fv == ViewState { file_manager: fv.file_manager, ..ov }
                    &&& fv.file_manager.active_panel == ov.file_manager.active_panel
                    &&& ov.file_manager.active_panel == FmPanel::Local ==> fv.file_manager.remote == ov.file_manager.remote
                    &&& ov.file_manager.active_panel == FmPanel::Remote ==> fv.file_manager.local == ov.file_manager.local
                    &&& after == (FilePanelView { cursor: after.cursor, ..before })
                    &&& after.cursor == if action is FmNavUp {
                        if before.cursor == 0 {
                            0
                        } else {
                            (before.cursor - 1) as usize
                        }
                    } else if before.entries.len() == 0 || before.cursor == usize::MAX {
                        before.cursor
                    } else if before.cursor + 1 < before.entries.len() {
                        (before.cursor + 1) as usize
                    } else {
                        (before.entries.len() - 1) as usize
                    }
                },
                AppAction::FmClosePopup => {
                    &&& effects@.len() == 0
                    &&& fs0.screen == st.screen
                    &&& fv == ViewState { file_manager: FileManagerView { popup: None, ..ov.file_manager }, ..ov }
                },
                AppAction::FmOpenHostPicker => {
                    &&& effects@.len() == 0
                    &&& fs0.screen == st.screen
                    &&& fv == ViewState {
                        file_manager: FileManagerView {
                            popup: Some(FileManagerPopup::HostPicker { cursor: 0 }),
                            ..ov.file_manager
                        },
                        ..ov
                    }
                },
                AppAction::FmHostPickerNav(d) => {
                    &&& effects@.len() == 0
                    &&& fs0.screen == st.screen
                    &&& fv == ViewState {
                        file_manager: FileManagerView {
                            popup: match ov.file_manager.popup {
                                Some(FileManagerPopup::HostPicker { cursor }) => Some(
                                    FileManagerPopup::HostPicker {
                                        cursor: picker_cursor(cursor, d, st.hosts.len() as nat),
                                    },
                                ),
                                other => other,
                            },
                            ..ov.file_manager
                        },
                        ..ov
                    }
                },
                AppAction::FmCopy => {
                    let ops = operand_paths(active_panel_of(ov.file_manager));
                    &&& effects@.len() == 0
                    &&& fs0.screen == st.screen
                    &&& fv == ViewState {
                        file_manager: FileManagerView { clipboard: fv.file_manager.clipboard, ..ov.file_manager },
                        status_message: fv.status_message,
                        ..ov
                    }
                    &&& if ops == Set::<Seq<char>>::empty() {
                        &&& fv.file_manager.clipboard == ov.file_manager.clipboard
                        &&& fv.status_message matches Some(m) && m@ == "Nothing to copy."@
                    } else {
                        &&& fv.file_manager.clipboard matches Some(c) && c.source_panel
                            == ov.file_manager.active_panel && views(c.paths@).to_set() == ops
                            && views(c.paths@).no_duplicates()
                        &&& fv.status_message matches Some(m) && m@
                            == "Copied to clipboard. Switch panel and press p to paste."@
                    }
                },
                AppAction::FmOpenDeleteConfirm => {
                    let ops = operand_paths(active_panel_of(ov.file_manager));
                    &&& effects@.len() == 0
                    &&& fs0.screen == st.screen
                    &&& fv == ViewState {
                        file_manager: FileManagerView { popup: fv.file_manager.popup, ..ov.file_manager },
                        status_message: fv.status_message,
                        ..ov
                    }
                    &&& if ops == Set::<Seq<char>>::empty() {
                        &&& fv.file_manager.popup == ov.file_manager.popup
                        &&& fv.status_message matches Some(m) && m@ == "Nothing to delete."@
                    } else {
                        &&& fv.file_manager.popup matches Some(FileManagerPopup::DeleteConfirm { paths }) && views(
                            paths@,
                        ).to_set() == ops && views(paths@).no_duplicates()
                        &&& fv.status_message == ov.status_message
                    }
                },
                AppAction::FmOpenMkDir => {
                    &&& effects@.len() == 0
                    &&& fs0.screen == st.screen
                    &&& fv == ViewState { file_manager: FileManagerView { popup: fv.file_manager.popup, ..ov.file_manager }, ..ov }
                    &&& fv.file_manager.popup matches Some(FileManagerPopup::MkDir(f)) && f.value@.len() == 0 && f.cursor == 0
                },
                AppAction::FmOpenRename => {
                    let p = active_panel_of(ov.file_manager);
                    &&& effects@.len() == 0
                    &&& fs0.screen == st.screen
                    &&& fv == ViewState { file_manager: FileManagerView { popup: fv.file_manager.popup, ..ov.file_manager }, ..ov }
                    &&& if p.cursor < p.entries.len() && p.entries@[p.cursor as int].name@ != ".."@ {
                        fv.file_manager.popup matches Some(FileManagerPopup::Rename { original_name, field })
                            && original_name@ == p.entries@[p.cursor as int].name@ && field.value@ == original_name@
                            && field.cursor == crate::form::byte_offset(original_name@, original_name@.len() as int)
                    } else {
                        fv.file_manager.popup == ov.file_manager.popup
                    }
                },
                AppAction::FmToggleHidden => {
                    &&& effects@.len() == 0
                    &&& fs0.screen == st.screen
                    &&& fv == ViewState { file_manager: fv.file_manager, ..ov }
                    &&& fv.file_manager == FileManagerView { local: fv.file_manager.local, remote: fv.file_manager.remote, ..ov.file_manager }
                    &&& ov.file_manager.active_panel == FmPanel::Local ==> fv.file_manager.remote == ov.file_manager.remote
                    &&& ov.file_manager.active_panel == FmPanel::Remote ==> fv.file_manager.local == ov.file_manager.local
                    &&& hidden_toggled(active_panel_of(ov.file_manager), active_panel_of(fv.file_manager))
                },
                AppAction::FmMarkFile => {
                    let p = active_panel_of(ov.file_manager);
                    let q = active_panel_of(fv.file_manager);
                    &&& effects@.len() == 0
                    &&& fs0.screen == st.screen
                    &&& fv == ViewState { file_manager: fv.file_manager, ..ov }
                    &&& fv.file_manager == FileManagerView { local: fv.file_manager.local, remote: fv.file_manager.remote, ..ov.file_manager }
                    &&& ov.file_manager.active_panel == FmPanel::Local ==> fv.file_manager.remote == ov.file_manager.remote
                    &&& ov.file_manager.active_panel == FmPanel::Remote ==> fv.file_manager.local == ov.file_manager.local
                    &&& q == FilePanelView { marked: q.marked, ..p }
                    &&& q.marked.contents() == toggled_marks(p)
                },
                AppAction::ConfirmForm => exists|r: Confirmed|
                    {
                        &&& #[trigger] host_form_confirmed(st, fs0, ov.host_list, fv.host_list, r)
                        &&& fv == ViewState { host_list: fv.host_list, status_message: fv.status_message, ..ov }
                        &&& fv.status_message == if r.status is Some {
                            r.status
                        } else {
                            ov.status_message
                        }
                        &&& effects@ == confirm_effects(r)
                    },
                AppAction::ConfirmSnippetForm => exists|r: SnippetConfirmed|
                    {
                        &&& #[trigger] snippet_form_confirmed(st.snippets@, fs0.snippets@, ov.snippets_view, fv.snippets_view, r)
                        &&& fs0.screen == st.screen
                        &&& fv == ViewState { snippets_view: fv.snippets_view, status_message: fv.status_message, ..ov }
                        &&& fv.status_message == if r.status is Some {
                            r.status
                        } else {
                            ov.status_message
                        }
                        &&& effects@ == if r.snippets_changed {
                            seq![Effect::SaveSnippets]
                        } else {
                            Seq::<Effect>::empty()
                        }
                    },
                AppAction::StartKeySetup => {
                    &&& effects@.len() == 0
                    &&& fs0.screen == st.screen
                    &&& fv == ViewState { host_list: fv.host_list, status_message: fv.status_message, ..ov }
                    &&& fv.host_list == HostListView { popup: fv.host_list.popup, ..ov.host_list }
                    &&& match selected_host(ov.host_list, st.hosts.len() as nat) {
                        Some(idx) => {
                            let h = st.hosts@[idx as int];
                            if h.password is Some && h.identity_file is None {
                                fv.host_list.popup == Some(HostPopup::KeySetupConfirm(idx)) && fv.status_message
                                    == ov.status_message
                            } else if h.identity_file is Some {
                                &&& fv.host_list.popup == ov.host_list.popup
                                &&& fv.status_message matches Some(m) && m@ == "'"@ + h.name@
                                    + "' already uses key authentication."@
                            } else {
                                &&& fv.host_list.popup == ov.host_list.popup
                                &&& fv.status_message matches Some(m) && m@
                                    == "No password set for this host. Add a password first to enable key setup."@
                            }
                        },
                        None => fv == ov,
                    }
                },
                AppAction::OpenQuickExecute => {
                    &&& effects@.len() == 0
                    &&& fs0.screen == st.screen
                    &&& fv == ViewState { snippets_view: fv.snippets_view, status_message: fv.status_message, ..ov }
                    &&& fv.snippets_view == SnippetsView { popup: fv.snippets_view.popup, ..ov.snippets_view }
                    &&& match selected_host(ov.host_list, st.hosts.len() as nat) {
                        Some(idx) => {
                            &&& fv.status_message == ov.status_message
                            &&& fv.snippets_view.popup matches Some(
                                SnippetPopup::QuickExecuteInput { host_name, command_field },
                            ) && host_name@ == st.hosts@[idx as int].name@ && command_field.value@.len() == 0
                                && command_field.cursor == 0
                        },
                        None => {
                            &&& fv.snippets_view.popup == ov.snippets_view.popup
                            &&& fv.status_message matches Some(m) && m@ == "No host selected."@
                        },
                    }
                },
                AppAction::ShowQuickView(kind) => {
                    &&& fs0.screen == st.screen
                    &&& fv == ViewState { snippets_view: fv.snippets_view, ..ov }
                    &&& fv.snippets_view == SnippetsView { popup: fv.snippets_view.popup, ..ov.snippets_view }
                    &&& match selected_host(ov.host_list, st.hosts.len() as nat) {
                        Some(idx) => {
                            let name = "Quick View: "@ + quick_view_text(kind).1;
                            &&& single_result(fv.snippets_view.popup, st.hosts@[idx as int].name@, name, Ok(Seq::empty()), true)
                            &&& effects@.len() == 1
                            &&& effects@[0] matches Effect::RunCommand { host_idx, command, snippet_name } && host_idx == idx
                                && command@ == quick_view_text(kind).0 && snippet_name@ == name
                        },
                        None => {
                            &&& effects@.len() == 0
                            &&& single_result(
                                fv.snippets_view.popup,
                                if ov.host_list.selected < ov.host_list.filtered_indices.len() {
                                    "(unknown)"@
                                } else {
                                    "(no selection)"@
                                },
                                "Quick View: "@ + kind_name(kind),
                                Err("No host selected."@),
                                false,
                            )
                        },
                    }
                },
                AppAction::ExecuteSnippet { snippet_idx, host_names } => {
                    let names = resolved_hosts(st, ov.host_list, snippet_idx, views(host_names@));
                    &&& fs0.screen == st.screen
                    &&& if names.len() == 0 {
                        &&& effects@.len() == 0
                        &&& fv == ViewState { snippets_view: fv.snippets_view, ..ov }
                        &&& fv.snippets_view == SnippetsView { popup: fv.snippets_view.popup, ..ov.snippets_view }
                        &&& fv.snippets_view.popup matches Some(
                            SnippetPopup::BroadcastPicker { snippet_idx: i, selected_host_indices: sel, cursor },
                        ) && i == snippet_idx && sel@.len() == 0 && cursor == 0
                    } else {
                        snippet_executed(st, snippet_idx, names, ov, fv, effects@)
                    }
                },
                AppAction::ConfirmBroadcast => {
                    &&& fs0.screen == st.screen
                    &&& match ov.snippets_view.popup {
                        Some(SnippetPopup::BroadcastPicker { snippet_idx, selected_host_indices, cursor }) => {
                            let taken = ViewState {
                                snippets_view: SnippetsView { popup: None, ..ov.snippets_view },
                                ..ov
                            };
                            if selected_host_indices.len() == 0 {
                                &&& effects@.len() == 0
                                &&& fv == ViewState { status_message: fv.status_message, ..taken }
                                &&& fv.status_message matches Some(m) && m@ == "No hosts selected."@
                            } else {
                                snippet_executed(
                                    st,
                                    snippet_idx,
                                    selected_host_indices@.filter(|i: usize| i < st.hosts.len()).map_values(
                                        |i: usize| st.hosts@[i as int].name@,
                                    ),
                                    taken,
                                    fv,
                                    effects@,
                                )
                            }
                        },
                        _ => effects@.len() == 0 && fv == ov,
                    }
                },
                AppAction::ConfirmParamInput => {
                    &&& fs0.screen == st.screen
                    &&& fv == ViewState { snippets_view: fv.snippets_view, ..ov }
                    &&& fv.snippets_view == SnippetsView { popup: fv.snippets_view.popup, ..ov.snippets_view }
                    &&& match ov.snippets_view.popup {
                        Some(SnippetPopup::ParamInput { snippet_idx, host_names, param_fields, .. }) => {
                            if snippet_idx < st.snippets.len() {
                                let sn = st.snippets@[snippet_idx as int];
                                let values = param_fields@.map_values(|f: FormField| trim(f.value@));
                                let command = match sn.params {
                                    None => sn.command@,
                                    Some(ns) => substituted(sn.command@, views(ns@), values),
                                };
                                &&& fv.snippets_view.popup matches Some(pp) && run_pending(pp, views(host_names@), sn.name@)
                                &&& effects@.len() == 1
                                &&& effects@[0] matches Effect::RunSnippet { command: c, host_names: hs, snippet_name }
                                    && c@ == command && views(hs@) == views(host_names@) && snippet_name@ == sn.name@
                            } else {
                                effects@.len() == 0 && fv.snippets_view.popup is None
                            }
                        },
                        _ => effects@.len() == 0 && fv == ov,
                    }
                },
                AppAction::QuickExecute { host_name, command } => {
                    &&& fs0.screen == st.screen
                    &&& fv == ViewState { snippets_view: fv.snippets_view, ..ov }
                    &&& fv.snippets_view == SnippetsView { popup: fv.snippets_view.popup, ..ov.snippets_view }
                    &&& match host_named(st.hosts@, host_name@) {
                        Some(i) => {
                            &&& single_result(fv.snippets_view.popup, host_name@, "(quick-execute)"@, Ok(Seq::empty()), true)
                            &&& effects@.len() == 1
                            &&& effects@[0] matches Effect::RunCommand { host_idx, command: c, snippet_name } && host_idx == i
                                && c@ == command@ && snippet_name@ == "(quick-execute)"@
                        },
                        None => {
                            &&& effects@.len() == 0
                            &&& single_result(
                                fv.snippets_view.popup,
                                host_name@,
                                "(quick-execute)"@,
                                Err("Host '"@ + host_name@ + "' not found."@),
                                false,
                            )
                        },
                    }
                },
                AppAction::ConfirmKeySetup(idx) => {
                    &&& fs0.screen == st.screen
                    &&& fv == ViewState { host_list: fv.host_list, ..ov }
                    &&& if idx < st.hosts.len() {
                        &&& fv.host_list == HostListView { popup: fv.host_list.popup, ..ov.host_list }
                        &&& fv.host_list.popup matches Some(
                            HostPopup::KeySetupProgress { host_idx, host_name, current_step },
                        ) && host_idx == idx && host_name@ == st.hosts@[idx as int].name@ && current_step is None
                        &&& effects@ == seq![Effect::RunKeySetup(idx)]
                    } else {
                        fv == ov && effects@.len() == 0
                    }
                },
                AppAction::FmEnterDir => {
                    let p = active_panel_of(ov.file_manager);
                    let remote = ov.file_manager.active_panel == FmPanel::Remote;
                    &&& fs0.screen == st.screen
                    &&& if p.cursor < p.entries.len() && p.entries@[p.cursor as int].is_dir {
                        &&& fv == ViewState { file_manager: fv.file_manager, ..ov }
                        &&& fv.file_manager == with_pending_focus(ov.file_manager, active_panel_of(fv.file_manager).pending_focus_path)
                        &&& active_panel_of(fv.file_manager).pending_focus_path matches Some(c) && c@ == p.cwd@
                        &&& effects@.len() == 1
                        &&& effects@[0] matches Effect::ListDir { remote: r, path } && r == remote && path@
                            == p.entries@[p.cursor as int].path@
                    } else {
                        fv == ov && effects@.len() == 0
                    }
                },
                AppAction::FmParentDir => {
                    let p = active_panel_of(ov.file_manager);
                    let remote = ov.file_manager.active_panel == FmPanel::Remote;
                    &&& fs0.screen == st.screen
                    &&& p.cwd@ == "/"@ ==> fv == ov && effects@.len() == 0
                    &&& crate::file_manager::simple_path(p.cwd@) ==> effects@.len() == 1
                    &&& effects@.len() == 0 ==> fv == ov
                    &&& effects@.len() > 0 ==> {
                        &&& fv == ViewState { file_manager: fv.file_manager, ..ov }
                        &&& fv.file_manager == with_pending_focus(ov.file_manager, active_panel_of(fv.file_manager).pending_focus_path)
                        &&& active_panel_of(fv.file_manager).pending_focus_path matches Some(c) && c@ == p.cwd@
                        &&& effects@.len() == 1
                        &&& effects@[0] matches Effect::ListDir { remote: r, path } && r == remote && path@.len() > 0
                            && (crate::file_manager::simple_path(p.cwd@) ==> path@ == if crate::file_manager::simple_parent(
                            p.cwd@,
                        ).len() == 0 {
                            "/"@
                        } else {
                            crate::file_manager::simple_parent(p.cwd@)
                        })
                    }
                },
                AppAction::FmConfirmDelete => {
                    let remote = ov.file_manager.active_panel == FmPanel::Remote;
                    &&& fs0.screen == st.screen
                    &&& fv == ViewState { file_manager: fv.file_manager, ..ov }
                    &&& match ov.file_manager.popup {
                        Some(FileManagerPopup::DeleteConfirm { paths }) => {
                            &&& fv.file_manager == FileManagerView {
                                popup: None,
                                pending_ops: if remote {
                                    paths.len()
                                } else {
                                    ov.file_manager.pending_ops
                                },
                                ..ov.file_manager
                            }
                            &&& effects@.len() == 1
                            &&& effects@[0] matches Effect::DeletePaths { remote: r, paths: ps } && r == remote && views(ps@)
                                == views(paths@)
                        },
                        _ => effects@.len() == 0 && fv.file_manager == FileManagerView { popup: None, ..ov.file_manager },
                    }
                },
                AppAction::FmConfirmMkDir(name) => {
                    let p = active_panel_of(ov.file_manager);
                    &&& fs0.screen == st.screen
                    &&& fv == ViewState { file_manager: FileManagerView { popup: None, ..ov.file_manager }, ..ov }
                    &&& effects@.len() == 1
                    &&& effects@[0] matches Effect::MakeDir { remote, path } && remote == (ov.file_manager.active_panel
                        == FmPanel::Remote) && path@ == crate::file_manager::child_path(p.cwd@, name@)
                },
                AppAction::FmConfirmRename(name) => {
                    let p = active_panel_of(ov.file_manager);
                    &&& fs0.screen == st.screen
                    &&& fv == ViewState { file_manager: FileManagerView { popup: None, ..ov.file_manager }, ..ov }
                    &&& match ov.file_manager.popup {
                        Some(FileManagerPopup::Rename { original_name, .. }) => {
                            &&& effects@.len() == 1
                            &&& effects@[0] matches Effect::RenamePath { remote, from, to } && remote == (
                            ov.file_manager.active_panel == FmPanel::Remote) && from@ == crate::file_manager::child_path(
                                p.cwd@,
                                original_name@,
                            ) && to@ == crate::file_manager::child_path(p.cwd@, name@)
                        },
                        _ => effects@.len() == 0,
                    }
                },
                AppAction::FmPaste => {
                    let fm = ov.file_manager;
                    let dst = fm.active_panel;
                    &&& fs0.screen == st.screen
                    &&& match paste_error(fm.clipboard, dst) {
                        Some(e) => {
                            &&& effects@.len() == 0
                            &&& fv == ViewState { status_message: fv.status_message, ..ov }
                            &&& fv.status_message matches Some(m) && m@ == e
                        },
                        None => {
                            let c = fm.clipboard->0;
                            let n = c.paths.len();
                            let first = ov.next_transfer_id;
                            &&& fv == ViewState { file_manager: fv.file_manager, next_transfer_id: (first + n) as u64, ..ov }
                            &&& fv.file_manager == FileManagerView {
                                popup: fv.file_manager.popup,
                                active_transfer: Some(first),
                                pending_ops: n,
                                ..fm
                            }
                            &&& fv.file_manager.popup matches Some(
                                FileManagerPopup::TransferProgress { transfer_id, filename, done, total },
                            ) && transfer_id == first && done == 0 && total == 0
                            &&& effects@.len() == 1
                            &&& effects@[0] matches Effect::Transfers(ts) && transfers_planned(
                                c,
                                active_panel_of(fm).cwd@,
                                first,
                                ts@,
                                fv.file_manager.popup->0->TransferProgress_filename@,
                            )
                        },
                    }
                },
                AppAction::FmHostPickerSelect(idx) => {
                    &&& fs0.screen == st.screen
                    &&& if idx < st.hosts.len() {
                        &&& effects@ == seq![Effect::ConnectSftp(idx)]
                        &&& fv == ViewState { file_manager: fv.file_manager, status_message: fv.status_message, ..ov }
                        &&& fv.file_manager == FileManagerView {
                            connected_host: None,
                            remote: fv.file_manager.remote,
                            sftp_connecting: true,
                            ..ov.file_manager
                        }
                        &&& empty_panel(fv.file_manager.remote)
                        &&& fv.status_message matches Some(m) && m@ == "Connecting to '"@ + st.hosts@[idx as int].name@
                            + "'\u{2026} (30s timeout)"@
                    } else {
                        &&& effects@.len() == 0
                        &&& fv == ViewState { status_message: fv.status_message, ..ov }
                        &&& fv.status_message matches Some(m) && m@ == "Host not found."@
                    }
                },
                AppAction::ReloadHosts => {
                    &&& effects@ == seq![Effect::ReloadHosts]
                    &&& fs0.screen == st.screen
                    &&& fv.status_message matches Some(m) && m@ == "Reloading hosts\u{2026}"@
                    &&& fv == ViewState { status_message: fv.status_message, ..ov }
                },
                AppAction::RefreshMetrics => {
                    &&& effects@ == seq![Effect::RefreshMetrics]
                    &&& fs0.screen == st.screen
                    &&& fv.status_message matches Some(m) && m@ == "Refreshing metrics\u{2026}"@
                    &&& fv == ViewState { status_message: fv.status_message, ..ov }
                },
                AppAction::SearchQueryChanged => {
                    &&& effects@.len() == 0
                    &&& fs0.screen == st.screen
                    &&& views_but_host_list(ov, fv)
                    &&& refiltered(ov.host_list, fv.host_list, st)
                },
                AppAction::CycleSortOrder => {
                    &&& effects@.len() == 0
                    &&& fs0.screen == st.screen
                    &&& views_but_host_list(ov, fv)
                    &&& refiltered(
                        HostListView { sort_order: ov.host_list.sort_order.spec_next(), ..ov.host_list },
                        fv.host_list,
                        st,
                    )
                },
                AppAction::OpenTagFilter => {
                    &&& effects@.len() == 0
                    &&& fs0.screen == st.screen
                    &&& views_but_host_list(ov, fv)
                    &&& fv.host_list == HostListView {
                        tag_popup_open: !ov.host_list.tag_popup_open,
                        tag_popup_selected: 0,
                        ..ov.host_list
                    }
                },
                AppAction::TagFilterSelected(t) => {
                    &&& effects@.len() == 0
                    &&& fs0.screen == st.screen
                    &&& views_but_host_list(ov, fv)
                    &&& refiltered(
                        HostListView { tag_filter: t, tag_popup_open: false, ..ov.host_list },
                        fv.host_list,
                        st,
                    )
                },
                AppAction::OpenBroadcastPicker => {
                    &&& effects@.len() == 0
                    &&& fs0.screen == st.screen
                    &&& fv == ViewState { snippets_view: fv.snippets_view, ..ov }
                    &&& fv.snippets_view == SnippetsView { popup: fv.snippets_view.popup, ..ov.snippets_view }
                    &&& if ov.snippets_view.selected < ov.snippets_view.filtered_indices.len() {
                        fv.snippets_view.popup matches Some(
                            SnippetPopup::BroadcastPicker { snippet_idx, selected_host_indices, cursor },
                        ) && snippet_idx == ov.snippets_view.filtered_indices@[ov.snippets_view.selected as int]
                            && selected_host_indices@.len() == 0 && cursor == 0
                    } else {
                        fv.snippets_view.popup == ov.snippets_view.popup
                    }
                },
                AppAction::ToggleBroadcastHost(i) => {
                    &&& effects@.len() == 0
                    &&& fs0.screen == st.screen
                    &&& fv == ViewState { snippets_view: fv.snippets_view, ..ov }
                    &&& fv.snippets_view == SnippetsView { popup: fv.snippets_view.popup, ..ov.snippets_view }
                    &&& match ov.snippets_view.popup {
                        Some(SnippetPopup::BroadcastPicker { snippet_idx, selected_host_indices, cursor }) => {
                            fv.snippets_view.popup matches Some(
                                SnippetPopup::BroadcastPicker {
                                    snippet_idx: s2,
                                    selected_host_indices: chosen,
                                    cursor: c2,
                                },
                            ) && s2 == snippet_idx && c2 == cursor && chosen@ == toggled_index(selected_host_indices@, i)
                        },
                        _ => fv.snippets_view.popup == ov.snippets_view.popup,
                    }
                },
                AppAction::TermInput(bytes) => {
                    &&& fs0.screen == st.screen
                    &&& views_but_terminal(ov, fv)
                    &&& ftv == TerminalView { tabs: ftv.tabs, ..tv }
                    &&& if fi < tv.tabs.len() {
                        &&& effects@ == seq![Effect::Write(tv.tabs@[fi as int].session_id, bytes)]
                        &&& ftv.tabs@ == tv.tabs@.update(fi as int, TermTab { scroll_offset: 0, ..tv.tabs@[fi as int] })
                    } else {
                        effects@.len() == 0 && ftv.tabs@ == tv.tabs@
                    }
                },
                AppAction::TermCloseTab => {
                    &&& views_but_terminal(ov, fv)
                    &&& if tv.tabs.len() == 0 {
                        effects@.len() == 0 && ftv == tv && fs0.screen == st.screen
                    } else {
                        &&& effects@ == seq![Effect::CloseSession(tv.tabs@[tv.active_tab as int].session_id)]
                        &&& ftv.tabs@ == tv.tabs@.remove(tv.active_tab as int)
                        &&& ftv.split is None
                        &&& ftv.split_focus == SplitFocus::Primary
                        &&& ftv.active_tab == active_after_removal(tv.active_tab, ftv.tabs.len() as nat)
                        &&& ftv.host_picker == tv.host_picker
                        &&& ftv.tab_select_mode == tv.tab_select_mode
                        &&& fs0.screen == if ftv.tabs.len() == 0 {
                            Screen::Dashboard
                        } else {
                            st.screen
                        }
                    }
                },
                AppAction::TermSwitchTab(n) => {
                    &&& effects@.len() == 0
                    &&& fs0.screen == st.screen
                    &&& views_but_terminal(ov, fv)
                    &&& if n < tv.tabs.len() {
                        ftv == TerminalView { active_tab: n, tabs: ftv.tabs, ..tv } && ftv.tabs@ == tv.tabs@.update(
                            n as int,
                            TermTab { has_activity: false, ..tv.tabs@[n as int] },
                        )
                    } else {
                        ftv == TerminalView { tabs: ftv.tabs, ..tv } && ftv.tabs@ == tv.tabs@
                    }
                },
                AppAction::TermSplitVertical | AppAction::TermSplitHorizontal => {
                    let dir = if action is TermSplitVertical {
                        SplitDirection::Vertical
                    } else {
                        SplitDirection::Horizontal
                    };
                    let ok = tv.split matches Some(sv) && sv.direction == dir || tv.tabs.len() >= 2;
                    &&& effects@.len() == 0
                    &&& fs0.screen == st.screen
                    &&& ftv == TerminalView {
                        split: toggled_split(tv.split, dir, tv.tabs.len() as nat, tv.active_tab as nat),
                        split_focus: if ok {
                            SplitFocus::Primary
                        } else {
                            tv.split_focus
                        },
                        tabs: ftv.tabs,
                        ..tv
                    }
                    &&& ftv.tabs@ == tv.tabs@
                    &&& fv == ViewState { terminal_view: fv.terminal_view, status_message: fv.status_message, ..ov }
                    &&& if ok {
                        fv.status_message == ov.status_message
                    } else {
                        fv.status_message matches Some(m) && m@ == split_refused_message()
                    }
                },
                AppAction::TermFocusNextPane => {
                    &&& effects@.len() == 0
                    &&& fs0.screen == st.screen
                    &&& views_but_terminal(ov, fv)
                    &&& ftv == TerminalView {
                        split_focus: if tv.split is Some {
                            if tv.split_focus == SplitFocus::Primary {
                                SplitFocus::Secondary
                            } else {
                                SplitFocus::Primary
                            }
                        } else {
                            tv.split_focus
                        },
                        tabs: ftv.tabs,
                        ..tv
                    }
                    &&& ftv.tabs@ == tv.tabs@
                },
                AppAction::TermOpenHostPicker => {
                    &&& effects@.len() == 0
                    &&& fs0.screen == st.screen
                    &&& views_but_terminal(ov, fv)
                    &&& ftv == TerminalView {
                        host_picker: Some(TermHostPicker { cursor: 0, switch_pane_mode: false }),
                        ..tv
                    }
                },
                AppAction::TermSwitchPaneHost => {
                    &&& effects@.len() == 0
                    &&& fs0.screen == st.screen
                    &&& views_but_terminal(ov, fv)
                    &&& ftv == TerminalView {
                        host_picker: Some(TermHostPicker { cursor: 0, switch_pane_mode: true }),
                        ..tv
                    }
                },
                AppAction::TermHostPickerNav(d) => {
                    &&& effects@.len() == 0
                    &&& fs0.screen == st.screen
                    &&& views_but_terminal(ov, fv)
                    &&& ftv == TerminalView {
                        host_picker: match tv.host_picker {
                            Some(p) => Some(
                                TermHostPicker { cursor: picker_cursor(p.cursor, d, st.hosts.len() as nat), ..p },
                            ),
                            None => None,
                        },
                        ..tv
                    }
                },
                AppAction::TermHostPickerSelect(idx) => {
                    &&& fs0.screen == st.screen
                    &&& views_but_terminal(ov, fv)
                    &&& ftv == TerminalView { host_picker: None, ..tv }
                    &&& effects@ == if tv.host_picker matches Some(p) && p.switch_pane_mode {
                        seq![Effect::SwitchPaneHost(idx)]
                    } else {
                        seq![Effect::OpenTab(idx)]
                    }
                },
                AppAction::TermCloseHostPicker => {
                    &&& effects@.len() == 0
                    &&& views_but_terminal(ov, fv)
                    &&& ftv == TerminalView { host_picker: None, ..tv }
                    &&& fs0.screen == if tv.tabs.len() == 0 {
                        Screen::Dashboard
                    } else {
                        st.screen
                    }
                },
                AppAction::SwitchScreen(target) => {
                    &&& fs0.screen == target
                    &&& fv.status_message is None
                    &&& fv.host_list == ov.host_list
                    &&& fv.snippets_view == ov.snippets_view
                    &&& ftv == if target == Screen::Terminal && tv.tabs.len() == 0 {
                        TerminalView { host_picker: Some(TermHostPicker { cursor: 0, switch_pane_mode: false }), ..tv }
                    } else {
                        tv
                    }
                    &&& effects@ == if target == Screen::FileManager {
                        seq![Effect::BootstrapFileManager]
                    } else {
                        Seq::<Effect>::empty()
                    }
                },
                _ => effects@ == seq![Effect::Feature(action)] && fv == ov && fs0.screen == st.screen,
            }
}

/// `a` is one of the terminal-screen actions this module applies.
pub open spec fn terminal_action(a: AppAction) -> bool {
    a is TermInput || a is TermCloseTab || a is TermSwitchTab || a is TermSplitVertical || a is TermSplitHorizontal || a is TermFocusNextPane || a is TermOpenHostPicker || a is TermSwitchPaneHost || a is TermHostPickerNav || a is TermHostPickerSelect || a is TermCloseHostPicker || a is SwitchScreen
}

/// `a` is one of the file-manager actions this module applies.
pub open spec fn files_action(a: AppAction) -> bool {
    a is FmSwitchPanel || a is FmNavUp || a is FmNavDown || a is FmClosePopup || a is FmOpenHostPicker || a is FmHostPickerNav || a is FmCopy || a is FmOpenDeleteConfirm || a is FmOpenMkDir || a is FmOpenRename || a is FmMarkFile || a is FmToggleHidden
}

/// `a` is one of the snippets-screen actions this module applies.
pub open spec fn snippets_action(a: AppAction) -> bool {
    a is ConfirmSnippetForm || a is OpenSnippetDeleteConfirm || a is DismissSnippetResult || a is ConfirmSnippetDelete || a is SnippetSearchChanged || a is OpenSnippetAdd || a is OpenSnippetEdit || a is OpenBroadcastPicker || a is ToggleBroadcastHost
}

/// `a` is one of the dashboard actions this module applies.
pub open spec fn hosts_action(a: AppAction) -> bool {
    a is Quit || a is ConnectAt || a is OpenEditPopup || a is ConfirmDelete || a is CancelKeySetup || a is OpenDetailView || a is CloseDetailView || a is ConnectFromDetailView || a is ConfirmForm || a is ReloadHosts || a is RefreshMetrics || a is SearchQueryChanged || a is CycleSortOrder || a is OpenTagFilter || a is TagFilterSelected
}

/// `a` is one of the host-service actions this module applies: key setup
/// offers, the quick-execute input and service quick views.
pub open spec fn service_action(a: AppAction) -> bool {
    a is StartKeySetup || a is OpenQuickExecute || a is ShowQuickView
}

/// The index of the selected host, when the selection names one in `hosts`.
pub open spec fn selected_host(hl: HostListView, n: nat) -> Option<usize> {
    if hl.selected < hl.filtered_indices.len() && hl.filtered_indices@[hl.selected as int] < n {
        Some(hl.filtered_indices@[hl.selected as int])
    } else {
        None
    }
}

/// The name a service kind prints with `{:?}`.
pub open spec fn kind_name(k: ServiceKind) -> Seq<char> {
    match k {
        ServiceKind::Docker => "Docker"@,
        ServiceKind::Nginx => "Nginx"@,
        ServiceKind::PostgreSQL => "PostgreSQL"@,
        ServiceKind::Redis => "Redis"@,
        ServiceKind::NodeJS => "NodeJS"@,
    }
}

/// `popup` is a results popup with the single entry `host`, `name`,
/// `output`, `pending`, scrolled to the top.
pub open spec fn single_result(
    popup: Option<SnippetPopup>,
    host: Seq<char>,
    name: Seq<char>,
    output: Result<Seq<char>, Seq<char>>,
    pending: bool,
) -> bool {
    popup matches Some(SnippetPopup::Results { entries, scroll }) && scroll == 0 && entries.len() == 1
        && entries@[0].host_name@ == host && entries@[0].snippet_name@ == name && entries@[0].pending == pending
        && match (entries@[0].output, output) {
        (Ok(a), Ok(b)) => a@ == b,
        (Err(a), Err(b)) => a@ == b,
        _ => false,
    }
}

/// `a` is one of the run actions this module applies: snippet runs,
/// broadcasts, parameter input, quick execution and key setup.
pub open spec fn run_action(a: AppAction) -> bool {
    a is ExecuteSnippet || a is ConfirmBroadcast || a is ConfirmParamInput || a is QuickExecute || a is ConfirmKeySetup
}

/// The hosts a snippet run goes to: the given names, or else the host of a
/// host-scoped snippet, or else the selected host; none when there is no
/// such snippet.
pub open spec fn resolved_hosts(st: AppState, hl: HostListView, idx: usize, given: Seq<Seq<char>>) -> Seq<Seq<char>> {
    if given.len() > 0 {
        given
    } else if idx < st.snippets.len() {
        let sn = st.snippets@[idx as int];
        if sn.scope == SnippetScope::Host {
            match sn.host {
                Some(h) => seq![h@],
                None => Seq::empty(),
            }
        } else {
            match selected_host(hl, st.hosts.len() as nat) {
                Some(i) => seq![st.hosts@[i as int].name@],
                None => Seq::empty(),
            }
        }
    } else {
        Seq::empty()
    }
}

/// Starting snippet `sn` (at `idx`) on `names`: a snippet with parameters
/// asks for their values with one empty field each; one without shows a
/// pending entry per host and is run.
pub open spec fn snippet_started(
    sn: Snippet,
    idx: usize,
    names: Seq<Seq<char>>,
    popup: Option<SnippetPopup>,
    effects: Seq<Effect>,
) -> bool {
    match sn.params {
        Some(p) if p.len() > 0 => {
            &&& effects.len() == 0
            &&& popup matches Some(
                SnippetPopup::ParamInput { snippet_idx: i, host_names: hs, param_names: ps, param_fields: fs, focused_field: f },
            ) && i == idx && views(hs@) == names && views(ps@) == views(p@) && fs.len() == p.len() && f == 0
                && forall|k: int| 0 <= k < fs.len() ==> (#[trigger] fs@[k]).value@.len() == 0 && fs@[k].cursor == 0
        },
        _ => {
            &&& popup matches Some(pp) && run_pending(pp, names, sn.name@)
            &&& effects.len() == 1
            &&& effects[0] matches Effect::RunSnippet { command, host_names, snippet_name } && command@ == sn.command@
                && views(host_names@) == names && snippet_name@ == sn.name@
        },
    }
}

/// Running snippet `idx` on `names` from the views `ov`: nothing without
/// such a snippet, else it starts.
pub open spec fn snippet_executed(
    st: AppState,
    idx: usize,
    names: Seq<Seq<char>>,
    ov: ViewState,
    fv: ViewState,
    effects: Seq<Effect>,
) -> bool {
    &&& fv == ViewState { snippets_view: fv.snippets_view, ..ov }
    &&& fv.snippets_view == SnippetsView { popup: fv.snippets_view.popup, ..ov.snippets_view }
    &&& if idx < st.snippets.len() {
        snippet_started(st.snippets@[idx as int], idx, names, fv.snippets_view.popup, effects)
    } else {
        fv == ov && effects.len() == 0
    }
}

/// `a` is one of the file operations this module applies: entering a
/// directory, going up, confirming a delete, a new directory or a rename,
/// pasting the clipboard, and picking the remote panel's host.
pub open spec fn file_op_action(a: AppAction) -> bool {
    a is FmEnterDir || a is FmParentDir || a is FmConfirmDelete || a is FmConfirmMkDir || a is FmConfirmRename
        || a is FmPaste || a is FmHostPickerSelect
}

/// The clipboard's transfers can be numbered from the next transfer number.
pub open spec fn paste_fits(v: ViewState) -> bool {
    v.file_manager.clipboard matches Some(c) ==> v.next_transfer_id + c.paths.len() <= u64::MAX
}

/// A file panel with nothing listed, marked or pending.
pub open spec fn empty_panel(p: FilePanelView) -> bool {
    &&& p.cwd@.len() == 0
    &&& p.raw_entries@.len() == 0
    &&& p.entries@.len() == 0
    &&& p.cursor == 0
    &&& p.scroll == 0
    &&& p.marked.contents() == Set::<Seq<char>>::empty()
    &&& p.pending_focus_path is None
    &&& !p.show_hidden
}

/// The file manager with the active panel's pending focus set to `p`.
pub open spec fn with_pending_focus(fm: FileManagerView, p: Option<String>) -> FileManagerView {
    match fm.active_panel {
        FmPanel::Local => FileManagerView { local: FilePanelView { pending_focus_path: p, ..fm.local }, ..fm },
        FmPanel::Remote => FileManagerView { remote: FilePanelView { pending_focus_path: p, ..fm.remote }, ..fm },
    }
}

/// An action applied: the terminal view stays well formed, the state lists
/// change only for the actions that edit them, and `action_outcome` holds.
pub open spec fn applied(
    st0: AppState,
    fs0: AppState,
    ov0: ViewState,
    fv0: ViewState,
    action: AppAction,
    effects: Vec<Effect>,
) -> bool {
    &&& terminal_ok(fv0.terminal_view)
    &&& !(action is ConfirmDelete) && !(action is ConfirmForm) ==> fs0.hosts@ == st0.hosts@
    &&& !(action is ConfirmForm) ==> fs0.metrics@ == st0.metrics@
    &&& !(action is ConfirmForm) ==> fs0.connection_statuses@ == st0.connection_statuses@
    &&& !(action is ConfirmSnippetDelete) && !(action is ConfirmSnippetForm) ==> fs0.snippets@ == st0.snippets@
    &&& !(action is ConfirmForm) ==> fs0.services@ == st0.services@
    &&& action_outcome(st0, fs0, ov0, fv0, action, effects)
}

fn is_terminal_action(a: &AppAction) -> (res: bool)
    ensures
        res == terminal_action(*a),
{
    matches!(a, AppAction::TermInput(..) | AppAction::TermCloseTab | AppAction::TermSwitchTab(..) | AppAction::TermSplitVertical | AppAction::TermSplitHorizontal | AppAction::TermFocusNextPane | AppAction::TermOpenHostPicker | AppAction::TermSwitchPaneHost | AppAction::TermHostPickerNav(..) | AppAction::TermHostPickerSelect(..) | AppAction::TermCloseHostPicker | AppAction::SwitchScreen(..))
}

fn is_files_action(a: &AppAction) -> (res: bool)
    ensures
        res == files_action(*a),
{
    matches!(a, AppAction::FmSwitchPanel | AppAction::FmNavUp | AppAction::FmNavDown | AppAction::FmClosePopup | AppAction::FmOpenHostPicker | AppAction::FmHostPickerNav(..) | AppAction::FmCopy | AppAction::FmOpenDeleteConfirm | AppAction::FmOpenMkDir | AppAction::FmOpenRename | AppAction::FmMarkFile | AppAction::FmToggleHidden)
}

fn is_snippets_action(a: &AppAction) -> (res: bool)
    ensures
        res == snippets_action(*a),
{
    matches!(a, AppAction::ConfirmSnippetForm | AppAction::OpenSnippetDeleteConfirm | AppAction::DismissSnippetResult | AppAction::ConfirmSnippetDelete | AppAction::SnippetSearchChanged | AppAction::OpenSnippetAdd | AppAction::OpenSnippetEdit | AppAction::OpenBroadcastPicker | AppAction::ToggleBroadcastHost(..))
}

fn is_hosts_action(a: &AppAction) -> (res: bool)
    ensures
        res == hosts_action(*a),
{
    matches!(a, AppAction::Quit | AppAction::ConnectAt(..) | AppAction::OpenEditPopup | AppAction::ConfirmDelete | AppAction::CancelKeySetup | AppAction::OpenDetailView | AppAction::CloseDetailView | AppAction::ConnectFromDetailView | AppAction::ConfirmForm | AppAction::ReloadHosts | AppAction::RefreshMetrics | AppAction::SearchQueryChanged | AppAction::CycleSortOrder | AppAction::OpenTagFilter | AppAction::TagFilterSelected(..))
}

/// Applies a terminal-screen action (tabs, panes, the host picker, screen switches).
#[verifier::spinoff_prover]
#[verifier::rlimit(60)]
fn apply_terminal_action(state: &mut AppState, view: &mut ViewState, action: AppAction) -> (effects: Vec<Effect>)
    requires
        terminal_ok(old(view).terminal_view),
        host_forms_ok(old(view).host_list),
        snippet_forms_ok(old(view).snippets_view),
        paste_fits(*old(view)),
        terminal_action(action),
    ensures
        applied(*old(state), *final(state), *old(view), *final(view), action, effects),
{
    let mut effects: Vec<Effect> = Vec::new();
    match action {
        AppAction::TermInput(bytes) => {
            let i = view.terminal_view.focused_tab();
            if i < view.terminal_view.tabs.len() {
                let mut tab = view.terminal_view.tabs[i].clone();
                tab.scroll_offset = 0;
                let id = tab.session_id;
                view.terminal_view.tabs.set(i, tab);
                effects.push(Effect::Write(id, bytes));
            }
        },
        AppAction::TermCloseTab => {
            match view.terminal_view.close_active_tab() {
                Some(id) => {
                    effects.push(Effect::CloseSession(id));
                    if view.terminal_view.tabs.len() == 0 {
                        state.screen = Screen::Dashboard;
                    }
                },
                None => {},
            }
        },
        AppAction::TermSwitchTab(n) => {
            view.terminal_view.switch_tab(n);
        },
        AppAction::TermSplitVertical => {
            split_key(view, SplitDirection::Vertical);
        },
        AppAction::TermSplitHorizontal => {
            split_key(view, SplitDirection::Horizontal);
        },
        AppAction::TermFocusNextPane => {
            view.terminal_view.focus_next_pane();
        },
        AppAction::TermOpenHostPicker => {
            view.terminal_view.host_picker = Some(TermHostPicker { cursor: 0, switch_pane_mode: false });
        },
        AppAction::TermSwitchPaneHost => {
            view.terminal_view.host_picker = Some(TermHostPicker { cursor: 0, switch_pane_mode: true });
        },
        AppAction::TermHostPickerNav(d) => {
            match view.terminal_view.host_picker {
                Some(p) => {
                    view.terminal_view.host_picker = Some(step_picker(p, d, state.hosts.len()));
                },
                None => {},
            }
        },
        AppAction::TermHostPickerSelect(idx) => {
            let switch_pane = match view.terminal_view.host_picker {
                Some(p) => p.switch_pane_mode,
                None => false,
            };
            view.terminal_view.host_picker = None;
            if switch_pane {
                effects.push(Effect::SwitchPaneHost(idx));
            } else {
                effects.push(Effect::OpenTab(idx));
            }
        },
        AppAction::TermCloseHostPicker => {
            view.terminal_view.host_picker = None;
            if view.terminal_view.tabs.len() == 0 {
                state.screen = Screen::Dashboard;
            }
        },
        AppAction::SwitchScreen(target) => {
            let open_picker = target == Screen::Terminal && view.terminal_view.tabs.len() == 0;
            state.screen = target;
            view.status_message = None;
            if target == Screen::FileManager {
                effects.push(Effect::BootstrapFileManager);
            }
            if open_picker {
                view.terminal_view.host_picker = Some(TermHostPicker { cursor: 0, switch_pane_mode: false });
            }
        },
        _ => {},
    }
    effects
}

/// Applies a file-manager action.
#[verifier::spinoff_prover]
#[verifier::rlimit(60)]
fn apply_files_action(state: &mut AppState, view: &mut ViewState, action: AppAction) -> (effects: Vec<Effect>)
    requires
        terminal_ok(old(view).terminal_view),
        host_forms_ok(old(view).host_list),
        snippet_forms_ok(old(view).snippets_view),
        paste_fits(*old(view)),
        files_action(action),
    ensures
        applied(*old(state), *final(state), *old(view), *final(view), action, effects),
{
    let mut effects: Vec<Effect> = Vec::new();
    match action {
        AppAction::FmSwitchPanel => {
            view.file_manager.active_panel = match view.file_manager.active_panel {
                FmPanel::Local => FmPanel::Remote,
                FmPanel::Remote => FmPanel::Local,
            };
            effects.push(Effect::RequestPreview);
        },
        AppAction::FmNavUp => {
            match view.file_manager.active_panel {
                FmPanel::Local => view.file_manager.local.select_prev(),
                FmPanel::Remote => view.file_manager.remote.select_prev(),
            }
            effects.push(Effect::RequestPreview);
        },
        AppAction::FmNavDown => {
            match view.file_manager.active_panel {
                FmPanel::Local => {
                    if view.file_manager.local.cursor < usize::MAX {
                        view.file_manager.local.select_next();
                    }
                },
                FmPanel::Remote => {
                    if view.file_manager.remote.cursor < usize::MAX {
                        view.file_manager.remote.select_next();
                    }
                },
            }
            effects.push(Effect::RequestPreview);
        },
        AppAction::FmClosePopup => {
            view.file_manager.popup = None;
        },
        AppAction::FmOpenHostPicker => {
            view.file_manager.popup = Some(FileManagerPopup::HostPicker { cursor: 0 });
        },
        AppAction::FmHostPickerNav(d) => {
            match view.file_manager.popup {
                Some(FileManagerPopup::HostPicker { cursor }) => {
                    let p = step_picker(TermHostPicker { cursor, switch_pane_mode: false }, d, state.hosts.len());
                    view.file_manager.popup = Some(FileManagerPopup::HostPicker { cursor: p.cursor });
                },
                _ => {},
            }
        },
        AppAction::FmCopy => {
            let paths = active_operands(&view.file_manager);
            if paths.len() == 0 {
                proof {
                    assert(views(paths@).to_set() =~= Set::<Seq<char>>::empty());
                }
                view.status_message = Some(owned("Nothing to copy."));
            } else {
                proof {
                    assert(views(paths@).to_set().contains(views(paths@)[0]));
                }
                let source = view.file_manager.active_panel;
                view.file_manager.clipboard = Some(FmClipboard { paths, source_panel: source });
                view.status_message = Some(owned("Copied to clipboard. Switch panel and press p to paste."));
            }
        },
        AppAction::FmOpenDeleteConfirm => {
            let paths = active_operands(&view.file_manager);
            if paths.len() == 0 {
                proof {
                    assert(views(paths@).to_set() =~= Set::<Seq<char>>::empty());
                }
                view.status_message = Some(owned("Nothing to delete."));
            } else {
                proof {
                    assert(views(paths@).to_set().contains(views(paths@)[0]));
                }
                view.file_manager.popup = Some(FileManagerPopup::DeleteConfirm { paths });
            }
        },
        AppAction::FmOpenMkDir => {
            view.file_manager.popup = Some(FileManagerPopup::MkDir(FormField::default()));
        },
        AppAction::FmOpenRename => {
            let entry = match view.file_manager.active_panel {
                FmPanel::Local => view.file_manager.local.cursor_entry(),
                FmPanel::Remote => view.file_manager.remote.cursor_entry(),
            };
            let name = match entry {
                Some(e) => {
                    if str_eq(e.name.as_str(), "..") {
                        None
                    } else {
                        Some(owned(e.name.as_str()))
                    }
                },
                None => None,
            };
            match name {
                Some(original_name) => {
                    let field = FormField::with_value(original_name.as_str());
                    view.file_manager.popup = Some(FileManagerPopup::Rename { original_name, field });
                },
                None => {},
            }
        },
        AppAction::FmMarkFile => {
            match view.file_manager.active_panel {
                FmPanel::Local => toggle_mark(&mut view.file_manager.local),
                FmPanel::Remote => toggle_mark(&mut view.file_manager.remote),
            }
        },
        AppAction::FmToggleHidden => {
            match view.file_manager.active_panel {
                FmPanel::Local => toggle_hidden(&mut view.file_manager.local),
                FmPanel::Remote => toggle_hidden(&mut view.file_manager.remote),
            }
        },
        _ => {},
    }
    effects
}

/// Applies a snippets-screen action.
#[verifier::spinoff_prover]
#[verifier::rlimit(60)]
fn apply_snippets_action(state: &mut AppState, view: &mut ViewState, action: AppAction) -> (effects: Vec<Effect>)
    requires
        terminal_ok(old(view).terminal_view),
        host_forms_ok(old(view).host_list),
        snippet_forms_ok(old(view).snippets_view),
        paste_fits(*old(view)),
        snippets_action(action),
    ensures
        applied(*old(state), *final(state), *old(view), *final(view), action, effects),
{
    let mut effects: Vec<Effect> = Vec::new();
    match action {
        AppAction::ConfirmSnippetForm => {
            let res = confirm_snippet_form(&mut state.snippets, &mut view.snippets_view);
            if res.snippets_changed {
                effects.push(Effect::SaveSnippets);
            }
            match res.status {
                Some(m) => {
                    view.status_message = Some(m);
                },
                None => {},
            }
        },
        AppAction::OpenSnippetDeleteConfirm => {
            match view.snippets_view.selected_snippet_idx() {
                Some(idx) => {
                    view.snippets_view.popup = Some(SnippetPopup::DeleteConfirm(idx));
                },
                None => {},
            }
        },
        AppAction::DismissSnippetResult => {
            let results = matches!(view.snippets_view.popup, Some(SnippetPopup::Results { .. }));
            if results {
                view.snippets_view.popup = None;
            }
        },
        AppAction::ConfirmSnippetDelete => {
            let was_delete = matches!(view.snippets_view.popup, Some(SnippetPopup::DeleteConfirm(_)));
            let res = confirm_snippet_delete(&mut state.snippets, &mut view.snippets_view);
            match res.status {
                Some(m) => {
                    view.status_message = Some(m);
                },
                None => {},
            }
            if was_delete {
                effects.push(Effect::SaveSnippets);
            }
        },
        AppAction::SnippetSearchChanged => {
            let q = owned(view.snippets_view.search_query.as_str());
            view.snippets_view.rebuild_filter(state.snippets.as_slice(), q.as_str());
        },
        AppAction::OpenSnippetAdd => {
            view.snippets_view.popup = Some(SnippetPopup::Add(SnippetForm::empty()));
        },
        AppAction::OpenSnippetEdit => {
            match view.snippets_view.selected_snippet_idx() {
                Some(i) => {
                    if i < state.snippets.len() {
                        let form = SnippetForm::from_snippet(&state.snippets[i]);
                        view.snippets_view.popup = Some(SnippetPopup::Edit { snippet_idx: i, form });
                    }
                },
                None => {},
            }
        },
        AppAction::OpenBroadcastPicker => {
            match view.snippets_view.selected_snippet_idx() {
                Some(idx) => {
                    view.snippets_view.popup = Some(
                        SnippetPopup::BroadcastPicker { snippet_idx: idx, selected_host_indices: Vec::new(), cursor: 0 },
                    );
                },
                None => {},
            }
        },
        AppAction::ToggleBroadcastHost(i) => {
            let popup = view.snippets_view.popup.take();
            match popup {
                Some(SnippetPopup::BroadcastPicker { snippet_idx, selected_host_indices, cursor }) => {
                    let mut chosen = selected_host_indices;
                    toggle_index(&mut chosen, i);
                    view.snippets_view.popup = Some(
                        SnippetPopup::BroadcastPicker { snippet_idx, selected_host_indices: chosen, cursor },
                    );
                },
                other => {
                    view.snippets_view.popup = other;
                },
            }
        },
        _ => {},
    }
    effects
}

/// Applies a dashboard action (host list, detail view, reloads).
#[verifier::spinoff_prover]
#[verifier::rlimit(60)]
fn apply_hosts_action(state: &mut AppState, view: &mut ViewState, action: AppAction) -> (effects: Vec<Effect>)
    requires
        terminal_ok(old(view).terminal_view),
        host_forms_ok(old(view).host_list),
        snippet_forms_ok(old(view).snippets_view),
        paste_fits(*old(view)),
        hosts_action(action),
    ensures
        applied(*old(state), *final(state), *old(view), *final(view), action, effects),
{
    let mut effects: Vec<Effect> = Vec::new();
    match action {
        AppAction::Quit => {},
        AppAction::ConnectAt(i) => {
            effects.push(Effect::OpenTab(i));
        },
        AppAction::OpenEditPopup => {
            match view.host_list.selected_host_idx() {
                Some(idx) => {
                    if idx < state.hosts.len() {
                        let form = HostForm::from_host(&state.hosts[idx]);
                        view.host_list.popup = Some(HostPopup::Edit { host_idx: idx, form });
                    }
                },
                None => {},
            }
        },
        AppAction::ConfirmDelete => {
            let was_delete = matches!(view.host_list.popup, Some(HostPopup::DeleteConfirm(_)));
            let res = confirm_host_delete(state, &mut view.host_list);
            match res.status {
                Some(m) => {
                    view.status_message = Some(m);
                },
                None => {},
            }
            if was_delete {
                effects.push(Effect::SaveHosts);
            }
        },
        AppAction::CancelKeySetup => {
            view.host_list.popup = None;
        },
        AppAction::OpenDetailView => {
            state.screen = Screen::DetailView;
        },
        AppAction::CloseDetailView => {
            state.screen = Screen::Dashboard;
        },
        AppAction::ConnectFromDetailView => {
            match view.host_list.selected_host_idx() {
                Some(idx) => {
                    effects.push(Effect::OpenTab(idx));
                },
                None => {},
            }
        },
        AppAction::ConfirmForm => {
            let res = confirm_host_form(state, &mut view.host_list);
            let ghost r = res;
            if res.hosts_changed {
                effects.push(Effect::SaveHosts);
            }
            if res.host_added {
                effects.push(Effect::RestartPolling);
            }
            match res.status {
                Some(m) => {
                    view.status_message = Some(m);
                },
                None => {},
            }
            proof {
                assert(effects@ =~= confirm_effects(r));
            }
        },
        AppAction::ReloadHosts => {
            view.status_message = Some(owned("Reloading hosts\u{2026}"));
            effects.push(Effect::ReloadHosts);
        },
        AppAction::RefreshMetrics => {
            view.status_message = Some(owned("Refreshing metrics\u{2026}"));
            effects.push(Effect::RefreshMetrics);
        },
        AppAction::SearchQueryChanged => {
            view.host_list.rebuild_filter(&state.hosts, &state.metrics, &state.connection_statuses);
        },
        AppAction::CycleSortOrder => {
            view.host_list.sort_order = view.host_list.sort_order.next();
            view.host_list.rebuild_filter(&state.hosts, &state.metrics, &state.connection_statuses);
        },
        AppAction::OpenTagFilter => {
            view.host_list.tag_popup_open = !view.host_list.tag_popup_open;
            view.host_list.tag_popup_selected = 0;
        },
        AppAction::TagFilterSelected(t) => {
            view.host_list.tag_filter = t;
            view.host_list.tag_popup_open = false;
            view.host_list.rebuild_filter(&state.hosts, &state.metrics, &state.connection_statuses);
        },
        _ => {},
    }
    effects
}

fn is_service_action(a: &AppAction) -> (res: bool)
    ensures
        res == service_action(*a),
{
    matches!(a, AppAction::StartKeySetup | AppAction::OpenQuickExecute | AppAction::ShowQuickView(..))
}

/// The index of the selected host, when the selection names one.
fn selected_host_exec(hl: &HostListView, n: usize) -> (res: Option<usize>)
    ensures
        res == selected_host(*hl, n as nat),
{
    match hl.selected_host_idx() {
        Some(idx) => if idx < n {
            Some(idx)
        } else {
            None
        },
        None => None,
    }
}

/// The name a service kind prints with `{:?}`.
fn kind_name_exec(k: ServiceKind) -> (res: &'static str)
    ensures
        res@ == kind_name(k),
{
    match k {
        ServiceKind::Docker => "Docker",
        ServiceKind::Nginx => "Nginx",
        ServiceKind::PostgreSQL => "PostgreSQL",
        ServiceKind::Redis => "Redis",
        ServiceKind::NodeJS => "NodeJS",
    }
}

/// "Quick View: " followed by `s`.
fn quick_view_name(s: &str) -> (res: String)
    ensures
        res@ == "Quick View: "@ + s@,
{
    let mut m: Vec<char> = Vec::new();
    append_str(&mut m, "Quick View: ");
    append_str(&mut m, s);
    string_of(&m)
}

/// Applies a host-service action: offers key setup, opens the
/// quick-execute input, or starts a service quick view.
#[verifier::spinoff_prover]
fn apply_service_action(state: &mut AppState, view: &mut ViewState, action: AppAction) -> (effects: Vec<Effect>)
    requires
        terminal_ok(old(view).terminal_view),
        service_action(action),
    ensures
        applied(*old(state), *final(state), *old(view), *final(view), action, effects),
{
    let mut effects: Vec<Effect> = Vec::new();
    match action {
        AppAction::StartKeySetup => {
            match offer_key_setup(&state.hosts, &mut view.host_list) {
                Some(m) => {
                    view.status_message = Some(m);
                },
                None => {},
            }
        },
        AppAction::OpenQuickExecute => {
            match selected_host_exec(&view.host_list, state.hosts.len()) {
                Some(idx) => {
                    let name = owned(state.hosts[idx].name.as_str());
                    view.snippets_view.popup = Some(
                        SnippetPopup::QuickExecuteInput { host_name: name, command_field: FormField::default() },
                    );
                },
                None => {
                    view.status_message = Some(owned("No host selected."));
                },
            }
        },
        AppAction::ShowQuickView(kind) => {
            match selected_host_exec(&view.host_list, state.hosts.len()) {
                Some(idx) => {
                    let (command, title) = quick_view_command(kind);
                    let entry = SnippetResultEntry {
                        host_name: owned(state.hosts[idx].name.as_str()),
                        snippet_name: quick_view_name(title),
                        output: Ok(String::new()),
                        pending: true,
                    };
                    view.snippets_view.popup = Some(SnippetPopup::Results { entries: vec![entry], scroll: 0 });
                    effects.push(
                        Effect::RunCommand { host_idx: idx, command: owned(command), snippet_name: quick_view_name(title) },
                    );
                },
                None => {
                    let host = if view.host_list.selected < view.host_list.filtered_indices.len() {
                        "(unknown)"
                    } else {
                        "(no selection)"
                    };
                    let entry = SnippetResultEntry {
                        host_name: owned(host),
                        snippet_name: quick_view_name(kind_name_exec(kind)),
                        output: Err(owned("No host selected.")),
                        pending: false,
                    };
                    view.snippets_view.popup = Some(SnippetPopup::Results { entries: vec![entry], scroll: 0 });
                },
            }
        },
        _ => {},
    }
    effects
}

fn is_run_action(a: &AppAction) -> (res: bool)
    ensures
        res == run_action(*a),
{
    matches!(
        a,
        AppAction::ExecuteSnippet { .. } | AppAction::ConfirmBroadcast | AppAction::ConfirmParamInput
            | AppAction::QuickExecute { .. } | AppAction::ConfirmKeySetup(..)
    )
}

/// Copies of some names.
fn copy_names(v: &Vec<String>) -> (res: Vec<String>)
    ensures
        views(res@) == views(v@),
{
    let mut out: Vec<String> = Vec::new();
    let mut i: usize = 0;
    while i < v.len()
        invariant
            i <= v.len(),
            views(out@) == views(v@).take(i as int),
        decreases v.len() - i,
    {
        let ghost before = views(out@);
        out.push(owned(v[i].as_str()));
        assert(views(out@) =~= before.push(v@[i as int]@));
        assert(views(v@).take(i + 1) =~= views(v@).take(i as int).push(v@[i as int]@));
        i = i + 1;
    }
    assert(views(v@).take(v.len() as int) =~= views(v@));
    out
}

/// The hosts a snippet run goes to, when none were given.
fn resolve_hosts(state: &AppState, hl: &HostListView, idx: usize, given: Vec<String>) -> (res: Vec<String>)
    ensures
        views(res@) == resolved_hosts(*state, *hl, idx, views(given@)),
{
    if given.len() > 0 {
        return given;
    }
    let mut out: Vec<String> = Vec::new();
    if idx < state.snippets.len() {
        let sn = &state.snippets[idx];
        if sn.scope == SnippetScope::Host {
            match &sn.host {
                Some(h) => {
                    out.push(owned(h.as_str()));
                },
                None => {},
            }
        } else {
            match selected_host_exec(hl, state.hosts.len()) {
                Some(i) => {
                    out.push(owned(state.hosts[i].name.as_str()));
                },
                None => {},
            }
        }
    }
    assert(views(out@) =~= resolved_hosts(*state, *hl, idx, views(given@)));
    out
}

/// Starts snippet `idx` on `names`, when there is such a snippet.
fn execute_snippet(state: &AppState, view: &mut ViewState, idx: usize, names: Vec<String>) -> (effects: Vec<Effect>)
    ensures
        snippet_executed(*state, idx, views(names@), *old(view), *final(view), effects@),
{
    let mut effects: Vec<Effect> = Vec::new();
    if idx < state.snippets.len() {
        let sn = &state.snippets[idx];
        let copies = copy_names(&names);
        match start_snippet(sn, idx, names) {
            SnippetStart::AskParams(popup) => {
                view.snippets_view.popup = Some(popup);
            },
            SnippetStart::Run(run) => {
                view.snippets_view.popup = Some(run.popup);
                effects.push(
                    Effect::RunSnippet { command: run.command, host_names: copies, snippet_name: owned(sn.name.as_str()) },
                );
            },
        }
    }
    effects
}

/// Applies a run action: starts snippets (asking for parameters or hosts
/// first when needed), runs quick commands, and starts key setup.
#[verifier::spinoff_prover]
#[verifier::rlimit(60)]
fn apply_run_action(state: &mut AppState, view: &mut ViewState, action: AppAction) -> (effects: Vec<Effect>)
    requires
        terminal_ok(old(view).terminal_view),
        run_action(action),
    ensures
        applied(*old(state), *final(state), *old(view), *final(view), action, effects),
{
    match action {
        AppAction::ExecuteSnippet { snippet_idx, host_names } => {
            let names = resolve_hosts(state, &view.host_list, snippet_idx, host_names);
            if names.len() == 0 {
                view.snippets_view.popup = Some(
                    SnippetPopup::BroadcastPicker { snippet_idx, selected_host_indices: Vec::new(), cursor: 0 },
                );
                Vec::new()
            } else {
                execute_snippet(state, view, snippet_idx, names)
            }
        },
        AppAction::ConfirmBroadcast => {
            let popup = view.snippets_view.popup.take();
            match popup {
                Some(SnippetPopup::BroadcastPicker { snippet_idx, selected_host_indices, cursor }) => {
                    match broadcast_targets(selected_host_indices.as_slice(), state.hosts.as_slice()) {
                        Err(e) => {
                            view.status_message = Some(e);
                            Vec::new()
                        },
                        Ok(names) => execute_snippet(state, view, snippet_idx, names),
                    }
                },
                other => {
                    view.snippets_view.popup = other;
                    Vec::new()
                },
            }
        },
        AppAction::ConfirmParamInput => {
            let popup = view.snippets_view.popup.take();
            match popup {
                Some(SnippetPopup::ParamInput { snippet_idx, host_names, param_names, param_fields, focused_field }) => {
                    let mut effects: Vec<Effect> = Vec::new();
                    if snippet_idx < state.snippets.len() {
                        let values = param_values(param_fields.as_slice());
                        let sn = &state.snippets[snippet_idx];
                        let run = prepare_run(sn, host_names.as_slice(), values.as_slice());
                        view.snippets_view.popup = Some(run.popup);
                        let copies = copy_names(&host_names);
                        effects.push(
                            Effect::RunSnippet {
                                command: run.command,
                                host_names: copies,
                                snippet_name: owned(sn.name.as_str()),
                            },
                        );
                    }
                    effects
                },
                other => {
                    view.snippets_view.popup = other;
                    Vec::new()
                },
            }
        },
        AppAction::QuickExecute { host_name, command } => {
            let mut effects: Vec<Effect> = Vec::new();
            let mut i: usize = 0;
            while i < state.hosts.len() && !str_eq(state.hosts[i].name.as_str(), host_name.as_str())
                invariant
                    i <= state.hosts.len(),
                    forall|j: int| 0 <= j < i ==> (#[trigger] state.hosts@[j]).name@ != host_name@,
                decreases state.hosts.len() - i,
            {
                i = i + 1;
            }
            proof {
                lemma_host_named(state.hosts@, host_name@, i as int);
            }
            if i < state.hosts.len() {
                let entry = SnippetResultEntry {
                    host_name: owned(host_name.as_str()),
                    snippet_name: owned("(quick-execute)"),
                    output: Ok(String::new()),
                    pending: true,
                };
                view.snippets_view.popup = Some(SnippetPopup::Results { entries: vec![entry], scroll: 0 });
                effects.push(Effect::RunCommand { host_idx: i, command, snippet_name: owned("(quick-execute)") });
            } else {
                let mut m: Vec<char> = Vec::new();
                append_str(&mut m, "Host '");
                append_str(&mut m, host_name.as_str());
                append_str(&mut m, "' not found.");
                let entry = SnippetResultEntry {
                    host_name,
                    snippet_name: owned("(quick-execute)"),
                    output: Err(string_of(&m)),
                    pending: false,
                };
                view.snippets_view.popup = Some(SnippetPopup::Results { entries: vec![entry], scroll: 0 });
            }
            effects
        },
        AppAction::ConfirmKeySetup(idx) => {
            let mut effects: Vec<Effect> = Vec::new();
            if idx < state.hosts.len() {
                view.host_list.popup = Some(
                    HostPopup::KeySetupProgress {
                        host_idx: idx,
                        host_name: owned(state.hosts[idx].name.as_str()),
                        current_step: None,
                    },
                );
                effects.push(Effect::RunKeySetup(idx));
            }
            effects
        },
        _ => Vec::new(),
    }
}

fn is_file_op_action(a: &AppAction) -> (res: bool)
    ensures
        res == file_op_action(*a),
{
    matches!(
        a,
        AppAction::FmEnterDir | AppAction::FmParentDir | AppAction::FmConfirmDelete | AppAction::FmConfirmMkDir(..)
            | AppAction::FmConfirmRename(..) | AppAction::FmPaste | AppAction::FmHostPickerSelect(..)
    )
}

/// Sets the active panel's pending focus.
fn set_pending_focus(fm: &mut FileManagerView, p: Option<String>)
    ensures
        *final(fm) == with_pending_focus(*old(fm), p),
{
    match fm.active_panel {
        FmPanel::Local => {
            fm.local.pending_focus_path = p;
        },
        FmPanel::Remote => {
            fm.remote.pending_focus_path = p;
        },
    }
}

/// The active panel.
fn active_panel_ref(fm: &FileManagerView) -> (res: &FilePanelView)
    ensures
        *res == active_panel_of(*fm),
{
    match fm.active_panel {
        FmPanel::Local => &fm.local,
        FmPanel::Remote => &fm.remote,
    }
}

/// A file panel with nothing listed, marked or pending.
fn new_panel() -> (res: FilePanelView)
    ensures
        empty_panel(res),
{
    FilePanelView {
        cwd: String::new(),
        raw_entries: Vec::new(),
        entries: Vec::new(),
        cursor: 0,
        scroll: 0,
        marked: PathSet::new(),
        pending_focus_path: None,
        show_hidden: false,
    }
}

/// Applies a file operation: asks for the listing of the directory entered
/// or of the parent (remembering the directory left, to put the cursor on
/// it), for a confirmed delete, new directory or rename, for the transfers
/// that paste the clipboard (numbered from the next transfer number, with
/// the progress popup shown), or for the SFTP connection of the remote
/// panel to the picked host.
#[verifier::spinoff_prover]
#[verifier::rlimit(60)]
fn apply_file_op_action(state: &mut AppState, view: &mut ViewState, action: AppAction) -> (effects: Vec<Effect>)
    requires
        terminal_ok(old(view).terminal_view),
        file_op_action(action),
        paste_fits(*old(view)),
    ensures
        applied(*old(state), *final(state), *old(view), *final(view), action, effects),
{
    let mut effects: Vec<Effect> = Vec::new();
    let remote = view.file_manager.active_panel == FmPanel::Remote;
    match action {
        AppAction::FmPaste => {
            let dst = view.file_manager.active_panel;
            let first = view.next_transfer_id;
            let cwd = owned(active_panel_ref(&view.file_manager).cwd.as_str());
            match plan_paste(&view.file_manager.clipboard, dst, cwd.as_str(), first) {
                Err(e) => {
                    view.status_message = Some(e);
                },
                Ok(plan) => {
                    let n = plan.transfers.len();
                    view.next_transfer_id = first + n as u64;
                    view.file_manager.pending_ops = n;
                    view.file_manager.active_transfer = Some(first);
                    view.file_manager.popup = Some(
                        FileManagerPopup::TransferProgress { transfer_id: first, filename: plan.popup_name, done: 0, total: 0 },
                    );
                    effects.push(Effect::Transfers(plan.transfers));
                },
            }
        },
        AppAction::FmHostPickerSelect(idx) => {
            if idx < state.hosts.len() {
                let mut m: Vec<char> = Vec::new();
                append_str(&mut m, "Connecting to '");
                append_str(&mut m, state.hosts[idx].name.as_str());
                append_str(&mut m, "'\u{2026} (30s timeout)");
                view.file_manager.connected_host = None;
                view.file_manager.remote = new_panel();
                view.file_manager.sftp_connecting = true;
                view.status_message = Some(string_of(&m));
                effects.push(Effect::ConnectSftp(idx));
            } else {
                view.status_message = Some(owned("Host not found."));
            }
        },
        AppAction::FmEnterDir => {
            let p = active_panel_ref(&view.file_manager);
            let target = match p.cursor_entry() {
                Some(e) => if e.is_dir {
                    Some(owned(e.path.as_str()))
                } else {
                    None
                },
                None => None,
            };
            match target {
                Some(path) => {
                    let cwd = owned(p.cwd.as_str());
                    set_pending_focus(&mut view.file_manager, Some(cwd));
                    effects.push(Effect::ListDir { remote, path });
                },
                None => {},
            }
        },
        AppAction::FmParentDir => {
            let p = active_panel_ref(&view.file_manager);
            let cwd = owned(p.cwd.as_str());
            match parent_dir(cwd.as_str()) {
                Some(parent) => {
                    set_pending_focus(&mut view.file_manager, Some(cwd));
                    effects.push(Effect::ListDir { remote, path: parent });
                },
                None => {},
            }
        },
        AppAction::FmConfirmDelete => {
            let popup = view.file_manager.popup.take();
            match popup {
                Some(FileManagerPopup::DeleteConfirm { paths }) => {
                    if remote {
                        view.file_manager.pending_ops = paths.len();
                    }
                    effects.push(Effect::DeletePaths { remote, paths });
                },
                _ => {},
            }
        },
        AppAction::FmConfirmMkDir(name) => {
            view.file_manager.popup = None;
            let p = active_panel_ref(&view.file_manager);
            let path = join_path(p.cwd.as_str(), name.as_str());
            effects.push(Effect::MakeDir { remote, path });
        },
        AppAction::FmConfirmRename(name) => {
            let popup = view.file_manager.popup.take();
            match popup {
                Some(FileManagerPopup::Rename { original_name, field }) => {
                    let p = active_panel_ref(&view.file_manager);
                    let from = join_path(p.cwd.as_str(), original_name.as_str());
                    let to = join_path(p.cwd.as_str(), name.as_str());
                    effects.push(Effect::RenamePath { remote, from, to });
                },
                _ => {},
            }
        },
        _ => {},
    }
    effects
}

/// Applies an input handler's action: changes the state and views as the
/// action asks, and gives the outside work to carry out. Dashboard filter,
/// sort and tag actions rebuild the host list, and its form and deletion
/// confirmations edit the hosts; the snippet form, deletion, search and
/// broadcast picking act on the snippets; the file panels move, mark, show
/// or hide hidden files, copy and prompt; the terminal actions open, close, switch and split tabs and
/// move pane focus; a screen switch resets the status; key setup is
/// offered and started, the quick-execute input opened, and quick views,
/// quick commands and snippet runs (after their hosts and parameters are
/// known) show pending results and ask for their commands to be run; the
/// file operations (entering a directory, going up, pasting, confirming a
/// delete, a new directory or a rename, picking the remote host) update
/// the file manager and ask for the listing, transfer or change. Grid
/// moves, which need the terminal's size, are handed on unchanged.
pub fn apply_action(state: &mut AppState, view: &mut ViewState, action: AppAction) -> (effects: Vec<Effect>)
    requires
        terminal_ok(old(view).terminal_view),
        host_forms_ok(old(view).host_list),
        snippet_forms_ok(old(view).snippets_view),
        paste_fits(*old(view)),
    ensures
        applied(*old(state), *final(state), *old(view), *final(view), action, effects),
{
    if is_terminal_action(&action) {
        apply_terminal_action(state, view, action)
    } else if is_files_action(&action) {
        apply_files_action(state, view, action)
    } else if is_snippets_action(&action) {
        apply_snippets_action(state, view, action)
    } else if is_hosts_action(&action) {
        apply_hosts_action(state, view, action)
    } else if is_service_action(&action) {
        apply_service_action(state, view, action)
    } else if is_run_action(&action) {
        apply_run_action(state, view, action)
    } else if is_file_op_action(&action) {
        apply_file_op_action(state, view, action)
    } else {
        let mut effects: Vec<Effect> = Vec::new();
        effects.push(Effect::Feature(action));
        effects
    }
}

/// What a background task reports to the main loop.
#[derive(Debug)]
pub enum CoreEvent {
    /// The host list was (re)loaded.
    HostsLoaded(Vec<Host>),
    /// New usage figures for a host; absent figures keep their last value.
    MetricsUpdate(String, MetricKeys),
    /// A host's connection status changed.
    HostStatusChanged(String, ConnectionStatus),
    /// The quick service scan of a host finished.
    DiscoveryQuickScanDone(String, Vec<ServiceKind>),
    /// The deep service probe of a host finished.
    DiscoveryDeepProbeDone(String, Vec<ServiceKind>),
    /// Service discovery failed for a host, with the error.
    DiscoveryFailed(String, String),
    /// SSH key setup of a host reached a step, described.
    KeySetupProgress(String, String),
    /// The snippet list was (re)loaded.
    SnippetsLoaded(Vec<Snippet>),
    /// SSH key setup finished for a host, with the key's path and the time
    /// it finished (RFC 3339).
    KeySetupComplete { host_name: String, key_path: String, completed_at: String },
    /// SSH key setup failed for a host, with the reason.
    KeySetupFailed(String, String),
    /// SSH key setup was rolled back for a host, with the outcome.
    KeySetupRollback(String, String),
    /// A terminal session produced output.
    PtyOutput(SessionId),
    /// A terminal session ended.
    PtyExited(SessionId),
}

/// `n` when it holds a value, else `o`.
pub open spec fn or_else<T>(n: Option<T>, o: Option<T>) -> Option<T> {
    if n is Some {
        n
    } else {
        o
    }
}

/// The texts and percentages of a process list.
pub open spec fn procs_view(p: Option<Vec<(String, i64, i64)>>) -> Option<Seq<(Seq<char>, i64, i64)>> {
    match p {
        Some(v) => Some(v@.map_values(|t: (String, i64, i64)| (t.0@, t.1, t.2))),
        None => None,
    }
}

/// `res` is a new reading `new` merged over the last one, if any: each
/// figure of `new`, or the last one where `new` has none; the reading time
/// is the new one.
pub open spec fn metrics_merged(last: Option<MetricKeys>, new: MetricKeys, res: MetricKeys) -> bool {
    match last {
        Some(o) => {
            &&& res.cpu_percent == or_else(new.cpu_percent, o.cpu_percent)
            &&& res.ram_percent == or_else(new.ram_percent, o.ram_percent)
            &&& res.disk_percent == or_else(new.disk_percent, o.disk_percent)
            &&& opt_view(res.uptime) == or_else(opt_view(new.uptime), opt_view(o.uptime))
            &&& opt_view(res.load_avg) == or_else(opt_view(new.load_avg), opt_view(o.load_avg))
            &&& opt_view(res.os_info) == or_else(opt_view(new.os_info), opt_view(o.os_info))
            &&& procs_view(res.top_processes) == or_else(procs_view(new.top_processes), procs_view(o.top_processes))
            &&& res.last_updated == new.last_updated
        },
        None => res == new,
    }
}

/// `n`, or a copy of `o` when `n` is absent.
fn text_or(n: Option<String>, o: &Option<String>) -> (res: Option<String>)
    ensures
        opt_view(res) == or_else(opt_view(n), opt_view(*o)),
{
    match n {
        Some(t) => Some(t),
        None => match o {
            Some(t) => Some(owned(t.as_str())),
            None => None,
        },
    }
}

/// `n`, or a copy of `o` when `n` is absent.
fn procs_or(n: Option<Vec<(String, i64, i64)>>, o: &Option<Vec<(String, i64, i64)>>) -> (res: Option<
    Vec<(String, i64, i64)>,
>)
    ensures
        procs_view(res) == or_else(procs_view(n), procs_view(*o)),
{
    match n {
        Some(v) => Some(v),
        None => match o {
            Some(v) => {
                let mut out: Vec<(String, i64, i64)> = Vec::new();
                let mut i: usize = 0;
                while i < v.len()
                    invariant
                        i <= v.len(),
                        out@.map_values(|t: (String, i64, i64)| (t.0@, t.1, t.2)) == v@.take(i as int).map_values(
                            |t: (String, i64, i64)| (t.0@, t.1, t.2),
                        ),
                    decreases v.len() - i,
                {
                    let ghost before = out@;
                    out.push((owned(v[i].0.as_str()), v[i].1, v[i].2));
                    assert(out@.map_values(|t: (String, i64, i64)| (t.0@, t.1, t.2)) =~= before.map_values(
                        |t: (String, i64, i64)| (t.0@, t.1, t.2),
                    ).push((v@[i as int].0@, v@[i as int].1, v@[i as int].2)));
                    assert(v@.take(i + 1) =~= v@.take(i as int).push(v@[i as int]));
                    i = i + 1;
                }
                assert(v@.take(v.len() as int) =~= v@);
                Some(out)
            },
            None => None,
        },
    }
}

/// A new reading merged over the last one.
fn merge_metrics(new: MetricKeys, last: Option<&MetricKeys>) -> (res: MetricKeys)
    ensures
        metrics_merged(
            match last {
                Some(o) => Some(*o),
                None => None,
            },
            new,
            res,
        ),
{
    match last {
        None => new,
        Some(o) => MetricKeys {
            cpu_percent: if new.cpu_percent.is_some() {
                new.cpu_percent
            } else {
                o.cpu_percent
            },
            ram_percent: if new.ram_percent.is_some() {
                new.ram_percent
            } else {
                o.ram_percent
            },
            disk_percent: if new.disk_percent.is_some() {
                new.disk_percent
            } else {
                o.disk_percent
            },
            uptime: text_or(new.uptime, &o.uptime),
            load_avg: text_or(new.load_avg, &o.load_avg),
            os_info: text_or(new.os_info, &o.os_info),
            top_processes: procs_or(new.top_processes, &o.top_processes),
            last_updated: new.last_updated,
        },
    }
}

/// The first part of an error message, up to its first `:`, trimmed.
pub open spec fn short_error(e: Seq<char>) -> Seq<char> {
    trim(split_on(e, ':')[0])
}

/// The index of the first host named `name`.
pub open spec fn host_named(hosts: Seq<Host>, name: Seq<char>) -> Option<int>
    decreases hosts.len(),
{
    if hosts.len() == 0 {
        None
    } else if hosts[0].name@ == name {
        Some(0)
    } else {
        match host_named(hosts.drop_first(), name) {
            Some(k) => Some(k + 1),
            None => None,
        }
    }
}

/// `host_named` is the first index with that name, or none when no host
/// has it.
proof fn lemma_host_named(hosts: Seq<Host>, name: Seq<char>, k: int)
    requires
        0 <= k <= hosts.len(),
        forall|j: int| 0 <= j < k ==> (#[trigger] hosts[j]).name@ != name,
    ensures
        k < hosts.len() && hosts[k].name@ == name ==> host_named(hosts, name) == Some(k),
        k == hosts.len() ==> host_named(hosts, name) is None,
    decreases k,
{
    if k > 0 {
        let t = hosts.drop_first();
        assert forall|j: int| 0 <= j < k - 1 implies (#[trigger] t[j]).name@ != name by {
            assert(t[j] == hosts[j + 1]);
        }
        lemma_host_named(t, name, k - 1);
        assert(hosts[0].name@ != name);
    }
}

/// Whether the list `l` gives `name` the value `v` and every other name its
/// value in `before`.
pub open spec fn set_in<V>(before: Seq<(String, V)>, l: Seq<(String, V)>, name: Seq<char>, v: V) -> bool {
    forall|k: Seq<char>|
        #![trigger lookup(l, k)]
        lookup(l, k) == if k == name {
            Some(v)
        } else {
            lookup(before, k)
        }
}

/// What an event does: the state and views after it, and the effects.
pub open spec fn event_outcome(
    st: AppState,
    fs: AppState,
    ov: ViewState,
    fv: ViewState,
    event: CoreEvent,
    effects: Vec<Effect>,
) -> bool {
    match event {
        CoreEvent::HostsLoaded(hosts) => {
            &&& effects@ == seq![Effect::RestartPolling]
            &&& fs == AppState { hosts: fs.hosts, ..st }
            &&& fs.hosts@ == hosts@
            &&& fv == ViewState { host_list: fv.host_list, ..ov }
            &&& rebuilt(ov.host_list, fv.host_list, fs)
        },
        CoreEvent::MetricsUpdate(name, m) => {
            &&& effects@.len() == 0
            &&& fs == AppState { metrics: fs.metrics, ..st }
            &&& exists|v: MetricKeys|
                #![trigger set_in(st.metrics@, fs.metrics@, name@, v)]
                set_in(st.metrics@, fs.metrics@, name@, v) && metrics_merged(lookup(st.metrics@, name@), m, v)
            &&& fv == ViewState { status_message: fv.status_message, ..ov }
            &&& fv.status_message == if ov.status_message matches Some(s) && s@ == "Refreshing metrics\u{2026}"@ {
                None::<String>
            } else {
                ov.status_message
            }
        },
        CoreEvent::HostStatusChanged(name, status) => {
            &&& effects@.len() == 0
            &&& fs == AppState { connection_statuses: fs.connection_statuses, ..st }
            &&& set_in(st.connection_statuses@, fs.connection_statuses@, name@, status)
            &&& fv == ViewState { status_message: fv.status_message, host_list: fv.host_list, ..ov }
            &&& match status {
                ConnectionStatus::Failed(e) => fv.status_message matches Some(msg) && msg@ == "Connection failed for '"@
                    + name@ + "': "@ + short_error(e@),
                _ => fv.status_message == ov.status_message,
            }
            &&& if ov.host_list.sort_order == SortOrder::Status {
                refiltered(ov.host_list, fv.host_list, fs)
            } else {
                fv.host_list == ov.host_list
            }
        },
        CoreEvent::DiscoveryQuickScanDone(name, services) => {
            &&& effects@.len() == 0
            &&& fs == AppState { services: fs.services, ..st }
            &&& set_in(st.services@, fs.services@, name@, services)
            &&& fv == ov
        },
        CoreEvent::DiscoveryDeepProbeDone(name, services) => {
            &&& effects@.len() == 0
            &&& fs == AppState { services: fs.services, ..st }
            &&& set_in(st.services@, fs.services@, name@, services)
            &&& fv == ov
        },
        CoreEvent::DiscoveryFailed(name, e) => {
            &&& effects@.len() == 0
            &&& fs == st
            &&& fv == ViewState { status_message: fv.status_message, ..ov }
            &&& fv.status_message matches Some(msg) && msg@ == "Discovery failed for '"@ + name@ + "': "@
                + short_error(e@)
        },
        CoreEvent::KeySetupProgress(name, step) => {
            &&& effects@.len() == 0
            &&& fs == st
            &&& fv == ViewState { host_list: fv.host_list, ..ov }
            &&& fv.host_list == HostListView { popup: fv.host_list.popup, ..ov.host_list }
            &&& fv.host_list.popup == match ov.host_list.popup {
                Some(HostPopup::KeySetupProgress { host_idx, host_name, current_step }) => if host_name@ == name@ {
                    Some(HostPopup::KeySetupProgress { host_idx, host_name, current_step: Some(step) })
                } else {
                    ov.host_list.popup
                },
                _ => ov.host_list.popup,
            }
        },
        CoreEvent::SnippetsLoaded(snippets) => {
            &&& effects@.len() == 0
            &&& fs == AppState { snippets: fs.snippets, ..st }
            &&& fs.snippets@ == snippets@
            &&& fv == ViewState { snippets_view: fv.snippets_view, ..ov }
            &&& fv.snippets_view == SnippetsView {
                filtered_indices: fv.snippets_view.filtered_indices,
                selected: fv.snippets_view.selected,
                ..ov.snippets_view
            }
            &&& fv.snippets_view.filtered_indices@ == matching_snippets(snippets@, ov.snippets_view.search_query@)
            &&& fv.snippets_view.selected == clamp_selection(
                ov.snippets_view.selected,
                fv.snippets_view.filtered_indices@.len(),
            )
        },
        CoreEvent::KeySetupComplete { host_name, key_path, completed_at } => {
            &&& effects@ == seq![Effect::SaveHosts]
            &&& fs == AppState { hosts: fs.hosts, ..st }
            &&& match host_named(st.hosts@, host_name@) {
                Some(i) => fs.hosts@ == st.hosts@.update(
                    i,
                    Host {
                        identity_file: Some(key_path),
                        key_setup_date: Some(completed_at),
                        password_auth_disabled: Some(true),
                        password: None,
                        ..st.hosts@[i]
                    },
                ),
                None => fs.hosts@ == st.hosts@,
            }
            &&& fv == ViewState {
                status_message: fv.status_message,
                host_list: HostListView { popup: None, ..ov.host_list },
                ..ov
            }
            &&& fv.status_message matches Some(msg) && msg@ == "\u{2713} SSH key setup complete for '"@ + host_name@
                + "'. Key: "@ + key_path@
        },
        CoreEvent::KeySetupFailed(name, err) => {
            &&& effects@.len() == 0
            &&& fs == st
            &&& fv == ViewState {
                status_message: fv.status_message,
                host_list: HostListView { popup: None, ..ov.host_list },
                ..ov
            }
            &&& fv.status_message matches Some(msg) && msg@ == "\u{2717} Key setup failed for '"@ + name@ + "': "@
                + err@
        },
        CoreEvent::KeySetupRollback(name, outcome) => {
            &&& effects@.len() == 0
            &&& fs == st
            &&& fv == ViewState {
                status_message: fv.status_message,
                host_list: HostListView { popup: None, ..ov.host_list },
                ..ov
            }
            &&& fv.status_message matches Some(msg) && msg@ == "\u{26a0} Key setup rolled back for '"@ + name@
                + "': "@ + outcome@
        },
        CoreEvent::PtyOutput(id) => {
            let tv = ov.terminal_view;
            let i = focused_index(tv.split, tv.split_focus, tv.active_tab);
            let focused = i < tv.tabs.len() && tv.tabs@[i as int].session_id == id;
            &&& effects@.len() == 0
            &&& fs == st
            &&& fv == ViewState { terminal_view: fv.terminal_view, ..ov }
            &&& fv.terminal_view == TerminalView { tabs: fv.terminal_view.tabs, ..tv }
            &&& fv.terminal_view.tabs@ == match tab_of_session(tv.tabs@, id) {
                Some(k) => if focused {
                    tv.tabs@
                } else {
                    tv.tabs@.update(k, TermTab { has_activity: true, ..tv.tabs@[k] })
                },
                None => tv.tabs@,
            }
        },
        CoreEvent::PtyExited(id) => {
            let tv = ov.terminal_view;
            let ftv = fv.terminal_view;
            &&& effects@ == seq![Effect::CloseSession(id)]
            &&& fv.host_list == ov.host_list
            &&& fv.snippets_view == ov.snippets_view
            &&& match tab_of_session(tv.tabs@, id) {
                Some(k) => {
                    &&& ftv.tabs@ == tv.tabs@.remove(k)
                    &&& ftv.split is None
                    &&& ftv.split_focus == SplitFocus::Primary
                    &&& ftv.active_tab == active_after_removal(tv.active_tab, ftv.tabs.len() as nat)
                    &&& ftv.host_picker == tv.host_picker
                    &&& ftv.tab_select_mode == tv.tab_select_mode
                    &&& if ftv.tabs.len() == 0 {
                        &&& fs == AppState { screen: Screen::Dashboard, ..st }
                        &&& fv.status_message matches Some(msg) && msg@ == "SSH session closed."@
                    } else {
                        fs == st && fv.status_message == ov.status_message
                    }
                },
                None => fs == st && fv == ov,
            }
        },
    }
}

/// The first part of an error message, up to its first `:`, trimmed.
fn short_error_of(e: &str) -> (res: Vec<char>)
    ensures
        res@ == short_error(e@),
{
    let cs = chars_of(e);
    let parts = split_chars(&cs, ':');
    proof {
        crate::text::lemma_split_nonempty(cs@, ':');
        assert(parts@.map_values(|p: Vec<char>| p@)[0] == parts@[0]@);
    }
    trim_chars(&parts[0])
}

/// Applies a background task's event: takes in reloaded hosts and snippets,
/// merges metrics, records statuses and discovered services, reports
/// failures, follows and finishes key setup, and tracks terminal sessions,
/// giving the outside work to carry out.
pub fn apply_event(state: &mut AppState, view: &mut ViewState, event: CoreEvent) -> (effects: Vec<Effect>)
    requires
        terminal_ok(old(view).terminal_view),
    ensures
        terminal_ok(final(view).terminal_view),
        event_outcome(*old(state), *final(state), *old(view), *final(view), event, effects),
{
    let mut effects: Vec<Effect> = Vec::new();
    match event {
        CoreEvent::HostsLoaded(hosts) => {
            state.hosts = hosts;
            view.host_list.rebuild_filter(&state.hosts, &state.metrics, &state.connection_statuses);
            view.host_list.rebuild_tags(&state.hosts);
            effects.push(Effect::RestartPolling);
        },
        CoreEvent::MetricsUpdate(name, m) => {
            let ghost gname = name@;
            let merged = merge_metrics(m, metrics_lookup(&state.metrics, name.as_str()));
            let ghost gm = merged;
            set_value(&mut state.metrics, name, merged);
            assert(set_in(old(state).metrics@, state.metrics@, gname, gm));
            let clear = match &view.status_message {
                Some(s) => str_eq(s.as_str(), "Refreshing metrics\u{2026}"),
                None => false,
            };
            if clear {
                view.status_message = None;
            }
        },
        CoreEvent::HostStatusChanged(name, status) => {
            let failed = match &status {
                ConnectionStatus::Failed(e) => Some(short_error_of(e.as_str())),
                _ => None,
            };
            match failed {
                Some(short) => {
                    let mut msg: Vec<char> = Vec::new();
                    append_str(&mut msg, "Connection failed for '");
                    append_str(&mut msg, name.as_str());
                    append_str(&mut msg, "': ");
                    append_chars(&mut msg, &short);
                    view.status_message = Some(string_of(&msg));
                },
                None => {},
            }
            set_value(&mut state.connection_statuses, name, status);
            if view.host_list.sort_order == SortOrder::Status {
                view.host_list.rebuild_filter(&state.hosts, &state.metrics, &state.connection_statuses);
            }
        },
        CoreEvent::DiscoveryQuickScanDone(name, services) => {
            set_value(&mut state.services, name, services);
        },
        CoreEvent::DiscoveryDeepProbeDone(name, services) => {
            set_value(&mut state.services, name, services);
        },
        CoreEvent::DiscoveryFailed(name, e) => {
            let short = short_error_of(e.as_str());
            let mut msg: Vec<char> = Vec::new();
            append_str(&mut msg, "Discovery failed for '");
            append_str(&mut msg, name.as_str());
            append_str(&mut msg, "': ");
            append_chars(&mut msg, &short);
            view.status_message = Some(string_of(&msg));
        },
        CoreEvent::KeySetupProgress(name, step) => {
            let popup = view.host_list.popup.take();
            view.host_list.popup = match popup {
                Some(HostPopup::KeySetupProgress { host_idx, host_name, current_step }) => {
                    if str_eq(host_name.as_str(), name.as_str()) {
                        Some(HostPopup::KeySetupProgress { host_idx, host_name, current_step: Some(step) })
                    } else {
                        Some(HostPopup::KeySetupProgress { host_idx, host_name, current_step })
                    }
                },
                other => other,
            };
        },
        CoreEvent::SnippetsLoaded(snippets) => {
            state.snippets = snippets;
            let q = owned(view.snippets_view.search_query.as_str());
            view.snippets_view.rebuild_filter(state.snippets.as_slice(), q.as_str());
        },
        CoreEvent::KeySetupComplete { host_name, key_path, completed_at } => {
            let mut msg: Vec<char> = Vec::new();
            append_str(&mut msg, "\u{2713} SSH key setup complete for '");
            append_str(&mut msg, host_name.as_str());
            append_str(&mut msg, "'. Key: ");
            append_str(&mut msg, key_path.as_str());
            let mut i: usize = 0;
            while i < state.hosts.len() && !str_eq(state.hosts[i].name.as_str(), host_name.as_str())
                invariant
                    i <= state.hosts.len(),
                    state.hosts@ == old(state).hosts@,
                    forall|j: int| 0 <= j < i ==> (#[trigger] state.hosts@[j]).name@ != host_name@,
                decreases state.hosts.len() - i,
            {
                i = i + 1;
            }
            proof {
                lemma_host_named(state.hosts@, host_name@, i as int);
            }
            if i < state.hosts.len() {
                let ghost before = state.hosts@;
                let mut h = state.hosts.remove(i);
                h.identity_file = Some(key_path);
                h.key_setup_date = Some(completed_at);
                h.password_auth_disabled = Some(true);
                h.password = None;
                state.hosts.insert(i, h);
                assert(state.hosts@ =~= before.update(i as int, state.hosts@[i as int]));
            }
            view.host_list.popup = None;
            view.status_message = Some(string_of(&msg));
            effects.push(Effect::SaveHosts);
        },
        CoreEvent::KeySetupFailed(name, err) => {
            view.host_list.popup = None;
            let mut msg: Vec<char> = Vec::new();
            append_str(&mut msg, "\u{2717} Key setup failed for '");
            append_str(&mut msg, name.as_str());
            append_str(&mut msg, "': ");
            append_str(&mut msg, err.as_str());
            view.status_message = Some(string_of(&msg));
        },
        CoreEvent::KeySetupRollback(name, outcome) => {
            view.host_list.popup = None;
            let mut msg: Vec<char> = Vec::new();
            append_str(&mut msg, "\u{26a0} Key setup rolled back for '");
            append_str(&mut msg, name.as_str());
            append_str(&mut msg, "': ");
            append_str(&mut msg, outcome.as_str());
            view.status_message = Some(string_of(&msg));
        },
        CoreEvent::PtyOutput(id) => {
            proof {
                lemma_tab_of_session_bounds(view.terminal_view.tabs@, id);
            }
            view.terminal_view.mark_activity(id);
        },
        CoreEvent::PtyExited(id) => {
            proof {
                lemma_tab_of_session_bounds(view.terminal_view.tabs@, id);
            }
            effects.push(Effect::CloseSession(id));
            if view.terminal_view.remove_session(id) {
                if view.terminal_view.tabs.len() == 0 {
                    state.screen = Screen::Dashboard;
                    view.status_message = Some(owned("SSH session closed."));
                }
            }
        },
    }
    effects
}

} // verus!
