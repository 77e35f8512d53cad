//! The requests that input handlers make of the main loop, and the
//! application state those requests act on.

use vstd::prelude::*;

use crate::host::{ConnectionStatus, Host};
use crate::host_list::MetricKeys;
use crate::screen::Screen;
use crate::services::ServiceKind;
use crate::snippets::Snippet;

verus! {

/// Direction of a move on the dashboard grid.
#[derive(Debug, Clone, Copy, PartialEq, Eq, Structural)]
pub enum NavDir {
    Up,
    Down,
    Left,
    Right,
}

/// What an input handler asks the main loop to do; the main loop alone
/// changes the state.
#[derive(Debug)]
pub enum AppAction {
    /// Exit the application.
    Quit,
    /// Connect to the host at this index with the system SSH client.
    ConnectAt(usize),
    /// Open the edit popup for the selected host.
    OpenEditPopup,
    /// The deletion was confirmed.
    ConfirmDelete,
    /// The add/edit form was confirmed.
    ConfirmForm,
    /// Reload the hosts from disk and the SSH config.
    ReloadHosts,
    /// The search query changed.
    SearchQueryChanged,
    /// Refresh the metrics of every polled host now.
    RefreshMetrics,
    /// Move to the next dashboard sort order.
    CycleSortOrder,
    /// Open or close the tag filter popup.
    OpenTagFilter,
    /// Apply a tag filter; `None` clears it.
    TagFilterSelected(Option<String>),
    /// Move on the dashboard grid.
    DashboardNav(NavDir),
    /// Start SSH key setup for the selected host.
    StartKeySetup,
    /// Key setup was confirmed for the host at this index.
    ConfirmKeySetup(usize),
    /// Key setup was cancelled.
    CancelKeySetup,
    /// Open the detail view of the selected host.
    OpenDetailView,
    /// Close the detail view.
    CloseDetailView,
    /// Connect from the detail view.
    ConnectFromDetailView,
    /// Show the quick view of a service.
    ShowQuickView(ServiceKind),
    /// Open the snippet add form.
    OpenSnippetAdd,
    /// Open the snippet edit form.
    OpenSnippetEdit,
    /// Ask to confirm deleting the selected snippet.
    OpenSnippetDeleteConfirm,
    /// The snippet form was confirmed.
    ConfirmSnippetForm,
    /// The snippet deletion was confirmed.
    ConfirmSnippetDelete,
    /// The snippet search query changed.
    SnippetSearchChanged,
    /// Run a snippet on the named hosts; none means the host is resolved
    /// automatically.
    ExecuteSnippet { snippet_idx: usize, host_names: Vec<String> },
    /// Open the broadcast host picker.
    OpenBroadcastPicker,
    /// Toggle a host in the broadcast picker.
    ToggleBroadcastHost(usize),
    /// Start the broadcast on the checked hosts.
    ConfirmBroadcast,
    /// Open the quick-execute input.
    OpenQuickExecute,
    /// Run an ad-hoc command on a host.
    QuickExecute { host_name: String, command: String },
    /// The parameter values were confirmed.
    ConfirmParamInput,
    /// Close the snippet results popup.
    DismissSnippetResult,
    /// Move the file cursor up.
    FmNavUp,
    /// Move the file cursor down.
    FmNavDown,
    /// Switch the focused file panel.
    FmSwitchPanel,
    /// Enter the directory under the cursor.
    FmEnterDir,
    /// Go to the parent directory.
    FmParentDir,
    /// Toggle the mark of the entry under the cursor.
    FmMarkFile,
    /// Open the host picker of the remote panel.
    FmOpenHostPicker,
    /// A host was chosen in the file manager's host picker.
    FmHostPickerSelect(usize),
    /// Copy the marked or cursor items.
    FmCopy,
    /// Paste the clipboard into the focused panel.
    FmPaste,
    /// Ask to confirm deleting the marked or cursor items.
    FmOpenDeleteConfirm,
    /// The deletion was confirmed.
    FmConfirmDelete,
    /// Open the new-directory input.
    FmOpenMkDir,
    /// Toggle hidden files in the focused panel.
    FmToggleHidden,
    /// Create a directory with this name.
    FmConfirmMkDir(String),
    /// Open the rename input.
    FmOpenRename,
    /// Rename to this name.
    FmConfirmRename(String),
    /// Close the file manager popup.
    FmClosePopup,
    /// Move in the file manager's host picker (+1 down, -1 up).
    FmHostPickerNav(i8),
    /// Open the host picker for a new terminal tab.
    TermOpenHostPicker,
    /// Move in the terminal host picker (+1 down, -1 up).
    TermHostPickerNav(i8),
    /// A host was chosen in the terminal host picker.
    TermHostPickerSelect(usize),
    /// Close the terminal host picker.
    TermCloseHostPicker,
    /// Close the active terminal tab.
    TermCloseTab,
    /// Switch to the tab at this index.
    TermSwitchTab(usize),
    /// Toggle a vertical split.
    TermSplitVertical,
    /// Toggle a horizontal split.
    TermSplitHorizontal,
    /// Move focus to the other pane.
    TermFocusNextPane,
    /// Send these bytes to the focused session.
    TermInput(Vec<u8>),
    /// Switch to a screen from the terminal.
    SwitchScreen(Screen),
    /// Replace the focused pane's session with one on another host.
    TermSwitchPaneHost,
}

/// The application data shared between the interface and the background
/// tasks.
#[derive(Debug, Default)]
pub struct AppState {
    /// The screen shown.
    pub screen: Screen,
    /// Every host, added by hand or imported from the SSH config.
    pub hosts: Vec<Host>,
    /// Connection status per host name.
    pub connection_statuses: Vec<(String, ConnectionStatus)>,
    /// Live usage figures per host name.
    pub metrics: Vec<(String, MetricKeys)>,
    /// Saved command snippets.
    pub snippets: Vec<Snippet>,
    /// Detected services per host name.
    pub services: Vec<(String, Vec<ServiceKind>)>,
}

} // verus!
