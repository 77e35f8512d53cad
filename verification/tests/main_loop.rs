use omnyssh::action::{AppAction, AppState, NavDir};
use omnyssh::file_manager::{FileEntry, FileManagerPopup, FmClipboard, FmPanel};
use omnyssh::dispatch::{apply_action, apply_event, CoreEvent, Effect, ViewState};
use omnyssh::host::{ConnectionStatus, Host, HostForm};
use omnyssh::host_list::{HostPopup, MetricKeys};
use omnyssh::screen::Screen;
use omnyssh::services::ServiceKind;
use omnyssh::snippets::{Snippet, SnippetForm, SnippetPopup, SnippetScope};
use omnyssh::terminal::{SplitDirection, SplitFocus, SplitView, TermTab};

fn tab(id: u64, name: &str) -> TermTab {
    TermTab {
        session_id: id,
        host_name: name.to_string(),
        has_activity: false,
        scroll_offset: 0,
    }
}

fn with_tabs(n: u64) -> ViewState {
    let mut view = ViewState::default();
    for i in 0..n {
        view.terminal_view.tabs.push(tab(i + 1, "h"));
    }
    view
}

#[test]
fn split_needs_two_tabs_then_toggles() {
    let mut state = AppState::default();
    let mut view = with_tabs(1);
    let fx = apply_action(&mut state, &mut view, AppAction::TermSplitVertical);
    assert!(fx.is_empty());
    assert!(view.terminal_view.split.is_none());
    assert_eq!(
        view.status_message.as_deref(),
        Some("Need at least 2 tabs to split. Open another tab with Ctrl+T.")
    );

    let mut view = with_tabs(3);
    view.terminal_view.active_tab = 2;
    apply_action(&mut state, &mut view, AppAction::TermSplitVertical);
    assert_eq!(
        view.terminal_view.split,
        Some(SplitView { direction: SplitDirection::Vertical, secondary_tab: 0 })
    );
    apply_action(&mut state, &mut view, AppAction::TermFocusNextPane);
    assert_eq!(view.terminal_view.split_focus, SplitFocus::Secondary);
    apply_action(&mut state, &mut view, AppAction::TermSplitHorizontal);
    assert_eq!(
        view.terminal_view.split,
        Some(SplitView { direction: SplitDirection::Horizontal, secondary_tab: 0 })
    );
    assert_eq!(view.terminal_view.split_focus, SplitFocus::Primary);
    apply_action(&mut state, &mut view, AppAction::TermSplitHorizontal);
    assert!(view.terminal_view.split.is_none());
}

#[test]
fn closing_the_last_tab_returns_to_the_dashboard() {
    let mut state = AppState { screen: Screen::Terminal, ..AppState::default() };
    let mut view = with_tabs(2);
    view.terminal_view.active_tab = 1;
    let fx = apply_action(&mut state, &mut view, AppAction::TermCloseTab);
    assert!(matches!(fx.as_slice(), [Effect::CloseSession(2)]));
    assert_eq!(view.terminal_view.active_tab, 0);
    assert_eq!(state.screen, Screen::Terminal);
    let fx = apply_action(&mut state, &mut view, AppAction::TermCloseTab);
    assert!(matches!(fx.as_slice(), [Effect::CloseSession(1)]));
    assert!(view.terminal_view.tabs.is_empty());
    assert_eq!(state.screen, Screen::Dashboard);
}

#[test]
fn switching_tabs_clears_activity_and_input_goes_to_the_focused_tab() {
    let mut state = AppState::default();
    let mut view = with_tabs(3);
    view.terminal_view.tabs[2].has_activity = true;
    view.terminal_view.tabs[2].scroll_offset = 7;
    apply_action(&mut state, &mut view, AppAction::TermSwitchTab(2));
    assert_eq!(view.terminal_view.active_tab, 2);
    assert!(!view.terminal_view.tabs[2].has_activity);
    let fx = apply_action(&mut state, &mut view, AppAction::TermInput(b"ls".to_vec()));
    assert!(matches!(fx.as_slice(), [Effect::Write(3, b)] if b == b"ls"));
    assert_eq!(view.terminal_view.tabs[2].scroll_offset, 0);
    apply_action(&mut state, &mut view, AppAction::TermSwitchTab(9));
    assert_eq!(view.terminal_view.active_tab, 2);
}

#[test]
fn host_picker_opens_moves_and_selects() {
    let mut state = AppState::default();
    state.hosts.push(Host { name: "a".into(), ..Host::default() });
    state.hosts.push(Host { name: "b".into(), ..Host::default() });
    let mut view = ViewState::default();
    let fx = apply_action(&mut state, &mut view, AppAction::SwitchScreen(Screen::Terminal));
    assert!(fx.is_empty());
    assert_eq!(state.screen, Screen::Terminal);
    assert!(view.terminal_view.host_picker.is_some());
    apply_action(&mut state, &mut view, AppAction::TermHostPickerNav(1));
    apply_action(&mut state, &mut view, AppAction::TermHostPickerNav(1));
    assert_eq!(view.terminal_view.host_picker.unwrap().cursor, 1);
    let fx = apply_action(&mut state, &mut view, AppAction::TermHostPickerSelect(1));
    assert!(matches!(fx.as_slice(), [Effect::OpenTab(1)]));
    assert!(view.terminal_view.host_picker.is_none());
    apply_action(&mut state, &mut view, AppAction::TermSwitchPaneHost);
    let fx = apply_action(&mut state, &mut view, AppAction::TermHostPickerSelect(0));
    assert!(matches!(fx.as_slice(), [Effect::SwitchPaneHost(0)]));
    apply_action(&mut state, &mut view, AppAction::TermCloseHostPicker);
    assert_eq!(state.screen, Screen::Dashboard);
}

#[test]
fn broadcast_picker_toggles_hosts() {
    let mut state = AppState::default();
    let mut view = ViewState::default();
    view.snippets_view.filtered_indices = vec![4];
    apply_action(&mut state, &mut view, AppAction::OpenBroadcastPicker);
    apply_action(&mut state, &mut view, AppAction::ToggleBroadcastHost(2));
    apply_action(&mut state, &mut view, AppAction::ToggleBroadcastHost(5));
    apply_action(&mut state, &mut view, AppAction::ToggleBroadcastHost(2));
    match &view.snippets_view.popup {
        Some(SnippetPopup::BroadcastPicker { snippet_idx, selected_host_indices, cursor }) => {
            assert_eq!(*snippet_idx, 4);
            assert_eq!(selected_host_indices, &vec![5]);
            assert_eq!(*cursor, 0);
        }
        _ => panic!("picker expected"),
    }
}

#[test]
fn other_actions_go_to_their_feature() {
    let mut state = AppState::default();
    let mut view = ViewState::default();
    let fx = apply_action(&mut state, &mut view, AppAction::DashboardNav(NavDir::Down));
    assert!(matches!(fx.as_slice(), [Effect::Feature(AppAction::DashboardNav(NavDir::Down))]));
    let fx = apply_action(&mut state, &mut view, AppAction::ReloadHosts);
    assert!(matches!(fx.as_slice(), [Effect::ReloadHosts]));
    assert_eq!(view.status_message.as_deref(), Some("Reloading hosts\u{2026}"));
}

#[test]
fn metrics_update_merges_and_clears_the_banner() {
    let mut state = AppState::default();
    let mut view = ViewState::default();
    view.status_message = Some("Refreshing metrics\u{2026}".to_string());
    apply_event(
        &mut state,
        &mut view,
        CoreEvent::MetricsUpdate("web".into(), MetricKeys { cpu_percent: Some(10), ram_percent: Some(20), ..MetricKeys::default() }),
    );
    apply_event(
        &mut state,
        &mut view,
        CoreEvent::MetricsUpdate("web".into(), MetricKeys { cpu_percent: Some(30), ram_percent: None, ..MetricKeys::default() }),
    );
    assert_eq!(state.metrics.len(), 1);
    assert_eq!(state.metrics[0].1, MetricKeys { cpu_percent: Some(30), ram_percent: Some(20), ..MetricKeys::default() });
    assert!(view.status_message.is_none());
}

#[test]
fn failed_status_shows_the_short_error() {
    let mut state = AppState::default();
    let mut view = ViewState::default();
    apply_event(
        &mut state,
        &mut view,
        CoreEvent::HostStatusChanged("db".into(), ConnectionStatus::Failed(" timeout : os error 110".into())),
    );
    assert_eq!(view.status_message.as_deref(), Some("Connection failed for 'db': timeout"));
    assert_eq!(state.connection_statuses.len(), 1);
}

#[test]
fn key_setup_complete_updates_the_host() {
    let mut state = AppState::default();
    state.hosts.push(Host {
        name: "web".into(),
        password: Some("pw".into()),
        ..Host::default()
    });
    let mut view = ViewState::default();
    view.host_list.popup = Some(HostPopup::KeySetupConfirm(0));
    let fx = apply_event(
        &mut state,
        &mut view,
        CoreEvent::KeySetupComplete {
            host_name: "web".into(),
            key_path: "/k/id".into(),
            completed_at: "2024-01-01T00:00:00Z".into(),
        },
    );
    assert!(matches!(fx.as_slice(), [Effect::SaveHosts]));
    let h = &state.hosts[0];
    assert_eq!(h.identity_file.as_deref(), Some("/k/id"));
    assert_eq!(h.key_setup_date.as_deref(), Some("2024-01-01T00:00:00Z"));
    assert_eq!(h.password_auth_disabled, Some(true));
    assert!(h.password.is_none());
    assert!(view.host_list.popup.is_none());
    assert_eq!(
        view.status_message.as_deref(),
        Some("\u{2713} SSH key setup complete for 'web'. Key: /k/id")
    );
}

#[test]
fn pty_exit_removes_its_tab() {
    let mut state = AppState { screen: Screen::Terminal, ..AppState::default() };
    let mut view = with_tabs(2);
    view.terminal_view.split = Some(SplitView { direction: SplitDirection::Vertical, secondary_tab: 1 });
    apply_event(&mut state, &mut view, CoreEvent::PtyOutput(2));
    assert!(view.terminal_view.tabs[1].has_activity);
    let fx = apply_event(&mut state, &mut view, CoreEvent::PtyExited(1));
    assert!(matches!(fx.as_slice(), [Effect::CloseSession(1)]));
    assert_eq!(view.terminal_view.tabs.len(), 1);
    assert!(view.terminal_view.split.is_none());
    apply_event(&mut state, &mut view, CoreEvent::PtyExited(2));
    assert_eq!(state.screen, Screen::Dashboard);
    assert_eq!(view.status_message.as_deref(), Some("SSH session closed."));
}

#[test]
fn file_manager_copy_switch_and_delete_prompt() {
    let mut state = AppState::default();
    let mut view = ViewState::default();
    let fx = apply_action(&mut state, &mut view, AppAction::FmCopy);
    assert!(fx.is_empty());
    assert_eq!(view.status_message.as_deref(), Some("Nothing to copy."));
    apply_action(&mut state, &mut view, AppAction::FmOpenDeleteConfirm);
    assert_eq!(view.status_message.as_deref(), Some("Nothing to delete."));

    view.file_manager.local.entries = vec![
        FileEntry { name: "..".into(), path: "/".into(), size: 0, is_dir: true },
        FileEntry { name: "a.txt".into(), path: "/home/a.txt".into(), size: 3, is_dir: false },
    ];
    let fx = apply_action(&mut state, &mut view, AppAction::FmNavDown);
    assert!(matches!(fx.as_slice(), [Effect::RequestPreview]));
    assert_eq!(view.file_manager.local.cursor, 1);
    apply_action(&mut state, &mut view, AppAction::FmCopy);
    let clip = view.file_manager.clipboard.as_ref().unwrap();
    assert_eq!(clip.paths, vec!["/home/a.txt".to_string()]);
    assert_eq!(clip.source_panel, FmPanel::Local);
    apply_action(&mut state, &mut view, AppAction::FmOpenDeleteConfirm);
    assert!(matches!(
        &view.file_manager.popup,
        Some(FileManagerPopup::DeleteConfirm { paths }) if paths == &vec!["/home/a.txt".to_string()]
    ));
    apply_action(&mut state, &mut view, AppAction::FmClosePopup);
    assert!(view.file_manager.popup.is_none());
    apply_action(&mut state, &mut view, AppAction::FmSwitchPanel);
    assert_eq!(view.file_manager.active_panel, FmPanel::Remote);
    apply_action(&mut state, &mut view, AppAction::FmNavUp);
    assert_eq!(view.file_manager.remote.cursor, 0);
}

#[test]
fn host_delete_confirmation_removes_and_saves() {
    let mut state = AppState::default();
    state.hosts.push(Host { name: "a".into(), ..Host::default() });
    state.hosts.push(Host { name: "b".into(), ..Host::default() });
    let mut view = ViewState::default();
    view.host_list.popup = Some(HostPopup::DeleteConfirm(0));
    let fx = apply_action(&mut state, &mut view, AppAction::ConfirmDelete);
    assert!(matches!(fx.as_slice(), [Effect::SaveHosts]));
    assert_eq!(state.hosts.len(), 1);
    assert_eq!(state.hosts[0].name, "b");
    assert_eq!(view.status_message.as_deref(), Some("Deleted 'a'."));
    assert!(view.host_list.popup.is_none());
}

#[test]
fn file_manager_marks_and_opens_name_prompts() {
    let mut state = AppState::default();
    let mut view = ViewState::default();
    view.file_manager.local.entries = vec![
        FileEntry { name: "..".into(), path: "/".into(), size: 0, is_dir: true },
        FileEntry { name: "b.txt".into(), path: "/home/b.txt".into(), size: 1, is_dir: false },
    ];
    apply_action(&mut state, &mut view, AppAction::FmMarkFile);
    assert!(view.file_manager.local.marked.is_empty());
    apply_action(&mut state, &mut view, AppAction::FmOpenRename);
    assert!(view.file_manager.popup.is_none());
    view.file_manager.local.cursor = 1;
    apply_action(&mut state, &mut view, AppAction::FmMarkFile);
    assert!(view.file_manager.local.marked.contains("/home/b.txt"));
    apply_action(&mut state, &mut view, AppAction::FmMarkFile);
    assert!(view.file_manager.local.marked.is_empty());
    apply_action(&mut state, &mut view, AppAction::FmOpenRename);
    match &view.file_manager.popup {
        Some(FileManagerPopup::Rename { original_name, field }) => {
            assert_eq!(original_name, "b.txt");
            assert_eq!(field.value, "b.txt");
            assert_eq!(field.cursor, 5);
        }
        _ => panic!("rename prompt expected"),
    }
    apply_action(&mut state, &mut view, AppAction::FmOpenMkDir);
    assert!(matches!(&view.file_manager.popup, Some(FileManagerPopup::MkDir(f)) if f.value.is_empty()));
}

#[test]
fn host_form_confirmation_adds_saves_and_restarts_polling() {
    let mut state = AppState::default();
    let mut view = ViewState::default();
    let mut form = HostForm::empty();
    form.fields[0].value = "web".to_string();
    form.fields[1].value = "10.0.0.1".to_string();
    form.fields[2].value = "root".to_string();
    form.fields[3].value = "22".to_string();
    view.host_list.popup = Some(HostPopup::Add(form));
    let fx = apply_action(&mut state, &mut view, AppAction::ConfirmForm);
    assert!(matches!(fx.as_slice(), [Effect::SaveHosts, Effect::RestartPolling]));
    assert_eq!(state.hosts.len(), 1);
    assert_eq!(state.hosts[0].name, "web");
    assert_eq!(view.status_message.as_deref(), Some("Host added."));
    assert!(view.host_list.popup.is_none());
}

#[test]
fn snippet_form_confirmation_adds_and_saves() {
    let mut state = AppState::default();
    let mut view = ViewState::default();
    let mut form = SnippetForm::empty();
    form.fields[0].value = "uptime".to_string();
    form.fields[1].value = "uptime -p".to_string();
    view.snippets_view.popup = Some(SnippetPopup::Add(form));
    let fx = apply_action(&mut state, &mut view, AppAction::ConfirmSnippetForm);
    assert!(matches!(fx.as_slice(), [Effect::SaveSnippets]));
    assert_eq!(state.snippets.len(), 1);
    assert_eq!(view.status_message.as_deref(), Some("Snippet added."));
}

#[test]
fn discovery_failure_progress_and_snippet_reload() {
    let mut state = AppState::default();
    let mut view = ViewState::default();
    apply_event(
        &mut state,
        &mut view,
        CoreEvent::DiscoveryFailed("db".into(), "ssh: connect refused".into()),
    );
    assert_eq!(view.status_message.as_deref(), Some("Discovery failed for 'db': ssh"));
    view.host_list.popup = Some(HostPopup::KeySetupProgress {
        host_idx: 0,
        host_name: "db".into(),
        current_step: None,
    });
    apply_event(&mut state, &mut view, CoreEvent::KeySetupProgress("db".into(), "Copying key".into()));
    assert!(matches!(
        &view.host_list.popup,
        Some(HostPopup::KeySetupProgress { current_step: Some(s), .. }) if s == "Copying key"
    ));
    let snippet = Snippet {
        name: "up".into(),
        command: "uptime".into(),
        scope: SnippetScope::Global,
        host: None,
        tags: None,
        params: None,
    };
    apply_event(&mut state, &mut view, CoreEvent::SnippetsLoaded(vec![snippet]));
    assert_eq!(state.snippets.len(), 1);
    assert_eq!(view.snippets_view.filtered_indices, vec![0]);
}

#[test]
fn metrics_update_merges_every_figure() {
    let mut state = AppState::default();
    let mut view = ViewState::default();
    let first = MetricKeys {
        disk_percent: Some(4000),
        uptime: Some("3 days".into()),
        load_avg: Some("0.1 0.2 0.3".into()),
        os_info: Some("Linux".into()),
        top_processes: Some(vec![("nginx".into(), 120, 300)]),
        last_updated: 1,
        ..MetricKeys::default()
    };
    apply_event(&mut state, &mut view, CoreEvent::MetricsUpdate("web".into(), first));
    let second = MetricKeys { cpu_percent: Some(50), uptime: Some("4 days".into()), last_updated: 2, ..MetricKeys::default() };
    apply_event(&mut state, &mut view, CoreEvent::MetricsUpdate("web".into(), second));
    let m = &state.metrics[0].1;
    assert_eq!(m.cpu_percent, Some(50));
    assert_eq!(m.disk_percent, Some(4000));
    assert_eq!(m.uptime.as_deref(), Some("4 days"));
    assert_eq!(m.load_avg.as_deref(), Some("0.1 0.2 0.3"));
    assert_eq!(m.os_info.as_deref(), Some("Linux"));
    assert_eq!(m.top_processes, Some(vec![("nginx".to_string(), 120, 300)]));
    assert_eq!(m.last_updated, 2);
}

#[test]
fn key_setup_offer_quick_execute_and_quick_view() {
    let mut state = AppState::default();
    let mut view = ViewState::default();
    let fx = apply_action(&mut state, &mut view, AppAction::OpenQuickExecute);
    assert!(fx.is_empty());
    assert_eq!(view.status_message.as_deref(), Some("No host selected."));
    apply_action(&mut state, &mut view, AppAction::ShowQuickView(ServiceKind::Redis));
    match &view.snippets_view.popup {
        Some(SnippetPopup::Results { entries, scroll }) => {
            assert_eq!(*scroll, 0);
            assert_eq!(entries[0].host_name, "(no selection)");
            assert_eq!(entries[0].snippet_name, "Quick View: Redis");
            assert_eq!(entries[0].output, Err("No host selected.".to_string()));
        }
        _ => panic!("results expected"),
    }

    state.hosts.push(Host { name: "web".into(), password: Some("pw".into()), ..Host::default() });
    view.host_list.filtered_indices = vec![0];
    apply_action(&mut state, &mut view, AppAction::StartKeySetup);
    assert!(matches!(view.host_list.popup, Some(HostPopup::KeySetupConfirm(0))));
    apply_action(&mut state, &mut view, AppAction::OpenQuickExecute);
    assert!(matches!(
        &view.snippets_view.popup,
        Some(SnippetPopup::QuickExecuteInput { host_name, .. }) if host_name == "web"
    ));
    let fx = apply_action(&mut state, &mut view, AppAction::ShowQuickView(ServiceKind::Docker));
    match fx.as_slice() {
        [Effect::RunCommand { host_idx, command, snippet_name }] => {
            assert_eq!(*host_idx, 0);
            assert_eq!(command, "docker compose ps -a 2>/dev/null || docker ps -a");
            assert_eq!(snippet_name, "Quick View: Docker Containers");
        }
        _ => panic!("run expected"),
    }
    match &view.snippets_view.popup {
        Some(SnippetPopup::Results { entries, .. }) => {
            assert_eq!(entries[0].host_name, "web");
            assert!(entries[0].pending);
        }
        _ => panic!("results expected"),
    }
}

fn snippet(name: &str, command: &str, params: Option<Vec<&str>>) -> Snippet {
    Snippet {
        name: name.into(),
        command: command.into(),
        scope: SnippetScope::Global,
        host: None,
        tags: None,
        params: params.map(|v| v.into_iter().map(String::from).collect()),
    }
}

#[test]
fn snippet_runs_resolve_hosts_and_parameters() {
    let mut state = AppState::default();
    state.hosts.push(Host { name: "web".into(), ..Host::default() });
    state.snippets.push(snippet("up", "uptime", None));
    state.snippets.push(snippet("grep", "grep {{pat}} log", Some(vec!["pat"])));
    let mut view = ViewState::default();

    let fx = apply_action(&mut state, &mut view, AppAction::ExecuteSnippet { snippet_idx: 0, host_names: vec![] });
    assert!(fx.is_empty());
    assert!(matches!(
        &view.snippets_view.popup,
        Some(SnippetPopup::BroadcastPicker { snippet_idx: 0, .. })
    ));
    apply_action(&mut state, &mut view, AppAction::ToggleBroadcastHost(0));
    let fx = apply_action(&mut state, &mut view, AppAction::ConfirmBroadcast);
    match fx.as_slice() {
        [Effect::RunSnippet { command, host_names, snippet_name }] => {
            assert_eq!(command, "uptime");
            assert_eq!(host_names, &vec!["web".to_string()]);
            assert_eq!(snippet_name, "up");
        }
        _ => panic!("run expected"),
    }

    view.host_list.filtered_indices = vec![0];
    let fx = apply_action(&mut state, &mut view, AppAction::ExecuteSnippet { snippet_idx: 1, host_names: vec![] });
    assert!(fx.is_empty());
    match &mut view.snippets_view.popup {
        Some(SnippetPopup::ParamInput { host_names, param_fields, .. }) => {
            assert_eq!(host_names, &vec!["web".to_string()]);
            param_fields[0].value = " error ".to_string();
        }
        _ => panic!("parameter input expected"),
    }
    let fx = apply_action(&mut state, &mut view, AppAction::ConfirmParamInput);
    assert!(matches!(fx.as_slice(), [Effect::RunSnippet { command, .. }] if command == "grep error log"));

    let fx = apply_action(
        &mut state,
        &mut view,
        AppAction::QuickExecute { host_name: "db".into(), command: "ls".into() },
    );
    assert!(fx.is_empty());
    match &view.snippets_view.popup {
        Some(SnippetPopup::Results { entries, .. }) => {
            assert_eq!(entries[0].output, Err("Host 'db' not found.".to_string()));
        }
        _ => panic!("results expected"),
    }
    let fx = apply_action(&mut state, &mut view, AppAction::ConfirmKeySetup(0));
    assert!(matches!(fx.as_slice(), [Effect::RunKeySetup(0)]));
    assert!(matches!(
        &view.host_list.popup,
        Some(HostPopup::KeySetupProgress { host_idx: 0, current_step: None, .. })
    ));
}

#[test]
fn paste_numbers_transfers_and_shows_progress() {
    let mut state = AppState::default();
    let mut view = ViewState::default();
    let fx = apply_action(&mut state, &mut view, AppAction::FmPaste);
    assert!(fx.is_empty());
    assert_eq!(view.status_message.as_deref(), Some("Nothing in clipboard."));
    view.file_manager.clipboard = Some(FmClipboard {
        paths: vec!["/home/a.txt".into(), "/home/b.txt".into()],
        source_panel: FmPanel::Local,
    });
    let fx = apply_action(&mut state, &mut view, AppAction::FmPaste);
    assert!(fx.is_empty());
    assert_eq!(view.status_message.as_deref(), Some("Cannot paste to the same panel."));
    view.file_manager.active_panel = FmPanel::Remote;
    view.file_manager.remote.cwd = "/srv".into();
    view.next_transfer_id = 7;
    let fx = apply_action(&mut state, &mut view, AppAction::FmPaste);
    match fx.as_slice() {
        [Effect::Transfers(ts)] => {
            assert_eq!(ts.len(), 2);
            assert_eq!(ts[0].src, "/home/a.txt");
            assert_eq!(ts[0].dst, "/srv/a.txt");
            assert_eq!(ts[0].transfer_id, 7);
            assert!(ts[0].upload);
            assert_eq!(ts[1].dst, "/srv/b.txt");
            assert_eq!(ts[1].transfer_id, 8);
        }
        _ => panic!("transfers expected"),
    }
    assert_eq!(view.next_transfer_id, 9);
    assert_eq!(view.file_manager.pending_ops, 2);
    assert_eq!(view.file_manager.active_transfer, Some(7));
    match &view.file_manager.popup {
        Some(FileManagerPopup::TransferProgress { transfer_id, filename, done, total }) => {
            assert_eq!(*transfer_id, 7);
            assert_eq!(filename, "a.txt  (+1 more)");
            assert_eq!((*done, *total), (0, 0));
        }
        _ => panic!("progress popup expected"),
    }
}

#[test]
fn picking_the_remote_host_connects_sftp() {
    let mut state = AppState::default();
    state.hosts.push(Host { name: "web".into(), ..Host::default() });
    let mut view = ViewState::default();
    view.file_manager.remote.cwd = "/old".into();
    let fx = apply_action(&mut state, &mut view, AppAction::FmHostPickerSelect(3));
    assert!(fx.is_empty());
    assert_eq!(view.status_message.as_deref(), Some("Host not found."));
    let fx = apply_action(&mut state, &mut view, AppAction::FmHostPickerSelect(0));
    assert!(matches!(fx.as_slice(), [Effect::ConnectSftp(0)]));
    assert!(view.file_manager.sftp_connecting);
    assert!(view.file_manager.connected_host.is_none());
    assert!(view.file_manager.remote.cwd.is_empty());
    assert_eq!(view.status_message.as_deref(), Some("Connecting to 'web'\u{2026} (30s timeout)"));
}

#[test]
fn hidden_files_toggle_on_the_active_panel() {
    let mut state = AppState::default();
    let mut view = ViewState::default();
    let raw = vec![
        FileEntry { name: "..".into(), path: "/".into(), size: 0, is_dir: true },
        FileEntry { name: ".env".into(), path: "/home/.env".into(), size: 1, is_dir: false },
        FileEntry { name: "a.txt".into(), path: "/home/a.txt".into(), size: 1, is_dir: false },
    ];
    view.file_manager.local.raw_entries = raw.clone();
    view.file_manager.local.entries = vec![raw[0].clone(), raw[2].clone()];
    view.file_manager.local.cursor = 1;
    let fx = apply_action(&mut state, &mut view, AppAction::FmToggleHidden);
    assert!(fx.is_empty());
    assert!(view.file_manager.local.show_hidden);
    assert_eq!(view.file_manager.local.entries.len(), 3);
    assert_eq!(view.file_manager.local.cursor, 2);
    apply_action(&mut state, &mut view, AppAction::FmToggleHidden);
    assert!(!view.file_manager.local.show_hidden);
    assert_eq!(view.file_manager.local.entries.len(), 2);
    assert_eq!(view.file_manager.local.cursor, 1);
    assert!(!view.file_manager.remote.show_hidden);
}
