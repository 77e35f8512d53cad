use omnyssh::action::{AppAction, AppState, NavDir};
use omnyssh::config::UpdateConfig;
use omnyssh::host_keys::handle_input;
use omnyssh::snippets::quick_view_command;
use omnyssh::update::{
    update_popup_key, InstallMethod, UpdateEffect, UpdateInfo, UpdatePopup, UpdatePopupPhase,
};
use omnyssh::form::FormField;
use omnyssh::host::{ConnectionStatus, Host, HostForm, HostSource};
use omnyssh::host_actions::{
    confirm_host_delete, confirm_host_form, dashboard_nav, grid_columns, offer_key_setup,
};
use omnyssh::host_list::{HostListView, HostPopup, MetricKeys};
use omnyssh::keybindings::{parse_keybind, ParsedKeybindings};
use omnyssh::keys::{KeyCode, KeyEvent, KeyModifiers};
use omnyssh::routing::{route_key, KeyContext, KeyRoute};
use omnyssh::screen::Screen;
use omnyssh::services::ServiceKind;
use omnyssh::term_keys::{terminal_key, TermKeyOutcome};
use omnyssh::terminal::{SplitDirection, SplitFocus, SplitView, TermHostPicker, TermTab, TerminalView};

fn key(code: KeyCode) -> KeyEvent {
    KeyEvent::new(code, KeyModifiers::none())
}

fn ctrl(code: KeyCode) -> KeyEvent {
    KeyEvent::new(code, KeyModifiers::ctrl())
}

fn tabs(n: u64) -> Vec<TermTab> {
    (1..=n)
        .map(|id| TermTab {
            session_id: id,
            host_name: format!("h{id}"),
            has_activity: true,
            scroll_offset: 0,
        })
        .collect()
}

fn action(o: TermKeyOutcome) -> Option<AppAction> {
    match o {
        TermKeyOutcome::Done(a) => a,
        TermKeyOutcome::HostPicker => panic!("host picker took the key"),
    }
}

#[test]
fn terminal_keys_switch_screens_and_control_tabs() {
    let next_tab = parse_keybind("Tab").unwrap();
    let mut tv = TerminalView::default();
    tv.tabs = tabs(3);
    assert!(matches!(
        action(terminal_key(&mut tv, next_tab, ctrl(KeyCode::Char('q')))),
        Some(AppAction::SwitchScreen(Screen::Dashboard))
    ));
    assert!(matches!(
        action(terminal_key(&mut tv, next_tab, key(KeyCode::F(2)))),
        Some(AppAction::SwitchScreen(Screen::FileManager))
    ));
    assert!(matches!(
        action(terminal_key(&mut tv, next_tab, ctrl(KeyCode::Char('t')))),
        Some(AppAction::TermOpenHostPicker)
    ));
    assert!(action(terminal_key(&mut tv, next_tab, ctrl(KeyCode::Char('h')))).is_none());
    assert!(matches!(
        action(terminal_key(&mut tv, next_tab, ctrl(KeyCode::Left))),
        Some(AppAction::TermSwitchTab(2))
    ));
    assert!(matches!(
        action(terminal_key(&mut tv, next_tab, ctrl(KeyCode::Right))),
        Some(AppAction::TermSwitchTab(1))
    ));
}

#[test]
fn terminal_tab_key_cycles_and_arms_number_selection() {
    let next_tab = parse_keybind("Tab").unwrap();
    let mut tv = TerminalView::default();
    tv.tabs = tabs(3);
    assert!(action(terminal_key(&mut tv, next_tab, key(KeyCode::Tab))).is_none());
    assert_eq!(tv.active_tab, 1);
    assert!(!tv.tabs[1].has_activity);
    assert!(tv.tabs[0].has_activity);
    assert!(tv.tab_select_mode);
    assert!(matches!(
        action(terminal_key(&mut tv, next_tab, key(KeyCode::Char('3')))),
        Some(AppAction::TermSwitchTab(2))
    ));
    assert!(!tv.tab_select_mode);
    // Without selection mode a digit is typed.
    match action(terminal_key(&mut tv, next_tab, key(KeyCode::Char('3')))) {
        Some(AppAction::TermInput(b)) => assert_eq!(b, b"3".to_vec()),
        other => panic!("unexpected {other:?}"),
    }
}

#[test]
fn terminal_split_keys_move_the_secondary_pane() {
    let next_tab = parse_keybind("Tab").unwrap();
    let mut tv = TerminalView::default();
    tv.tabs = tabs(3);
    tv.split = Some(SplitView { direction: SplitDirection::Vertical, secondary_tab: 0 });
    tv.split_focus = SplitFocus::Secondary;
    assert!(action(terminal_key(&mut tv, next_tab, ctrl(KeyCode::Left))).is_none());
    assert_eq!(tv.split.unwrap().secondary_tab, 2);
    assert!(matches!(
        action(terminal_key(&mut tv, next_tab, key(KeyCode::Tab))),
        Some(AppAction::TermFocusNextPane)
    ));
    assert!(matches!(
        action(terminal_key(&mut tv, next_tab, ctrl(KeyCode::Char('h')))),
        Some(AppAction::TermSwitchPaneHost)
    ));
    tv.host_picker = Some(TermHostPicker::default());
    assert!(matches!(
        terminal_key(&mut tv, next_tab, key(KeyCode::Enter)),
        TermKeyOutcome::HostPicker
    ));
}

fn ctx(screen: Screen) -> KeyContext {
    KeyContext {
        screen,
        update_popup: false,
        tag_popup: false,
        file_manager_popup: false,
        snippet_overlay: false,
        snippet_popup_or_search: false,
        host_popup_or_search: false,
        no_terminal_tabs: true,
        show_help: false,
        status_message: false,
    }
}

#[test]
fn key_routing_priorities() {
    let kb = ParsedKeybindings::default();
    let mut c = ctx(Screen::Dashboard);
    c.update_popup = true;
    assert!(matches!(route_key(c, &kb, key(KeyCode::Char('q'))), KeyRoute::UpdatePopup));
    assert!(matches!(
        route_key(c, &kb, ctrl(KeyCode::Char('c'))),
        KeyRoute::Action(AppAction::Quit)
    ));
    let c = ctx(Screen::Terminal);
    assert!(matches!(route_key(c, &kb, ctrl(KeyCode::Char('c'))), KeyRoute::Terminal));
    let c = ctx(Screen::Dashboard);
    assert!(matches!(route_key(c, &kb, key(KeyCode::Char('q'))), KeyRoute::Action(AppAction::Quit)));
    assert!(matches!(
        route_key(c, &kb, key(KeyCode::Char('2'))),
        KeyRoute::SwitchScreen { screen: Screen::FileManager, bootstrap_files: true, open_host_picker: false }
    ));
    assert!(matches!(
        route_key(c, &kb, key(KeyCode::Tab)),
        KeyRoute::SwitchScreen { screen: Screen::FileManager, .. }
    ));
    assert!(matches!(
        route_key(c, &kb, key(KeyCode::Char('4'))),
        KeyRoute::SwitchScreen { screen: Screen::Terminal, open_host_picker: true, .. }
    ));
    assert!(matches!(route_key(c, &kb, key(KeyCode::Char('?'))), KeyRoute::ToggleHelp));
    assert!(matches!(route_key(c, &kb, key(KeyCode::Char('j'))), KeyRoute::ScreenInput(Screen::Dashboard)));
    let c = ctx(Screen::FileManager);
    assert!(matches!(
        route_key(c, &kb, key(KeyCode::Tab)),
        KeyRoute::Action(AppAction::FmSwitchPanel)
    ));
    let mut c = ctx(Screen::Snippets);
    c.host_popup_or_search = true;
    assert!(matches!(route_key(c, &kb, key(KeyCode::Char('x'))), KeyRoute::Ignore));
    let mut c = ctx(Screen::DetailView);
    c.status_message = true;
    assert!(matches!(route_key(c, &kb, key(KeyCode::Esc)), KeyRoute::ClearStatus));
    c.show_help = true;
    assert!(matches!(route_key(c, &kb, key(KeyCode::Esc)), KeyRoute::CloseHelp));
    assert!(matches!(route_key(c, &kb, key(KeyCode::Char('4'))), KeyRoute::ScreenInput(Screen::DetailView)));
}

fn form_with(values: &[(usize, &str)]) -> HostForm {
    let mut f = HostForm::empty();
    for (i, v) in values {
        f.fields[*i] = FormField::with_value(v);
    }
    f
}

#[test]
fn adding_a_host_from_the_form() {
    let mut state = AppState::default();
    let mut view = HostListView::default();
    view.popup = Some(HostPopup::Add(form_with(&[(0, "web"), (1, "10.0.0.1"), (5, "pw"), (6, "prod")])));
    let r = confirm_host_form(&mut state, &mut view);
    assert!(r.hosts_changed && r.host_added);
    assert_eq!(
        r.status.as_deref(),
        Some("Host 'web' added. Press 'Shift+K' to set up SSH key authentication (recommended).")
    );
    assert_eq!(state.hosts.len(), 1);
    assert_eq!(view.filtered_indices, vec![0]);
    assert_eq!(view.available_tags, vec!["prod".to_string()]);
    assert!(view.popup.is_none());

    view.popup = Some(HostPopup::Add(form_with(&[(0, "db")])));
    let r = confirm_host_form(&mut state, &mut view);
    assert_eq!(r.status.as_deref(), Some("Error: Hostname / IP cannot be empty"));
    assert!(matches!(view.popup, Some(HostPopup::Add(_))));
    assert_eq!(state.hosts.len(), 1);
}

#[test]
fn editing_a_host_moves_its_data_to_the_new_name() {
    let mut state = AppState::default();
    state.hosts.push(Host {
        name: "old".to_string(),
        hostname: "h".to_string(),
        user: "root".to_string(),
        port: 22,
        source: HostSource::SshConfig,
        ..Host::default()
    });
    state.metrics.push(("old".to_string(), MetricKeys { cpu_percent: Some(5), ram_percent: None, ..MetricKeys::default() }));
    state.connection_statuses.push(("old".to_string(), ConnectionStatus::Connected));
    state.services.push(("old".to_string(), vec![ServiceKind::Docker]));
    let mut view = HostListView::default();
    view.popup = Some(HostPopup::Edit {
        host_idx: 0,
        form: form_with(&[(0, "new"), (1, "h")]),
    });
    let r = confirm_host_form(&mut state, &mut view);
    assert_eq!(r.status.as_deref(), Some("Host updated."));
    assert_eq!(state.hosts[0].name, "new");
    assert_eq!(state.hosts[0].original_ssh_host.as_deref(), Some("old"));
    assert_eq!(state.metrics, vec![("new".to_string(), MetricKeys { cpu_percent: Some(5), ram_percent: None, ..MetricKeys::default() })]);
    assert_eq!(state.connection_statuses, vec![("new".to_string(), ConnectionStatus::Connected)]);
    assert_eq!(state.services, vec![("new".to_string(), vec![ServiceKind::Docker])]);
}

#[test]
fn deleting_and_key_setup() {
    let mut state = AppState::default();
    state.hosts.push(Host { name: "a".to_string(), password: Some("pw".to_string()), ..Host::default() });
    state.hosts.push(Host { name: "b".to_string(), identity_file: Some("k".to_string()), ..Host::default() });
    state.hosts.push(Host { name: "c".to_string(), ..Host::default() });
    let mut view = HostListView::default();
    view.rebuild_filter(&state.hosts, &[], &[]);
    assert_eq!(offer_key_setup(&state.hosts, &mut view), None);
    assert!(matches!(view.popup, Some(HostPopup::KeySetupConfirm(0))));
    view.popup = None;
    view.selected = 1;
    assert_eq!(
        offer_key_setup(&state.hosts, &mut view).as_deref(),
        Some("'b' already uses key authentication.")
    );
    view.selected = 2;
    assert_eq!(
        offer_key_setup(&state.hosts, &mut view).as_deref(),
        Some("No password set for this host. Add a password first to enable key setup.")
    );
    view.popup = Some(HostPopup::DeleteConfirm(1));
    let r = confirm_host_delete(&mut state, &mut view);
    assert_eq!(r.status.as_deref(), Some("Deleted 'b'."));
    assert_eq!(state.hosts.len(), 2);
    assert_eq!(view.filtered_indices, vec![0, 1]);
    assert_eq!(view.selected, 1);
    view.popup = Some(HostPopup::DeleteConfirm(9));
    let r = confirm_host_delete(&mut state, &mut view);
    assert!(r.status.is_none() && r.hosts_changed);
    assert_eq!(state.hosts.len(), 2);
}

#[test]
fn grid_navigation_stays_in_range() {
    assert_eq!(grid_columns(80), 2);
    assert_eq!(grid_columns(10), 1);
    assert_eq!(dashboard_nav(1, 5, 2, NavDir::Down), 3);
    assert_eq!(dashboard_nav(4, 5, 2, NavDir::Down), 4);
    assert_eq!(dashboard_nav(1, 5, 2, NavDir::Up), 0);
    assert_eq!(dashboard_nav(0, 5, 2, NavDir::Left), 0);
    assert_eq!(dashboard_nav(4, 5, 2, NavDir::Right), 4);
    assert_eq!(dashboard_nav(2, 5, 2, NavDir::Right), 3);
}

#[test]
fn host_list_keys_search_and_popups() {
    let mut view = HostListView {
        filtered_indices: vec![3, 5],
        ..HostListView::default()
    };
    assert!(handle_input(key(KeyCode::Char('j')), &mut view).is_none());
    assert_eq!(view.selected, 1);
    assert!(matches!(handle_input(key(KeyCode::Enter), &mut view), Some(AppAction::ConnectAt(5))));
    assert!(matches!(handle_input(key(KeyCode::Char('e')), &mut view), Some(AppAction::OpenEditPopup)));
    assert!(matches!(handle_input(key(KeyCode::Char('K')), &mut view), Some(AppAction::StartKeySetup)));
    assert!(matches!(handle_input(key(KeyCode::Char('r')), &mut view), Some(AppAction::ReloadHosts)));
    handle_input(key(KeyCode::Char('d')), &mut view);
    assert!(matches!(view.popup, Some(HostPopup::DeleteConfirm(5))));
    assert!(matches!(handle_input(key(KeyCode::Char('Y')), &mut view), Some(AppAction::ConfirmDelete)));
    assert!(handle_input(key(KeyCode::Char('n')), &mut view).is_none());
    assert!(view.popup.is_none());

    handle_input(key(KeyCode::Char('/')), &mut view);
    assert!(view.search_mode);
    assert!(matches!(handle_input(key(KeyCode::Char('w')), &mut view), Some(AppAction::SearchQueryChanged)));
    handle_input(key(KeyCode::Char('é')), &mut view);
    assert_eq!(view.search_query, "wé");
    handle_input(key(KeyCode::Backspace), &mut view);
    assert_eq!(view.search_query, "w");
    assert!(handle_input(ctrl(KeyCode::Char('x')), &mut view).is_none());
    handle_input(key(KeyCode::Esc), &mut view);
    assert!(!view.search_mode);
    assert!(view.search_query.is_empty());

    handle_input(key(KeyCode::Char('a')), &mut view);
    handle_input(key(KeyCode::Char('w')), &mut view);
    handle_input(key(KeyCode::Tab), &mut view);
    handle_input(key(KeyCode::Char('h')), &mut view);
    handle_input(key(KeyCode::Char('x')), &mut view);
    handle_input(key(KeyCode::Backspace), &mut view);
    match &view.popup {
        Some(HostPopup::Add(form)) => {
            assert_eq!(form.fields[0].value, "w");
            assert_eq!(form.fields[1].value, "h");
            assert_eq!(form.focused_field, 1);
        }
        _ => panic!("add form expected"),
    }
    assert!(matches!(handle_input(key(KeyCode::Enter), &mut view), Some(AppAction::ConfirmForm)));
    handle_input(key(KeyCode::Esc), &mut view);
    assert!(view.popup.is_none());
}

#[test]
fn update_popup_keys() {
    let info = UpdateInfo {
        current: "1.0.0".to_string(),
        latest: "1.1.0".to_string(),
        tag: "v1.1.0".to_string(),
        method: InstallMethod::Manual,
        can_self_update: true,
    };
    let mut cfg = UpdateConfig::default();
    let mut popup = Some(UpdatePopup { info: info.clone(), phase: UpdatePopupPhase::Prompt { selected: 0 } });
    assert_eq!(update_popup_key(&mut popup, &mut cfg, key(KeyCode::Enter)), UpdateEffect::Install);
    assert!(matches!(popup.as_ref().unwrap().phase, UpdatePopupPhase::Installing));
    assert_eq!(update_popup_key(&mut popup, &mut cfg, key(KeyCode::Esc)), UpdateEffect::Nothing);
    assert!(popup.is_some());

    let mut popup = Some(UpdatePopup { info: info.clone(), phase: UpdatePopupPhase::Prompt { selected: 0 } });
    update_popup_key(&mut popup, &mut cfg, key(KeyCode::Char('l')));
    assert_eq!(update_popup_key(&mut popup, &mut cfg, key(KeyCode::Enter)), UpdateEffect::Persist);
    assert_eq!(cfg.skip_version, "1.1.0");
    assert!(popup.is_none());

    let mut popup = Some(UpdatePopup { info, phase: UpdatePopupPhase::Prompt { selected: 0 } });
    update_popup_key(&mut popup, &mut cfg, key(KeyCode::Left));
    assert_eq!(update_popup_key(&mut popup, &mut cfg, key(KeyCode::Enter)), UpdateEffect::Persist);
    assert!(!cfg.check_on_startup);

    let mut done = Some(UpdatePopup {
        info: UpdateInfo {
            current: "1".to_string(),
            latest: "2".to_string(),
            tag: "v2".to_string(),
            method: InstallMethod::Cargo,
            can_self_update: false,
        },
        phase: UpdatePopupPhase::Done { message: "ok".to_string(), ok: true },
    });
    update_popup_key(&mut done, &mut cfg, key(KeyCode::Char('x')));
    assert!(done.is_some());
    update_popup_key(&mut done, &mut cfg, key(KeyCode::Enter));
    assert!(done.is_none());
}

#[test]
fn terminal_tabs_open_replace_and_paste() {
    let mut tv = TerminalView::default();
    tv.add_tab(1, "a".to_string());
    tv.add_tab(2, "b".to_string());
    assert_eq!(tv.active_tab, 1);
    assert_eq!(tv.focused_session(), Some(2));
    tv.replace_focused(7, "c".to_string());
    assert_eq!(tv.tabs[1].session_id, 7);
    assert_eq!(tv.tabs[1].host_name, "c");
    tv.tabs[1].scroll_offset = 9;
    let (id, bytes) = tv.paste_to_focused("x\ny", true).unwrap();
    assert_eq!(id, 7);
    assert_eq!(bytes, b"\x1b[200~x\ry\x1b[201~".to_vec());
    assert_eq!(tv.tabs[1].scroll_offset, 0);
}

#[test]
fn quick_view_commands() {
    assert_eq!(
        quick_view_command(ServiceKind::Docker),
        ("docker compose ps -a 2>/dev/null || docker ps -a", "Docker Containers")
    );
    assert_eq!(quick_view_command(ServiceKind::Redis).1, "Redis Info");
}
