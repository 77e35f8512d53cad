use omnyssh::form::FormField;
use omnyssh::host::{ConnectionStatus, Host, HostForm, HostSource};
use omnyssh::host_list::{filter_hosts, status_priority, HostListView, MetricKeys};
use omnyssh::platform::{
    app_dir_in, file_in, is_rolling_log, log_is_stale, ssh_config_in, LOG_RETENTION_DAYS,
};
use omnyssh::screen::SortOrder;
use omnyssh::scroll::ScrollAction;
use omnyssh::terminal::{
    pty_size, scrolled_offset, SessionTable, SplitDirection, SplitFocus, SplitView, TermTab,
    TerminalView,
};

fn host(name: &str, hostname: &str, tags: &[&str]) -> Host {
    Host {
        name: name.to_string(),
        hostname: hostname.to_string(),
        user: "root".to_string(),
        port: 22,
        tags: tags.iter().map(|t| t.to_string()).collect(),
        ..Host::default()
    }
}

#[test]
fn form_field_insert_and_backspace_at_cursor() {
    let mut f = FormField::with_value("hé");
    assert_eq!(f.cursor, 3);
    f.insert_char('!');
    assert_eq!(f.value, "hé!");
    assert_eq!(f.cursor, 4);
    f.backspace();
    f.backspace();
    assert_eq!(f.value, "h");
    assert_eq!(f.cursor, 1);
    f.cursor = 0;
    f.backspace();
    assert_eq!(f.value, "h");
}

#[test]
fn host_form_validation() {
    let mut form = HostForm::empty();
    assert_eq!(form.to_host(HostSource::Manual).unwrap_err(), "Name cannot be empty");
    form.fields[0] = FormField::with_value("web");
    assert_eq!(
        form.to_host(HostSource::Manual).unwrap_err(),
        "Hostname / IP cannot be empty"
    );
    form.fields[1] = FormField::with_value("10.0.0.1");
    form.fields[3] = FormField::with_value("abc");
    assert_eq!(
        form.to_host(HostSource::Manual).unwrap_err(),
        "Port must be a number between 1 and 65535, got 'abc'"
    );
    form.fields[3] = FormField::with_value("");
    form.fields[6] = FormField::with_value("a, b,, c ");
    let h = form.to_host(HostSource::Manual).unwrap();
    assert_eq!(h.user, "root");
    assert_eq!(h.port, 22);
    assert_eq!(h.tags, vec!["a".to_string(), "b".to_string(), "c".to_string()]);
    assert!(h.identity_file.is_none());
}

#[test]
fn host_form_round_trip() {
    let mut h = host("db", "db.example", &["prod", "sql"]);
    h.port = 2222;
    h.notes = Some("primary".to_string());
    let form = HostForm::from_host(&h);
    assert_eq!(form.fields[3].value, "2222");
    assert_eq!(form.fields[6].value, "prod, sql");
    let back = form.to_host(HostSource::Manual).unwrap();
    assert_eq!(back.name, "db");
    assert_eq!(back.port, 2222);
    assert_eq!(back.tags, h.tags);
    assert_eq!(back.notes, h.notes);
}

#[test]
fn host_form_focus_wraps() {
    let mut form = HostForm::empty();
    form.focus_prev();
    assert_eq!(form.focused_field, 7);
    form.focus_next();
    assert_eq!(form.focused_field, 0);
}

#[test]
fn filter_hosts_matches_fields_case_insensitively() {
    let hosts = [
        host("Web", "10.0.0.1", &["prod"]),
        host("db", "DB.internal", &[]),
        host("cache", "10.0.0.3", &["Staging"]),
    ];
    assert_eq!(filter_hosts(&hosts, ""), vec![0, 1, 2]);
    assert_eq!(filter_hosts(&hosts, "web"), vec![0]);
    assert_eq!(filter_hosts(&hosts, "internal"), vec![1]);
    assert_eq!(filter_hosts(&hosts, "staging"), vec![2]);
    assert_eq!(filter_hosts(&hosts, "10.0.0"), vec![0, 2]);
    assert!(filter_hosts(&hosts, "zzz").is_empty());
}

#[test]
fn status_priority_orders_statuses() {
    assert_eq!(status_priority(Some(&ConnectionStatus::Connected)), 0);
    assert_eq!(status_priority(Some(&ConnectionStatus::Connecting)), 1);
    assert_eq!(status_priority(Some(&ConnectionStatus::Unknown)), 2);
    assert_eq!(status_priority(None), 2);
    assert_eq!(status_priority(Some(&ConnectionStatus::Failed("x".to_string()))), 3);
}

#[test]
fn rebuild_filter_sorts_by_name_and_tag() {
    let hosts = [
        host("zeta", "z", &["prod"]),
        host("alpha", "a", &["dev"]),
        host("mid", "m", &["prod"]),
    ];
    let mut view = HostListView::default();
    view.rebuild_filter(&hosts, &[], &[]);
    assert_eq!(view.filtered_indices, vec![1, 2, 0]);
    view.tag_filter = Some("prod".to_string());
    view.selected = 9;
    view.rebuild_filter(&hosts, &[], &[]);
    assert_eq!(view.filtered_indices, vec![2, 0]);
    assert_eq!(view.selected, 1);
    assert_eq!(view.selected_host_idx(), Some(0));
}

#[test]
fn rebuild_filter_sorts_by_usage_and_status() {
    let hosts = [host("a", "a", &[]), host("b", "b", &[]), host("c", "c", &[])];
    let metrics = vec![
        ("a".to_string(), MetricKeys { cpu_percent: Some(10), ram_percent: None, ..MetricKeys::default() }),
        ("c".to_string(), MetricKeys { cpu_percent: Some(90), ram_percent: Some(5), ..MetricKeys::default() }),
    ];
    let statuses = vec![
        ("a".to_string(), ConnectionStatus::Failed("down".to_string())),
        ("b".to_string(), ConnectionStatus::Connected),
    ];
    let mut view = HostListView::default();
    view.sort_order = SortOrder::Cpu;
    view.rebuild_filter(&hosts, &metrics, &statuses);
    assert_eq!(view.filtered_indices, vec![2, 0, 1]);
    view.sort_order = SortOrder::Ram;
    view.rebuild_filter(&hosts, &metrics, &statuses);
    assert_eq!(view.filtered_indices, vec![2, 0, 1]);
    view.sort_order = SortOrder::Status;
    view.rebuild_filter(&hosts, &metrics, &statuses);
    assert_eq!(view.filtered_indices, vec![1, 2, 0]);
}

#[test]
fn rebuild_tags_sorts_and_dedups() {
    let hosts = [
        host("a", "a", &["prod", "web"]),
        host("b", "b", &["db", "prod"]),
        host("c", "c", &[]),
    ];
    let mut view = HostListView::default();
    view.rebuild_tags(&hosts);
    assert_eq!(
        view.available_tags,
        vec!["db".to_string(), "prod".to_string(), "web".to_string()]
    );
}

#[test]
fn host_list_selection_moves_within_bounds() {
    let mut view = HostListView {
        filtered_indices: vec![4, 5],
        ..HostListView::default()
    };
    view.select_prev();
    assert_eq!(view.selected, 0);
    view.select_next();
    view.select_next();
    assert_eq!(view.selected, 1);
}

#[test]
fn sort_order_cycles() {
    let mut o = SortOrder::Name;
    let mut labels = Vec::new();
    for _ in 0..4 {
        labels.push(o.label());
        o = o.next();
    }
    assert_eq!(labels, vec!["name", "cpu", "ram", "status"]);
    assert_eq!(o, SortOrder::Name);
}

fn tab(id: u64, offset: usize) -> TermTab {
    TermTab {
        session_id: id,
        host_name: format!("h{id}"),
        has_activity: false,
        scroll_offset: offset,
    }
}

#[test]
fn active_session_follows_split_focus() {
    let mut tv = TerminalView::default();
    assert_eq!(tv.active_session_id(), None);
    tv.tabs = vec![tab(1, 0), tab(2, 0), tab(3, 0)];
    tv.active_tab = 1;
    assert_eq!(tv.active_session_id(), Some(2));
    tv.split = Some(SplitView { direction: SplitDirection::Vertical, secondary_tab: 2 });
    assert_eq!(tv.active_session_id(), Some(2));
    tv.split_focus = SplitFocus::Secondary;
    assert_eq!(tv.active_session_id(), Some(3));
    tv.split = Some(SplitView { direction: SplitDirection::Horizontal, secondary_tab: 7 });
    assert_eq!(tv.active_session_id(), None);
}

#[test]
fn scroll_offsets_are_capped() {
    assert_eq!(scrolled_offset(0, 3), 3);
    assert_eq!(scrolled_offset(999, 3), 1000);
    assert_eq!(scrolled_offset(usize::MAX, 3), 1000);
    assert_eq!(scrolled_offset(2, -3), 0);
    assert_eq!(scrolled_offset(10, -3), 7);
    let mut tv = TerminalView::default();
    tv.tabs = vec![tab(1, 5), tab(2, 5)];
    tv.active_tab = 1;
    tv.scroll_focused(&ScrollAction::Scrollback(3));
    assert_eq!(tv.tabs[1].scroll_offset, 8);
    assert_eq!(tv.tabs[0].scroll_offset, 5);
    tv.scroll_focused(&ScrollAction::Forward(vec![1]));
    assert_eq!(tv.tabs[1].scroll_offset, 8);
}

#[test]
fn pty_size_reserves_chrome() {
    assert_eq!(pty_size(80, 24), (78, 20));
    assert_eq!(pty_size(1, 3), (0, 0));
}

#[test]
fn session_ids_increase_and_close_removes_only_target() {
    let mut t: SessionTable<&str> = SessionTable::new();
    let a = t.open("a");
    let b = t.open("b");
    assert_eq!((a, b), (1, 2));
    assert_eq!(t.len(), 2);
    assert_eq!(t.close(a), Some("a"));
    assert_eq!(t.len(), 1);
    assert_eq!(t.get(b), Some(&"b"));
    assert_eq!(t.get(a), None);
    assert_eq!(t.close(999), None);
    assert_eq!(t.open("c"), 3);
    assert_eq!(t.position(3), Some(1));
    let entries = t.into_entries();
    assert_eq!(entries, vec![(2, "b"), (3, "c")]);
}

#[test]
fn log_file_rules() {
    assert!(is_rolling_log("omnyssh.log"));
    assert!(is_rolling_log("omnyssh.log.2026-01-01"));
    assert!(!is_rolling_log("config.toml"));
    assert!(!is_rolling_log("omnyssh.lo"));
    assert_eq!(LOG_RETENTION_DAYS, 7);
    assert!(log_is_stale(8 * 86400, 0, 7));
    assert!(log_is_stale(7 * 86400, 1, 7));
    assert!(!log_is_stale(7 * 86400, 0, 7));
    assert!(!log_is_stale(3600, 0, 7));
}

#[test]
fn config_paths_join_their_directories() {
    let sep = std::path::MAIN_SEPARATOR;
    assert_eq!(
        ssh_config_in(Some("/home/u".to_string())),
        Some(format!("/home/u{sep}.ssh{sep}config"))
    );
    assert_eq!(ssh_config_in(None), None);
    assert_eq!(app_dir_in(Some("/cfg/".to_string())), Some("/cfg/omnyssh".to_string()));
    assert_eq!(app_dir_in(None), None);
    assert_eq!(file_in(Some(String::new()), "hosts.toml"), Some("hosts.toml".to_string()));
}

#[test]
fn missing_reading_sorts_as_minus_one_percent() {
    let hosts = [host("a", "a", &[]), host("b", "b", &[]), host("c", "c", &[])];
    let metrics = vec![
        ("a".to_string(), MetricKeys { cpu_percent: Some(-500), ..MetricKeys::default() }),
        ("c".to_string(), MetricKeys { cpu_percent: Some(-100), ..MetricKeys::default() }),
    ];
    let mut view = HostListView::default();
    view.sort_order = SortOrder::Cpu;
    view.rebuild_filter(&hosts, &metrics, &[]);
    assert_eq!(view.filtered_indices, vec![1, 2, 0]);
}
