use omnyssh::file_manager::{
    filename_of, join_path, parent_dir, plan_paste, FileEntry, FilePanelView, FmClipboard, FmPanel,
};

fn entry(name: &str, path: &str) -> FileEntry {
    FileEntry {
        name: name.to_string(),
        path: path.to_string(),
        size: 0,
        is_dir: false,
    }
}

fn panel(entries: Vec<FileEntry>) -> FilePanelView {
    FilePanelView {
        entries,
        ..FilePanelView::default()
    }
}

fn panel_with_raw(raw: Vec<FileEntry>) -> FilePanelView {
    let mut p = FilePanelView::default();
    p.raw_entries = raw;
    p.apply_hidden_filter();
    p
}

fn visible_names(p: &FilePanelView) -> Vec<&str> {
    p.entries.iter().map(|e| e.name.as_str()).collect()
}

#[test]
fn marked_or_cursor_uses_marked_set() {
    let mut p = panel(vec![entry("a", "/a"), entry("b", "/b")]);
    p.marked.insert("/b".to_string());
    assert_eq!(p.marked_or_cursor_paths(), vec!["/b".to_string()]);
}

#[test]
fn marked_or_cursor_uses_cursor_when_unmarked() {
    let p = panel(vec![entry("f", "/f")]);
    assert_eq!(p.marked_or_cursor_paths(), vec!["/f".to_string()]);
}

#[test]
fn marked_or_cursor_excludes_dotdot_under_cursor() {
    let p = panel(vec![entry("..", "/parent")]);
    assert!(p.marked_or_cursor_paths().is_empty());
}

#[test]
fn marked_or_cursor_empty_entries_returns_empty() {
    let p = panel(vec![]);
    assert!(p.marked_or_cursor_paths().is_empty());
}

#[test]
fn marked_or_cursor_marked_dotdot_still_returned() {
    let mut p = panel(vec![entry("..", "/parent")]);
    p.marked.insert("/parent".to_string());
    assert_eq!(p.marked_or_cursor_paths(), vec!["/parent".to_string()]);
}

#[test]
fn cursor_entry_in_bounds() {
    let mut p = panel(vec![entry("a", "/a"), entry("b", "/b")]);
    p.cursor = 1;
    assert_eq!(p.cursor_entry().map(|e| e.name.as_str()), Some("b"));
}

#[test]
fn cursor_entry_out_of_bounds_returns_none() {
    let mut p = panel(vec![entry("a", "/a")]);
    p.cursor = 5;
    assert!(p.cursor_entry().is_none());
}

#[test]
fn fm_select_next_clamps_at_last() {
    let mut p = panel(vec![entry("a", "/a"), entry("b", "/b")]);
    p.select_next();
    p.select_next();
    p.select_next();
    assert_eq!(p.cursor, 1);
}

#[test]
fn fm_select_next_noop_when_empty() {
    let mut p = panel(vec![]);
    p.select_next();
    assert_eq!(p.cursor, 0);
}

#[test]
fn fm_select_prev_saturates_at_zero() {
    let mut p = panel(vec![entry("a", "/a")]);
    p.select_prev();
    assert_eq!(p.cursor, 0);
}

#[test]
fn pending_focus_positions_cursor_on_matching_entry() {
    let entries = vec![
        entry("..", "/"),
        entry("alpha", "/alpha"),
        entry("projects", "/projects"),
        entry("zeta", "/zeta"),
    ];
    let mut p = panel(entries.clone());
    p.pending_focus_path = Some("/projects".to_string());
    p.apply_listing(entries);
    assert_eq!(p.cursor, 2, "cursor should land on the 'projects' entry");
    assert!(p.pending_focus_path.is_none(), "field must be consumed");
}

#[test]
fn pending_focus_falls_back_to_zero_when_no_match() {
    let entries = vec![entry("..", "/"), entry("alpha", "/alpha")];
    let mut p = panel(entries.clone());
    p.pending_focus_path = Some("/vanished".to_string());
    p.apply_listing(entries);
    assert_eq!(p.cursor, 0);
    assert!(p.pending_focus_path.is_none());
}

#[test]
fn pending_focus_survives_hidden_filter() {
    let mut p = FilePanelView::default();
    p.pending_focus_path = Some("/home/projects".to_string());
    p.apply_listing(vec![
        entry("..", "/home"),
        entry(".cache", "/home/.cache"),
        entry("projects", "/home/projects"),
    ]);
    assert_eq!(p.entries[p.cursor].name, "projects");
}

#[test]
fn no_pending_focus_starts_cursor_at_zero() {
    let mut p = panel(vec![]);
    p.apply_listing(vec![entry("..", "/"), entry("alpha", "/alpha")]);
    assert_eq!(p.cursor, 0);
}

#[test]
fn default_hides_dotfiles_but_keeps_dotdot() {
    let p = panel_with_raw(vec![
        entry("..", "/"),
        entry(".bashrc", "/.bashrc"),
        entry("alpha", "/alpha"),
        entry(".config", "/.config"),
        entry("zeta", "/zeta"),
    ]);
    assert_eq!(
        visible_names(&p),
        vec!["..", "alpha", "zeta"],
        "dotfiles hidden by default, .. always visible"
    );
    assert!(!p.show_hidden);
}

#[test]
fn toggling_show_hidden_reveals_dotfiles() {
    let mut p = panel_with_raw(vec![
        entry("..", "/"),
        entry(".bashrc", "/.bashrc"),
        entry("alpha", "/alpha"),
        entry(".config", "/.config"),
    ]);
    p.show_hidden = true;
    p.apply_hidden_filter();
    assert_eq!(
        visible_names(&p),
        vec!["..", ".bashrc", "alpha", ".config"],
        "all entries visible when show_hidden = true"
    );
    p.show_hidden = false;
    p.apply_hidden_filter();
    assert_eq!(visible_names(&p), vec!["..", "alpha"]);
}

#[test]
fn cursor_preserved_by_path_when_toggling() {
    let raw = vec![
        entry("..", "/"),
        entry("alpha", "/alpha"),
        entry(".hidden", "/.hidden"),
        entry("zeta", "/zeta"),
    ];
    let mut p = FilePanelView {
        raw_entries: raw.clone(),
        entries: raw,
        cursor: 3,
        show_hidden: true,
        ..FilePanelView::default()
    };
    p.show_hidden = false;
    p.apply_hidden_filter();
    let zeta_idx = p
        .entries
        .iter()
        .position(|e| e.name == "zeta")
        .expect("zeta must still be in entries after toggle");
    assert_eq!(p.cursor, zeta_idx, "cursor stays on zeta after hide");
    p.show_hidden = true;
    p.apply_hidden_filter();
    let zeta_idx = p.entries.iter().position(|e| e.name == "zeta").unwrap();
    assert_eq!(p.cursor, zeta_idx);
}

#[test]
fn cursor_falls_back_to_zero_when_cursor_path_is_filtered_out() {
    let raw = vec![
        entry("..", "/"),
        entry("alpha", "/alpha"),
        entry(".hidden", "/.hidden"),
        entry("zeta", "/zeta"),
    ];
    let mut p = FilePanelView {
        raw_entries: raw.clone(),
        entries: raw,
        cursor: 2,
        show_hidden: true,
        ..FilePanelView::default()
    };
    p.show_hidden = false;
    p.apply_hidden_filter();
    assert_eq!(p.cursor, 0);
    assert_eq!(p.entries[0].name, "..");
}

#[test]
fn dotdot_always_visible_regardless_of_toggle() {
    let mut p = panel_with_raw(vec![entry("..", "/parent"), entry(".bashrc", "/.bashrc")]);
    p.show_hidden = false;
    p.apply_hidden_filter();
    assert!(
        p.entries.iter().any(|e| e.name == ".."),
        ".. must remain visible when show_hidden = false"
    );
    p.show_hidden = true;
    p.apply_hidden_filter();
    assert!(p.entries.iter().any(|e| e.name == ".."));
}

#[test]
fn hiding_drops_marks_on_now_hidden_entries() {
    let mut p = FilePanelView {
        show_hidden: true,
        ..FilePanelView::default()
    };
    p.apply_listing(vec![
        entry("..", "/"),
        entry(".secret", "/.secret"),
        entry("visible", "/visible"),
    ]);
    p.marked.insert("/.secret".to_string());
    p.marked.insert("/visible".to_string());
    p.show_hidden = false;
    p.apply_hidden_filter();
    assert!(!p.marked.contains("/.secret"));
    assert!(p.marked.contains("/visible"));
}

#[test]
fn listing_clears_marks_and_scroll() {
    let mut p = FilePanelView::default();
    p.marked.insert("/a".to_string());
    p.scroll = 4;
    p.apply_listing(vec![entry("a", "/a")]);
    assert!(p.marked.is_empty());
    assert_eq!(p.scroll, 0);
}

#[test]
fn marked_set_lists_each_path_once() {
    let mut p = panel(vec![entry("a", "/a")]);
    assert!(p.marked.insert("/x".to_string()));
    assert!(!p.marked.insert("/x".to_string()));
    assert!(p.marked.insert("/y".to_string()));
    assert_eq!(p.marked.len(), 2);
    let mut paths = p.marked_or_cursor_paths();
    paths.sort();
    assert_eq!(paths, vec!["/x".to_string(), "/y".to_string()]);
}

#[test]
fn join_path_strips_trailing_slashes() {
    assert_eq!(join_path("/home/u/", "f.txt"), "/home/u/f.txt");
    assert_eq!(join_path("/home/u//", "f.txt"), "/home/u/f.txt");
    assert_eq!(join_path("/", "etc"), "/etc");
    assert_eq!(join_path("", "x"), "/x");
}

#[test]
fn parent_dir_of_paths() {
    assert_eq!(parent_dir("/home/u"), Some("/home".to_string()));
    assert_eq!(parent_dir("/home"), Some("/".to_string()));
    assert_eq!(parent_dir("/"), None);
    assert_eq!(parent_dir("dir"), Some("/".to_string()));
}

#[test]
fn filename_of_paths() {
    assert_eq!(filename_of("/home/u/notes.txt"), "notes.txt");
    assert_eq!(filename_of("/"), "file");
}

#[test]
fn paste_plan_errors() {
    assert_eq!(
        plan_paste(&None, FmPanel::Local, "/tmp", 1).unwrap_err(),
        "Nothing in clipboard."
    );
    let same = Some(FmClipboard {
        paths: vec!["/a".to_string()],
        source_panel: FmPanel::Remote,
    });
    assert_eq!(
        plan_paste(&same, FmPanel::Remote, "/tmp", 1).unwrap_err(),
        "Cannot paste to the same panel."
    );
    let empty = Some(FmClipboard {
        paths: vec![],
        source_panel: FmPanel::Local,
    });
    assert_eq!(
        plan_paste(&empty, FmPanel::Remote, "/tmp", 1).unwrap_err(),
        "Clipboard is empty."
    );
}

#[test]
fn paste_plan_queues_every_file() {
    let clip = Some(FmClipboard {
        paths: vec!["/home/u/a.txt".to_string(), "/home/u/b.log".to_string()],
        source_panel: FmPanel::Local,
    });
    let plan = plan_paste(&clip, FmPanel::Remote, "/srv/", 7).unwrap();
    assert_eq!(plan.popup_name, "a.txt  (+1 more)");
    assert_eq!(plan.transfers.len(), 2);
    assert_eq!(plan.transfers[0].dst, "/srv/a.txt");
    assert_eq!(plan.transfers[1].dst, "/srv/b.log");
    assert_eq!(plan.transfers[0].transfer_id, 7);
    assert_eq!(plan.transfers[1].transfer_id, 8);
    assert!(plan.transfers[0].upload);
    let back = Some(FmClipboard {
        paths: vec!["/srv/a.txt".to_string()],
        source_panel: FmPanel::Remote,
    });
    let plan = plan_paste(&back, FmPanel::Local, "/home/u", 1).unwrap();
    assert_eq!(plan.popup_name, "a.txt");
    assert!(!plan.transfers[0].upload);
    assert_eq!(plan.transfers[0].src, "/srv/a.txt");
    assert_eq!(plan.transfers[0].dst, "/home/u/a.txt");
}

#[test]
fn parent_dir_of_relative_paths() {
    assert_eq!(parent_dir("srv/data/logs"), Some("srv/data".to_string()));
    assert_eq!(filename_of("srv/data/logs.txt"), "logs.txt");
}
