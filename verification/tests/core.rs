use omnyssh::config::{save_theme_to_config, save_update_config, AppConfig, UiConfig, UpdateConfig};
use omnyssh::file_icons::{icon_for, DIR_CLOSED, DIR_OPEN, GENERIC, SETI_RUST};
use omnyssh::keybindings::{parse_keybind, parse_keycode, ParsedKeybindings};
use omnyssh::keys::{should_forward_key, KeyCode, KeyEvent, KeyEventKind, KeyModifiers};
use omnyssh::paste::{encode_paste, paste_to_keys};
use omnyssh::probe::ProbeOutput;
use omnyssh::scroll::{resolve_scroll, ScrollAction};
use omnyssh::services::{
    metric_int, DockerProvider, MetricValue, NginxProvider, NodeJSProvider, PostgreSQLProvider,
    RedisProvider, ServiceKind, ServiceProvider, ServiceRegistry,
};
use omnyssh::term_input::key_to_bytes;

#[test]
fn update_config_defaults_to_enabled() {
    let cfg = UpdateConfig::default();
    assert!(cfg.check_on_startup);
    assert!(cfg.skip_version.is_empty());
}

#[test]
fn theme_list_and_validation() {
    assert_eq!(
        UiConfig::available_themes(),
        &["default", "dracula", "nord", "gruvbox"]
    );
    assert!(UiConfig::is_valid_theme("nord"));
    assert!(!UiConfig::is_valid_theme("Nord"));
    assert!(!UiConfig::is_valid_theme("solarized"));
}

#[test]
fn saving_theme_and_update_settings_changes_only_them() {
    let mut cfg = AppConfig::default();
    save_theme_to_config(&mut cfg, "dracula");
    assert_eq!(cfg.ui.theme, "dracula");
    assert!(cfg.update.check_on_startup);
    let upd = UpdateConfig {
        check_on_startup: false,
        skip_version: "1.2.3".to_string(),
    };
    save_update_config(&mut cfg, &upd);
    assert!(!cfg.update.check_on_startup);
    assert_eq!(cfg.update.skip_version, "1.2.3");
    assert_eq!(cfg.ui.theme, "dracula");
}

#[test]
fn test_docker_detect_from_probe() {
    let probe_output = "===OMNYSSH:DOCKER===\nabc123\tnginx\tUp 2 hours\tnginx:latest\n";
    let parsed = ProbeOutput::parse(probe_output).expect("should parse");
    let provider = DockerProvider;
    assert!(provider.detect(&parsed));
}

#[test]
fn test_docker_not_detected_when_absent() {
    let probe_output = "===OMNYSSH:OS===\nUbuntu\n";
    let parsed = ProbeOutput::parse(probe_output).expect("should parse");
    let provider = DockerProvider;
    assert!(!provider.detect(&parsed));
}

#[test]
fn test_nginx_detect_from_process() {
    let probe = "===OMNYSSH:PROCESS===\nroot 1234 nginx: master process\n";
    let parsed = ProbeOutput::parse(probe).expect("should parse");
    assert!(NginxProvider.detect(&parsed));
}

#[test]
fn test_pg_detect_from_systemd() {
    let probe = "===OMNYSSH:SERVICES===\npostgresql.service\nsshd.service\n";
    let parsed = ProbeOutput::parse(probe).expect("should parse");
    assert!(PostgreSQLProvider.detect(&parsed));
}

#[test]
fn test_pg_detect_from_port() {
    let probe = "===OMNYSSH:LISTEN===\n0.0.0.0:5432\tLISTEN\n";
    let parsed = ProbeOutput::parse(probe).expect("should parse");
    assert!(PostgreSQLProvider.detect(&parsed));
}

#[test]
fn test_redis_detect_from_port() {
    let probe = "===OMNYSSH:LISTEN===\n0.0.0.0:6379\tLISTEN\n";
    let parsed = ProbeOutput::parse(probe).expect("should parse");
    assert!(RedisProvider.detect(&parsed));
}

#[test]
fn test_redis_detect_from_process() {
    let probe = "===OMNYSSH:PROCESS===\nredis 1234 redis-server\n";
    let parsed = ProbeOutput::parse(probe).expect("should parse");
    assert!(RedisProvider.detect(&parsed));
}

#[test]
fn test_redis_not_detected() {
    let probe = "===OMNYSSH:SERVICES===\nsshd.service\n";
    let parsed = ProbeOutput::parse(probe).expect("should parse");
    assert!(!RedisProvider.detect(&parsed));
}

#[test]
fn test_nodejs_detect_from_process() {
    let probe = "===OMNYSSH:PROCESS===\nuser 1234 /usr/bin/node server.js\n";
    let parsed = ProbeOutput::parse(probe).expect("should parse");
    assert!(NodeJSProvider.detect(&parsed));
}

#[test]
fn test_nodejs_not_detected() {
    let probe = "===OMNYSSH:SERVICES===\nsshd.service\n";
    let parsed = ProbeOutput::parse(probe).expect("should parse");
    assert!(!NodeJSProvider.detect(&parsed));
}

#[test]
fn test_registry_creation() {
    let registry = ServiceRegistry::new();
    assert_eq!(registry.len(), 5);
}

#[test]
fn test_registry_get_provider() {
    let registry = ServiceRegistry::new();
    assert!(registry.get_provider(&ServiceKind::Docker).is_some());
    assert!(registry.get_provider(&ServiceKind::Nginx).is_some());
    assert!(registry.get_provider(&ServiceKind::PostgreSQL).is_some());
    assert!(registry.get_provider(&ServiceKind::Redis).is_some());
    assert!(registry.get_provider(&ServiceKind::NodeJS).is_some());
}

#[test]
fn registry_detects_in_provider_order() {
    let probe = "===OMNYSSH:PROCESS===\nnginx: worker\nredis-server\n===OMNYSSH:LISTEN===\n:5432\n";
    let parsed = ProbeOutput::parse(probe).expect("should parse");
    let found = ServiceRegistry::new().detect_services(&parsed);
    assert_eq!(
        found,
        vec![ServiceKind::Nginx, ServiceKind::PostgreSQL, ServiceKind::Redis]
    );
}

#[test]
fn probe_without_markers_is_rejected() {
    assert!(ProbeOutput::parse("just text\n").is_err());
}

#[test]
fn probe_sections_are_found_by_name() {
    let parsed = ProbeOutput::parse("===OMNYSSH:OS===\nUbuntu\n===OMNYSSH:UPTIME===\n5 days\n").unwrap();
    assert!(parsed.has_section("OS"));
    assert!(!parsed.has_section("DOCKER"));
    assert!(parsed.get_section("UPTIME").unwrap().contains("5 days"));
}

#[test]
fn metric_int_builds_integer_metric() {
    let m = metric_int("containers", 3);
    assert_eq!(m.name, "containers");
    assert_eq!(m.value, MetricValue::Integer(3));
}

#[test]
fn default_keybindings_parse() {
    let _kb = ParsedKeybindings::default();
}

#[test]
fn parse_ctrl_combo() {
    let kb = parse_keybind("Ctrl+T").unwrap();
    assert!(kb.ctrl);
    assert_eq!(kb.code, KeyCode::Char('t'));

    let kb = parse_keybind("ctrl+w").unwrap();
    assert!(kb.ctrl);
    assert_eq!(kb.code, KeyCode::Char('w'));

    let kb = parse_keybind("CTRL+q").unwrap();
    assert!(kb.ctrl);
    assert_eq!(kb.code, KeyCode::Char('q'));
}

#[test]
fn parse_plain_key() {
    let kb = parse_keybind("Tab").unwrap();
    assert!(!kb.ctrl);
    assert_eq!(kb.code, KeyCode::Tab);

    let kb = parse_keybind("F5").unwrap();
    assert!(!kb.ctrl);
}

#[test]
fn parse_keycode_rejects_unknown_names() {
    assert_eq!(parse_keycode("F5"), Some(KeyCode::F(5)));
    assert_eq!(parse_keycode("x"), Some(KeyCode::Char('x')));
    assert_eq!(parse_keycode("NotAKey"), None);
    assert!(parse_keybind("Ctrl+NotAKey").is_none());
}

#[test]
fn parse_keycode_single_f_is_a_character() {
    assert_eq!(parse_keycode("f"), Some(KeyCode::Char('f')));
    assert_eq!(parse_keycode("F"), Some(KeyCode::Char('F')));
    assert_eq!(parse_keycode("f12"), Some(KeyCode::F(12)));
    assert_eq!(parse_keycode("Fx"), None);
}

#[test]
fn keybind_matches_needs_the_same_ctrl_state() {
    let kb = parse_keybind("Ctrl+T").unwrap();
    assert!(kb.matches(KeyEvent::new(KeyCode::Char('t'), KeyModifiers::ctrl())));
    assert!(!kb.matches(KeyEvent::new(KeyCode::Char('t'), KeyModifiers::none())));
}

#[test]
fn forwards_press_and_repeat_but_not_release() {
    assert!(should_forward_key(KeyEventKind::Press));
    assert!(should_forward_key(KeyEventKind::Repeat));
    assert!(!should_forward_key(KeyEventKind::Release));
}

#[test]
fn key_bytes_for_common_keys() {
    assert_eq!(key_to_bytes(KeyEvent::new(KeyCode::Char('a'), KeyModifiers::none())), b"a".to_vec());
    assert_eq!(key_to_bytes(KeyEvent::new(KeyCode::Char('c'), KeyModifiers::ctrl())), vec![3u8]);
    assert_eq!(key_to_bytes(KeyEvent::new(KeyCode::Enter, KeyModifiers::none())), b"\r".to_vec());
    assert_eq!(key_to_bytes(KeyEvent::new(KeyCode::Up, KeyModifiers::none())), b"\x1b[A".to_vec());
}

#[test]
fn encode_wraps_only_when_bracketed() {
    assert_eq!(encode_paste("abc", false), b"abc".to_vec());
    assert_eq!(encode_paste("abc", true), b"\x1b[200~abc\x1b[201~".to_vec());
}

#[test]
fn encode_normalizes_newlines_to_cr() {
    assert_eq!(encode_paste("a\r\nb\nc", false), b"a\rb\rc".to_vec());
}

#[test]
fn encode_strips_embedded_markers() {
    let hostile = "a\x1b[201~rm -rf\x1b[200~b";
    assert_eq!(
        encode_paste(hostile, true),
        b"\x1b[200~arm -rfb\x1b[201~".to_vec()
    );
}

#[test]
fn encode_keeps_utf8_text() {
    assert_eq!(encode_paste("é\n", false), "é\r".as_bytes().to_vec());
}

#[test]
fn paste_to_keys_maps_chars_and_newlines() {
    let keys = paste_to_keys("ab\r\nc");
    let codes: Vec<KeyCode> = keys.iter().map(|k| k.code).collect();
    assert_eq!(
        codes,
        vec![
            KeyCode::Char('a'),
            KeyCode::Char('b'),
            KeyCode::Enter,
            KeyCode::Char('c'),
        ]
    );
}

#[test]
fn paste_to_keys_maps_tabs_and_lone_cr() {
    let keys = paste_to_keys("a\tb\rc\n");
    let codes: Vec<KeyCode> = keys.iter().map(|k| k.code).collect();
    assert_eq!(
        codes,
        vec![
            KeyCode::Char('a'),
            KeyCode::Tab,
            KeyCode::Char('b'),
            KeyCode::Enter,
            KeyCode::Char('c'),
            KeyCode::Enter,
        ]
    );
}

fn parser_with(seqs: &[&[u8]]) -> vt100::Parser {
    let mut p = vt100::Parser::new(24, 80, 1000);
    for s in seqs {
        p.process(s);
    }
    p
}

#[test]
fn normal_screen_scrolls_scrollback() {
    let p = parser_with(&[]);
    assert_eq!(resolve_scroll(3, p.screen()), ScrollAction::Scrollback(3));
    assert_eq!(resolve_scroll(-3, p.screen()), ScrollAction::Scrollback(-3));
}

#[test]
fn zero_delta_is_noop_scrollback() {
    let p = parser_with(&[b"\x1b[?1049h"]);
    assert_eq!(resolve_scroll(0, p.screen()), ScrollAction::Scrollback(0));
}

#[test]
fn alt_screen_without_mouse_sends_arrow_keys() {
    let p = parser_with(&[b"\x1b[?1049h"]);
    assert_eq!(
        resolve_scroll(3, p.screen()),
        ScrollAction::Forward(b"\x1b[A\x1b[A\x1b[A".to_vec())
    );
    assert_eq!(
        resolve_scroll(-3, p.screen()),
        ScrollAction::Forward(b"\x1b[B\x1b[B\x1b[B".to_vec())
    );
}

#[test]
fn alt_screen_with_application_cursor_uses_ss3() {
    let p = parser_with(&[b"\x1b[?1049h", b"\x1b[?1h"]);
    assert_eq!(
        resolve_scroll(3, p.screen()),
        ScrollAction::Forward(b"\x1bOA\x1bOA\x1bOA".to_vec())
    );
}

#[test]
fn alt_screen_with_mouse_sends_x10_wheel() {
    let p = parser_with(&[b"\x1b[?1049h", b"\x1b[?1000h"]);
    assert_eq!(
        resolve_scroll(3, p.screen()),
        ScrollAction::Forward(vec![0x1b, b'[', b'M', 96, 33, 33])
    );
    assert_eq!(
        resolve_scroll(-3, p.screen()),
        ScrollAction::Forward(vec![0x1b, b'[', b'M', 97, 33, 33])
    );
}

#[test]
fn alt_screen_with_sgr_mouse_sends_sgr_wheel() {
    let p = parser_with(&[b"\x1b[?1049h", b"\x1b[?1000h", b"\x1b[?1006h"]);
    assert_eq!(
        resolve_scroll(3, p.screen()),
        ScrollAction::Forward(b"\x1b[<64;1;1M".to_vec())
    );
    assert_eq!(
        resolve_scroll(-3, p.screen()),
        ScrollAction::Forward(b"\x1b[<65;1;1M".to_vec())
    );
}

#[test]
fn directories_get_folder_glyph() {
    assert_eq!(icon_for("projects", true), DIR_CLOSED);
    assert_eq!(icon_for("..", true), DIR_OPEN);
}

#[test]
fn extension_lookup_is_case_insensitive() {
    assert_eq!(icon_for("README.TXT", false), icon_for("readme.txt", false));
    assert_eq!(icon_for("PHOTO.JPG", false), icon_for("photo.jpg", false));
}

#[test]
fn hidden_dotfiles_get_generic_glyph() {
    assert_eq!(icon_for(".bashrc", false), GENERIC);
    assert_eq!(icon_for(".profile", false), GENERIC);
}

#[test]
fn unknown_extension_falls_back_to_generic() {
    assert_eq!(icon_for("weirdo.zzz", false), GENERIC);
}

#[test]
fn common_languages_resolve() {
    assert!(!icon_for("main.rs", false).is_empty());
    assert!(!icon_for("app.py", false).is_empty());
    assert!(!icon_for("index.js", false).is_empty());
}

#[test]
fn no_extension_file_is_generic() {
    assert_eq!(icon_for("Makefile", false), GENERIC);
}

#[test]
fn icon_uses_last_extension() {
    assert_eq!(icon_for("archive.tar.RS", false), SETI_RUST);
    assert_eq!(icon_for("\u{f15b}", false), GENERIC);
    assert_eq!(icon_for("\u{f15b}", false), "\u{f15b}");
}

#[test]
fn encode_paste_removes_markers_formed_by_removal() {
    assert_eq!(encode_paste("\x1b[20\x1b[201~1~", false), Vec::<u8>::new());
    assert_eq!(
        encode_paste("x\x1b[20\x1b[200~0~y", true),
        b"\x1b[200~xy\x1b[201~".to_vec()
    );
}
