//! Application configuration: the settings sections with their defaults and
//! the theme catalogue. Reading and writing the TOML file is done by the
//! application around this library.

use vstd::prelude::*;

use crate::text::str_eq;

verus! {

/// Main application configuration.
#[derive(Debug, Clone)]
pub struct AppConfig {
    pub general: GeneralConfig,
    pub ui: UiConfig,
    pub keybindings: KeybindingsConfig,
    pub smart_context: SmartContextConfig,
    pub auto_key_setup: AutoKeySetupConfig,
    pub update: UpdateConfig,
}

/// General / runtime settings.
#[derive(Debug, Clone)]
pub struct GeneralConfig {
    /// Seconds between automatic metric refreshes.
    pub refresh_interval: u64,
    pub default_shell: String,
    /// Path to the system SSH binary.
    pub ssh_command: String,
    pub max_concurrent_connections: usize,
}

/// Visual / theme settings.
#[derive(Debug, Clone)]
pub struct UiConfig {
    /// One of: `default`, `dracula`, `nord`, `gruvbox`.
    pub theme: String,
    pub show_ip: bool,
    pub show_uptime: bool,
    /// One of: `grid`, `list`.
    pub card_layout: String,
    /// One of: `rounded`, `plain`, `double`.
    pub border_style: String,
}

/// Keyboard shortcut overrides (all values are key name strings such as
/// `"Tab"`, `"q"`, `"F1"` or `"Ctrl+T"`).
#[derive(Debug, Clone)]
pub struct KeybindingsConfig {
    pub quit: String,
    pub search: String,
    pub connect: String,
    pub dashboard: String,
    pub file_manager: String,
    pub snippets: String,
    /// Key that cycles to the next app screen; also switches File Manager panels.
    pub next_screen: String,
    /// Key that cycles terminal tabs / split panes.
    pub next_tab: String,
}

/// Smart Server Context configuration.
#[derive(Debug, Clone)]
pub struct SmartContextConfig {
    /// Enable automatic service discovery and monitoring.
    pub enabled: bool,
    /// Seconds between deep probe scans (0 disables periodic scans).
    pub scan_interval: u64,
}

/// Auto SSH Key Setup configuration.
#[derive(Debug, Clone)]
pub struct AutoKeySetupConfig {
    pub enabled: bool,
    pub suggest_on_password_auth: bool,
    pub disable_password_auth: bool,
    /// SSH key type to generate (ed25519 | rsa-4096).
    pub key_type: String,
    /// Directory where SSH keys are stored.
    pub key_directory: String,
    pub backup_sshd_config: bool,
    pub confirm_before_disable: bool,
}

/// Update checker configuration.
#[derive(Debug, Clone)]
pub struct UpdateConfig {
    /// Check for a newer release on startup.
    pub check_on_startup: bool,
    /// A version the user chose to skip; it is never offered again.
    pub skip_version: String,
}

/// The built-in theme names, in display order.
pub open spec fn theme_names() -> Seq<Seq<char>> {
    seq!["default"@, "dracula"@, "nord"@, "gruvbox"@]
}

impl UiConfig {
    /// Returns the list of all available built-in theme names.
    pub fn available_themes() -> (res: &'static [&'static str])
        ensures
            res@.map_values(|s: &str| s@) == theme_names(),
    {
        let themes: &'static [&'static str] = &["default", "dracula", "nord", "gruvbox"];
        assert(themes@.map_values(|s: &str| s@) =~= theme_names());
        themes
    }

    /// Checks if the given theme name is one of the built-in themes.
    pub fn is_valid_theme(name: &str) -> (res: bool)
        ensures
            res == theme_names().contains(name@),
    {
        let themes = Self::available_themes();
        let mut i: usize = 0;
        while i < themes.len()
            invariant
                i <= themes.len(),
                themes@.map_values(|s: &str| s@) == theme_names(),
                forall|j: int| 0 <= j < i ==> theme_names()[j] != name@,
            decreases themes.len() - i,
        {
            assert(themes@.map_values(|s: &str| s@)[i as int] == themes@[i as int]@);
            if str_eq(themes[i], name) {
                assert(theme_names()[i as int] == name@);
                return true;
            }
            i = i + 1;
        }
        assert(!theme_names().contains(name@)) by {
            if theme_names().contains(name@) {
                let j = choose|j: int| 0 <= j < theme_names().len() && theme_names()[j] == name@;
                assert(theme_names()[j] != name@);
            }
        }
        false
    }
}

/// Records `theme_name` as the theme of `config`: the change that saving a
/// theme makes to the configuration file, whose reading and writing the
/// caller does.
pub fn save_theme_to_config(config: &mut AppConfig, theme_name: &str)
    ensures
        final(config).ui.theme@ == theme_name@,
        final(config).ui.show_ip == old(config).ui.show_ip,
        final(config).ui.show_uptime == old(config).ui.show_uptime,
        final(config).ui.card_layout == old(config).ui.card_layout,
        final(config).ui.border_style == old(config).ui.border_style,
        final(config).general == old(config).general,
        final(config).keybindings == old(config).keybindings,
        final(config).smart_context == old(config).smart_context,
        final(config).auto_key_setup == old(config).auto_key_setup,
        final(config).update == old(config).update,
{
    config.ui.theme = theme_name.to_owned();
}

/// Replaces the update preferences of `config`: the change that saving the
/// update settings makes to the configuration file, whose reading and
/// writing the caller does.
pub fn save_update_config(config: &mut AppConfig, update: &UpdateConfig)
    ensures
        final(config).update.check_on_startup == update.check_on_startup,
        final(config).update.skip_version@ == update.skip_version@,
        final(config).general == old(config).general,
        final(config).ui == old(config).ui,
        final(config).keybindings == old(config).keybindings,
        final(config).smart_context == old(config).smart_context,
        final(config).auto_key_setup == old(config).auto_key_setup,
{
    config.update = UpdateConfig {
        check_on_startup: update.check_on_startup,
        skip_version: update.skip_version.clone(),
    };
}

impl Default for GeneralConfig {
    fn default() -> (res: Self)
        ensures
            res.refresh_interval == 30,
            res.default_shell@ == "/bin/bash"@,
            res.ssh_command@ == "ssh"@,
            res.max_concurrent_connections == 10,
    {
        GeneralConfig {
            refresh_interval: 30,
            default_shell: "/bin/bash".to_owned(),
            ssh_command: "ssh".to_owned(),
            max_concurrent_connections: 10,
        }
    }
}

impl Default for UiConfig {
    fn default() -> (res: Self)
        ensures
            res.theme@ == "default"@,
            res.show_ip,
            res.show_uptime,
            res.card_layout@ == "grid"@,
            res.border_style@ == "rounded"@,
    {
        UiConfig {
            theme: "default".to_owned(),
            show_ip: true,
            show_uptime: true,
            card_layout: "grid".to_owned(),
            border_style: "rounded".to_owned(),
        }
    }
}

impl Default for KeybindingsConfig {
    fn default() -> (res: Self)
        ensures
            res.quit@ == "q"@,
            res.search@ == "/"@,
            res.connect@ == "Enter"@,
            res.dashboard@ == "F1"@,
            res.file_manager@ == "F2"@,
            res.snippets@ == "F3"@,
            res.next_screen@ == "Tab"@,
            res.next_tab@ == "Tab"@,
    {
        KeybindingsConfig {
            quit: "q".to_owned(),
            search: "/".to_owned(),
            connect: "Enter".to_owned(),
            dashboard: "F1".to_owned(),
            file_manager: "F2".to_owned(),
            snippets: "F3".to_owned(),
            next_screen: "Tab".to_owned(),
            next_tab: "Tab".to_owned(),
        }
    }
}

impl Default for SmartContextConfig {
    fn default() -> (res: Self)
        ensures
            res.enabled,
            res.scan_interval == 300,
    {
        SmartContextConfig { enabled: true, scan_interval: 300 }
    }
}

impl Default for AutoKeySetupConfig {
    fn default() -> (res: Self)
        ensures
            res.enabled,
            res.suggest_on_password_auth,
            res.disable_password_auth,
            res.key_type@ == "ed25519"@,
            res.key_directory@ == "~/.ssh"@,
            res.backup_sshd_config,
            res.confirm_before_disable,
    {
        AutoKeySetupConfig {
            enabled: true,
            suggest_on_password_auth: true,
            disable_password_auth: true,
            key_type: "ed25519".to_owned(),
            key_directory: "~/.ssh".to_owned(),
            backup_sshd_config: true,
            confirm_before_disable: true,
        }
    }
}

impl Default for UpdateConfig {
    fn default() -> (res: Self)
        ensures
            res.check_on_startup,
            res.skip_version@.len() == 0,
    {
        UpdateConfig { check_on_startup: true, skip_version: String::new() }
    }
}

impl Default for AppConfig {
    fn default() -> (res: Self)
        ensures
            res.general.refresh_interval == 30,
            res.general.default_shell@ == "/bin/bash"@,
            res.general.ssh_command@ == "ssh"@,
            res.general.max_concurrent_connections == 10,
            res.ui.theme@ == "default"@,
            res.ui.show_ip,
            res.ui.show_uptime,
            res.ui.card_layout@ == "grid"@,
            res.ui.border_style@ == "rounded"@,
            res.keybindings.quit@ == "q"@,
            res.keybindings.search@ == "/"@,
            res.keybindings.connect@ == "Enter"@,
            res.keybindings.dashboard@ == "F1"@,
            res.keybindings.file_manager@ == "F2"@,
            res.keybindings.snippets@ == "F3"@,
            res.keybindings.next_screen@ == "Tab"@,
            res.keybindings.next_tab@ == "Tab"@,
            res.smart_context.enabled,
            res.smart_context.scan_interval == 300,
            res.auto_key_setup.enabled,
            res.auto_key_setup.suggest_on_password_auth,
            res.auto_key_setup.disable_password_auth,
            res.auto_key_setup.key_type@ == "ed25519"@,
            res.auto_key_setup.key_directory@ == "~/.ssh"@,
            res.auto_key_setup.backup_sshd_config,
            res.auto_key_setup.confirm_before_disable,
            res.update.check_on_startup,
            res.update.skip_version@.len() == 0,
    {
        AppConfig {
            general: GeneralConfig::default(),
            ui: UiConfig::default(),
            keybindings: KeybindingsConfig::default(),
            smart_context: SmartContextConfig::default(),
            auto_key_setup: AutoKeySetupConfig::default(),
            update: UpdateConfig::default(),
        }
    }
}

} // verus!
