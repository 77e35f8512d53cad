//! Verified core logic of an SSH dashboard: configuration defaults, probe
//! parsing and service detection, key parsing and encoding, the text-input
//! and list-view state machines, snippet templating and the file panels.

pub mod action;
pub mod assoc;
pub mod cli;
pub mod config;
pub mod dispatch;
pub mod file_icons;
pub mod file_manager;
pub mod form;
pub mod host;
pub mod host_actions;
pub mod host_keys;
pub mod host_list;
pub mod keybindings;
pub mod keys;
pub mod num;
pub mod order;
pub mod paste;
pub mod path_set;
pub mod platform;
pub mod probe;
pub mod routing;
pub mod screen;
pub mod scroll;
pub mod services;
pub mod snippet_actions;
pub mod snippets;
pub mod term_input;
pub mod term_keys;
pub mod terminal;
pub mod text;
pub mod update;
