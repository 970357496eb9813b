//! The decision logic of a desktop shell that manages a local `tp-agent` daemon.

pub mod agent;
pub mod archive;
pub mod base64_text;
pub mod browser;
pub mod config;
pub mod dialog_page;
pub mod dir_copy;
pub mod html;
pub mod install;
pub mod json;
pub mod locate;
pub mod login;
pub mod markdown;
pub mod paths;
pub mod platform;
pub mod process;
pub mod shell;
pub mod text;
pub mod update;
pub mod updater_ui;
pub mod urls;
pub mod window_state;
