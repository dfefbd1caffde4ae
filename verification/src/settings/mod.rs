//! Application settings and the rules that read and change them.
pub mod configs;
pub mod app_settings;
pub mod migration;
pub mod update;
pub mod domains;
pub mod hotkey;
