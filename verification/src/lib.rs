//! Verified core of a small tabbed web browser: address-bar input
//! classification, search URL construction, per-tab state, and the
//! window's tab list and chrome-layout decisions.

pub mod text;
pub mod encoding;
pub mod config;
pub mod navigation;
pub mod webview;
pub mod tab;
pub mod labels;
pub mod window;
pub mod shell;
pub mod laws;
