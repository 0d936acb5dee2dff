//! Verified core of the ZJU Connect desktop helper: launch options and the
//! `zju-connect` command line, browser detection and the EIP launcher, the
//! elevated-relaunch protocol, the proxy supervisor's session state machine,
//! log/prompt classification, retry pacing, and the web API's auth checks.

pub mod backend;
pub mod text;
pub mod tray;
pub mod web;
