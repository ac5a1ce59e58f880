//! Decision logic of the Nokta desktop shell.
//!
//! The shell wraps one remote web application in a native window with a
//! system-tray presence. Everything it decides — how a server URL is
//! normalized and remembered, when the first-run prompt is put to the user
//! and which replies it adopts, and what each tray command or window event
//! does — lives here, stated in contracts and proved. The host side (the
//! window, the tray icon, the native dialog, the launch-on-login
//! registration, the persisted file) performs those decisions.

pub mod config;
pub mod resolver;
pub mod tray;
pub mod url_text;
