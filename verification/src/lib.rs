//! Window transparency and click-through management: the decisions behind
//! per-window opacity, topmost and pass-through settings, the low-level
//! mouse hook, hotkey configuration and the tray icon image.

pub mod config;
pub mod hook;
pub mod icon;
pub mod registry;
pub mod checklist;
pub mod text;
pub mod winmsg;
