//! Verified core of a hotkey-driven audio mixer: the configuration model,
//! the hotkey planning rules, and the decision logic that drives audio
//! session enumeration, hotkey execution and the interactive loop.

pub mod text;
pub mod config;
pub mod control;
pub mod scan;
pub mod utils;
