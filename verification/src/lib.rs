//! Project scaffolding: a closed set of template variants, literal token
//! substitution, the scaffolding state machine, and a registry of lifecycle
//! hooks.

pub mod app;
pub mod config;
pub mod hooks;
pub mod scaffold;
pub mod strings;
pub mod substitute;
pub mod template;
