//! A fast, configurable, shell plugin manager.
//!
//! This library holds the logic of the `sheldon` command: reading and
//! normalizing the plugin configuration, resolving where sources are kept,
//! locking plugins, and generating the shell script.

pub mod text;
pub mod util;
pub mod error;
pub mod template_map;
pub mod url;
pub mod config;
pub mod template;
pub mod lock;
pub mod context;
pub mod cli;
pub mod editor;
pub mod app;
