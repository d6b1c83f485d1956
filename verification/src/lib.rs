//! Core of a terminal text editor with a script-extensible command language.
//!
//! The library holds the verified logic: the multi-tab text buffer model with
//! Unicode-correct cursor arithmetic, the command/alias/history pipeline, and
//! the plugin host that routes commands to native handlers or to handlers
//! registered by loaded scripts. Screen drawing, file and process I/O, and
//! the log sink live outside the library and talk to it through plain values.

pub mod app;
pub mod bridge;
pub mod commands;
pub mod config;
pub mod edits;
pub mod laws;
pub mod logfmt;
pub mod plugin;
pub mod strmap;
pub mod strutil;
pub mod tabs;
