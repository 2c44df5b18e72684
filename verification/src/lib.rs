//! Launcher for a private game server: the state machine behind its window, its terminal
//! pages and the processes that it supervises.
pub mod app;
pub mod config;
pub mod emulator;
pub mod input;
pub mod laws;
pub mod model;
pub mod process;
pub mod service;
pub mod terminal;
pub mod text;
pub mod theme;
pub mod ui;
pub mod update;

pub use config::Config;
pub use service::{ServiceKind, Status};
