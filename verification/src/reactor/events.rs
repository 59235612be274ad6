//! The handlers of the reactor's events.

pub mod app;
pub mod command;
pub mod display_command;
pub mod drag;
pub mod error_text;
pub mod frame;
pub mod hover;
pub mod layout_command;
pub mod migration;
pub mod reactor_command;
pub mod resolve;
pub mod screens;
pub mod space;
pub mod space_change;
pub mod window;
pub mod window_discovery;
pub mod window_sync;
