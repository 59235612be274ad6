//! Decision logic of the Lift tiling window manager's actors.
//!
//! Every rule that the actors follow lives here as a verified function from
//! plain observations to plain decisions: what the reactor does with an event,
//! how the app actor tracks accessibility windows, when a display
//! reconfiguration counts as settled, which hotkeys fire. Talking to the
//! system (accessibility calls, event taps, channels, timers) is left to the
//! application around this crate.

pub mod app;
pub mod broadcast;
pub mod collections;
pub mod config;
pub mod event;
pub mod event_tap;
pub mod geometry;
pub mod ids;
pub mod mission_control;
pub mod model;
pub mod notification_center;
pub mod reactor;
pub mod sorting;
pub mod stack_line;
pub mod text;
pub mod wm_controller;
