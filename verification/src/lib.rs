//! Game rules of Monke Bucko: the state machines, counters and table look-ups
//! that drive the scenes, kept free of rendering, audio and disk access.

pub mod app_state;
pub mod game;
pub mod animation;
pub mod progress;
pub mod menu;
pub mod auto_scaling;
