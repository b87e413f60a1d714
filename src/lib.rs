//! Runtime core of a motion-driven interactive device: the motion classifier,
//! the display state machine and the orchestrator that drives it, the event
//! bus and actor decisions around them, and the small pieces of layout,
//! animation and buffering the user interface relies on.

pub mod animation;
pub mod api;
pub mod audio;
pub mod channel;
pub mod display;
pub mod events;
pub mod helper;
pub mod layout;
pub mod motion;
pub mod motion_actor;
pub mod orchestrator;
pub mod text;
pub mod ui;
pub mod wifi;
