//! Playback control for an animated model viewer: the state that says whether
//! playback runs and which clip is active, the per-frame decisions that bind
//! and drive the animation player, the pause gate of the rotating target, and
//! the play/stop control.
pub mod clips;
pub mod controller;
pub mod model;
pub mod rotation;
pub mod ui;
