//! Verified core of the egui/winit integration: it turns window events into
//! egui input, decides which events egui consumes, and decides what the
//! window has to do with egui's platform output.

pub mod context;
pub mod input;
pub mod laws;
pub mod outside;
pub mod platform_output;
pub mod state;
pub mod text;
pub mod translate;
pub mod window;

pub use state::State;
