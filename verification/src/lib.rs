//! Core of an interactive shader playground: the uniform block that is handed
//! to the GPU every frame, and the coordinator that turns edits and file
//! change notifications into pipeline rebuilds.

pub mod clock;
pub mod compiler;
pub mod coordinator;
pub mod notifier;
pub mod pipeline;
pub mod render;
pub mod source;
pub mod uniform;

pub use crate::coordinator::App;
