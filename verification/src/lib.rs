//! A fine-grained reactive runtime: signals hold values, effects read them,
//! and a write to a signal re-runs the effects that read it on their latest
//! run. Beside it, the decisions that a Win32 program takes around its
//! windows and messages, free of any call into the system.

pub mod caption;
pub mod droppable;
pub mod errors;
pub mod hit_test;
pub mod hwnd_builder;
pub mod messages;
pub mod param;
pub mod runtime;
pub mod text;
pub mod theorems;
pub mod wide;
pub mod window;
pub mod window_state;

pub use droppable::Droppable;
pub use runtime::{Effect, Runtime, Signal, State};
pub use window::{window, WindowBuilder};
