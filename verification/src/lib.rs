//! Verified core of a minimal OpenGL window demo for Windows.
//!
//! The crate holds every decision the demo makes, as functions on plain
//! values: how a window message is answered, when the message pump stops,
//! how the creation of the rendering context proceeds, what one frame draws
//! and how the animation time advances. The program around it performs the
//! system calls and feeds their results back in.

pub mod context;
pub mod frame;
pub mod mem;
pub mod message;

pub use mem::{memcpy, memset};
pub use message::window_proc;
