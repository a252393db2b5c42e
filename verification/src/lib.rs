//! Verified core of a small platform SDK: time-measurement primitives over
//! plain clock readings, and the value-level part of the video bindings.

pub mod rect;
pub mod time;
pub mod video;

pub use rect::Rect;
