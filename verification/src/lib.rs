//! A shader-driven view and the host around it.
//!
//! The view is a full-screen triangle whose fragment shader reads a small
//! block of push constants. This library holds what can be decided without a
//! GPU or a window: how the compiler's output becomes a set of shader modules
//! and how an entry point finds its module ([`spirv`], [`modules`]); the
//! push-constant block, its wire layout and how a frame's input changes it
//! ([`constants`], [`frame`], [`words`]); the plan of the render pipeline and
//! the commands of one frame's paint ([`pipeline`], [`registry`]); how the
//! view comes up, lives and takes over rebuilt shaders ([`custom3d`],
//! [`lifecycle`], [`watch`]); and the host that lists the view among its
//! sub-applications ([`wrap_app`], [`log_filter`]). The vertex stage's one
//! rule is in [`shader`].

pub mod constants;
pub mod custom3d;
pub mod frame;
pub mod lifecycle;
pub mod log_filter;
pub mod modules;
pub mod pipeline;
pub mod registry;
pub mod shader;
pub mod spirv;
pub mod watch;
pub mod words;
pub mod wrap_app;

pub use crate::custom3d::Custom3d;
pub use crate::wrap_app::{State, WrapApp};
