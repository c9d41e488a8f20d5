//! A minimal application shell: a window, a GPU context negotiated against it,
//! and a per-frame render loop over a list of rectangular views.
//!
//! The library decides; it never touches a window or a GPU. Every entry point
//! takes plain values and hands back the ordered list of actions that the
//! driver around it has to perform.

pub mod app;
pub mod application;
pub mod canvas;
pub mod context;
pub mod laws;
pub mod model;
pub mod protocol;
pub mod renderer;
pub mod video;
pub mod view;
