//! Run-loop and resource-lifecycle core for windowed GPU applications.
//!
//! The library decides; the embedding program acts. Every decision of the
//! frame loop (when to call which hook, when to reconfigure the presentable
//! surface, when to stop) is a verified transition of [`run_loop::RunLoop`].
//! The program that owns the window and the graphics device performs the
//! commands that a transition hands back and reports what happened.

pub mod buffer;
pub mod clock;
pub mod hooks;
pub mod pipelines;
pub mod render_pass;
pub mod render_pipeline;
pub mod run_loop;
pub mod surface;
