//! Run-loop decisions for an immediate-mode UI application that renders to a
//! GPU surface: when a frame is produced, how the surface configuration keeps
//! up with the window size, and what the host event loop is told to do next.
//!
//! The host program owns the window, the GPU and the UI framework; it hands
//! every native event and every per-frame result to [`run_loop::RunState`]
//! and carries out the action it gets back.

pub mod clock;
pub mod surface;
pub mod run_loop;
