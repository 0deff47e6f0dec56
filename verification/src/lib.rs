//! Device-memory and image-state management for a GPU renderer.
//!
//! The library owns the decisions of the renderer's resource substrate: it
//! bump-allocates image bindings inside fixed device-memory blocks scoped to
//! a render pass or to a whole frame, tracks each image's access/layout
//! state, and synthesizes the minimal pipeline barriers needed when that
//! state changes. The graphics device itself (memory heaps, image and view
//! handles, command recording) lives outside: callers perform those calls
//! with the offsets, barriers, and copy regions computed here.

pub mod barrier;
pub mod image;
pub mod memory;
pub mod render_target;
