//! The decisions of a single-window render loop: which surface
//! configuration is in force, which colour the frame is cleared to, what
//! one frame draws, and how window events and frame failures move the
//! loop between running and stopping. The GPU and the window system are
//! driven by the caller, which hands in plain events and carries out the
//! actions it gets back.

use vstd::prelude::*;

pub mod color;
pub mod context;
pub mod driver;
pub mod event;
pub mod frame;
pub mod geometry;
pub mod laws;
pub mod pipeline;
pub mod state;
pub mod surface;
