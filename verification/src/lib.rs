//! Live shader-preview core: the hot-reload path from filesystem change
//! events to a recompiled GPU pipeline, the per-frame scheduler state, and
//! the uniform/interaction state machine that every compiled shader consumes.
//!
//! The library owns the data and the decisions; a thin host around it does
//! the I/O: it watches the directory, reads files, and talks to the GPU.

pub mod assets;
pub mod runtime;
pub mod scheduler;
pub mod text;
pub mod toy;
pub mod watch;
