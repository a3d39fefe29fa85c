//! Native-side core of a desktop model-viewer shell.
//!
//! The library covers the three capabilities the shell hands its UI
//! layer: a greeting echo, the message built for a failed file read,
//! and a one-shot hand-off of a "startup file" path found in the
//! process's launch arguments.  The hand-off is the heart of it: the
//! path of a supported model file (`stl` or `3mf`, case-insensitive)
//! is captured from the argument list once at launch, seeded into a
//! single-slot cell, and delivered to the first caller that asks,
//! exactly once.

pub mod messages;
pub mod model_path;
pub mod pending;
pub mod scanner;
