//! Core of a staged widget pipeline: content-driven text commits, deferred
//! geometry synchronization against host-measured text sizes, and axis-aligned
//! collision classification with stateful edge highlighting.
//!
//! All geometry is modelled in integer units.  The surrounding host (window
//! and camera setup, rendering, fonts, the actual text measurement) is an
//! external collaborator: it hands this library plain values and takes plain
//! values back.

pub mod collide;
pub mod content;
pub mod frame;
pub mod gate;
pub mod highlight;
pub mod sync;
pub mod text;
pub mod timer;
