//! Core of an interactive first-person renderer: the frame-submission and
//! presentation-synchronization protocol, the presentation-surface state
//! machine, the aggregation of raw input into per-tick camera events, and the
//! translation of those events into camera motion steps.
//!
//! The GPU device, the window shell and the floating-point vector arithmetic
//! are external collaborators: this crate models their results as opaque
//! payloads and verifies the decisions made around them.

pub mod camera;
pub mod input;
pub mod submit;
pub mod surface;
