//! Runtime substrate of a desktop overlay shell.
//!
//! Two cores: the frame pipeline (surface configuration, compositing order,
//! row-stride-corrected readback of rendered frames) and the command bridge
//! (JSON request envelopes routed to named handlers, with correlated
//! responses).

pub mod bridge;
pub mod compositor;
pub mod envelope;
pub mod json;
pub mod readback;
pub mod surface;
