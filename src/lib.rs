//! A free-fly camera controller: the per-frame decisions that turn held keys
//! and pointer-motion events into camera movement, looking and cursor capture.
//!
//! Key identifiers are plain `u32` codes, so the logic does not depend on any
//! particular input backend.

pub mod bindings;
pub mod capture;
pub mod movement;
pub mod look;
pub mod frame;
