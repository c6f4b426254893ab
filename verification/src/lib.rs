//! Verified core of a bare-metal interrupt-driven kernel demo.
//!
//! The crate models the decision logic of the boot sequence and of the
//! interrupt-driven game workload: validating the facts handed over by the
//! boot stage, allocating physical frames during bootstrap, and advancing
//! the shared game state from dispatched timer and key events.  Hardware
//! access (framebuffer writes, register reads, the interrupt controller)
//! stays outside, behind plain-value interfaces.

pub mod boot;
pub mod dispatch;
pub mod frames;
pub mod game;
pub mod memory;
pub mod render;
