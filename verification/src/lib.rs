//! A cycle-accurate Game Boy / Game Boy Color emulator core.

pub mod bits;
pub mod blip;
pub mod components;
pub mod config;
pub mod framebuffer;
pub mod gpu;
pub mod harness;
pub mod hw;
pub mod mbc;
pub mod memory;

use vstd::prelude::*;

verus! {

/// Base clock of the machine in T-cycles per second.
pub const CLOCK_FREQUENCY: u32 = 4_194_304;

/// Length of one pacing step in milliseconds.
pub const STEP_TIME: u32 = 16;

/// T-cycles run per pacing step: `STEP_TIME` milliseconds of the base clock.
pub const STEP_CYCLES: u32 = 67_108;

} // verus!
