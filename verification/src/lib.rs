//! Verified register-access and initialization-sequencing core for the
//! Phytium Pi single-board-computer peripherals.
//!
//! Each memory-mapped peripheral is described by a plain-value model of its
//! register block. Driver operations are verified transitions on that model:
//! bitfield reads and read-modify-write cycles, bounded status polls, and the
//! `lookup_config` / `init` / `deinit` device lifecycle. The volatile accesses
//! that carry a model value to and from the hardware live outside this crate.
#![allow(non_snake_case)]
#![allow(non_camel_case_types)]
use vstd::prelude::*;

pub mod bits;
pub mod clock;
pub mod cru;
pub mod driver_pwm;
pub mod fxmac;
pub mod gpio;
pub mod iic_io;
pub mod iic_master;
pub mod iic_slave;
pub mod iopad;
pub mod mio;
pub mod pinctrl;
pub mod platform;
pub mod poll;
pub mod pwm;
pub mod spi;
pub mod tacho;
pub mod watchdog;

verus! {

/// Input clock of the peripheral block, in Hz.
pub const SYSTEM_CLK: u32 = 50_000_000;

/// Retry bound shared by every hardware-acknowledgement poll loop.
pub const POLL_BOUND: u32 = 500;

/// Value of the readiness flag on a handle whose initialization protocol has
/// completed; a not-ready handle holds zero there.
pub const READY_SENTINEL: u32 = 0x1111_1111;

} // verus!
