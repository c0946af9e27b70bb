//! SBSA generic watchdog: register block model and the start / stop /
//! keepalive / timeout operations.
use vstd::prelude::*;

verus! {

/// Physical base address of watchdog 0.
pub const WDT0_BASE: usize = 0x2804_0000;

/// Physical base address of watchdog 1.
pub const WDT1_BASE: usize = 0x2804_2000;

/// Input clock of the watchdog, in Hz.
pub const CLK_FREQ: u64 = 100_000_000;

/// Control bits of the watchdog control-and-status register.
#[derive(Clone, Copy, PartialEq, Eq, Structural, Debug)]
pub enum SbsaGpioWcs {
    WDT_EN,
}

impl SbsaGpioWcs {
    /// The bit this control flag occupies in the register.
    pub open spec fn spec_value(self) -> u32 {
        match self {
            SbsaGpioWcs::WDT_EN => 1,
        }
    }

    /// Computes the bit this control flag occupies in the register.
    pub fn value(self) -> (r: u32)
        ensures
            r == self.spec_value(),
    {
        match self {
            SbsaGpioWcs::WDT_EN => 1,
        }
    }
}

/// Model of the watchdog register block (`wrr` at 0x0000, `wcs` at 0x1000,
/// `wor` at 0x1008).
#[derive(Clone, Copy, PartialEq, Eq, Structural, Debug)]
pub struct SbsaGpio {
    pub wrr: u32,
    pub wcs: u32,
    pub wor: u32,
}

impl SbsaGpio {
    /// A register block model with every register zero.
    pub fn new() -> (r: SbsaGpio)
        ensures
            r == (SbsaGpio { wrr: 0, wcs: 0, wor: 0 }),
    {
        SbsaGpio { wrr: 0, wcs: 0, wor: 0 }
    }
}

/// The timeout actually programmed: the request, clamped to the maximum the
/// control register's current value admits.
pub open spec fn spec_wdt_timeout_ms(timeout: u32, wcs: u32) -> u32 {
    if timeout <= wcs / 1000 {
        timeout
    } else {
        (wcs / 1000) as u32
    }
}

/// Watchdog driver handle: base address and input clock.
#[derive(Clone, Copy, PartialEq, Eq, Structural, Debug)]
pub struct SbsaGwdt {
    pub base: usize,
    pub clk: u64,
}

impl SbsaGwdt {
    /// Constructs the driver over a base address, on the platform's watchdog
    /// clock.
    pub fn new(base: usize) -> (r: SbsaGwdt)
        requires
            base != 0,
        ensures
            r == (SbsaGwdt { base, clk: CLK_FREQ }),
    {
        SbsaGwdt { base, clk: CLK_FREQ }
    }

    /// Disables the watchdog and clears the refresh compare value.
    pub fn init(&mut self, regs: &mut SbsaGpio)
        ensures
            final(regs).wcs == 0,
            final(regs).wor == 0,
            final(regs).wrr == old(regs).wrr,
            *final(self) == *old(self),
    {
        regs.wcs = 0;
        regs.wor = 0;
    }

    /// Programs the timeout: the request is clamped to the maximum the
    /// control register admits, and the compare register receives half the
    /// corresponding clock-cycle count (single-stage mode). A cycle count
    /// that overflows the register's 32 bits is a configuration error,
    /// rejected before any register changes.
    pub fn set_timeout(&mut self, regs: &mut SbsaGpio, timeout: u32) -> (ok: bool)
        requires
            old(self).clk <= 0xffff_ffff,
        ensures
            ({
                let cycles = old(self).clk * spec_wdt_timeout_ms(timeout, old(regs).wcs) / 2;
                &&& (ok <==> cycles <= 0xffff_ffff)
                &&& (ok ==> final(regs).wor == cycles)
                &&& (!ok ==> final(regs).wor == old(regs).wor)
            }),
            final(regs).wcs == old(regs).wcs,
            final(regs).wrr == old(regs).wrr,
            *final(self) == *old(self),
    {
        let max_ms = regs.wcs / 1000;
        let timeout_ms: u32 = if timeout <= max_ms {
            timeout
        } else {
            max_ms
        };
        proof {
            vstd::arithmetic::mul::lemma_mul_upper_bound(
                self.clk as int,
                0xffff_ffff,
                timeout_ms as int,
                0xffff_ffff,
            );
        }
        let cycles: u64 = self.clk * (timeout_ms as u64) / 2;
        if cycles > 0xffff_ffff {
            return false;
        }
        regs.wor = cycles as u32;
        true
    }

    /// Enables the watchdog.
    pub fn start(&mut self, regs: &mut SbsaGpio)
        ensures
            final(regs).wcs == 1,
            final(regs).wor == old(regs).wor,
            final(regs).wrr == old(regs).wrr,
            *final(self) == *old(self),
    {
        regs.wcs = SbsaGpioWcs::WDT_EN.value();
    }

    /// Refreshes the watchdog: any write to the refresh register restarts
    /// the count.
    pub fn keepalive(&mut self, regs: &mut SbsaGpio)
        ensures
            final(regs).wrr == 0,
            final(regs).wcs == old(regs).wcs,
            final(regs).wor == old(regs).wor,
            *final(self) == *old(self),
    {
        regs.wrr = 0;
    }

    /// Disables the watchdog.
    pub fn stop(&mut self, regs: &mut SbsaGpio)
        ensures
            final(regs).wcs == 0,
            final(regs).wor == old(regs).wor,
            final(regs).wrr == old(regs).wrr,
            *final(self) == *old(self),
    {
        regs.wcs = 0;
    }
}

} // verus!
