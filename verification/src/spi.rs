//! SPI controller: register block model, baud programming, and the sampled
//! FIFO-status polls that gate the data register.
use vstd::prelude::*;
use crate::bits::BitField;
use crate::poll::{poll_field, none_ready_before};
use crate::POLL_BOUND;

verus! {

/// Physical base address of SPI controller 0.
pub const SPI0_BASE: usize = 0x2803_A000;

/// Input clock of the SPI controller, in Hz.
pub const CLK_FREQ: u64 = 100_000_000;

/// Test-mode bit of the `ctrl_r0` register (MISO/MOSI shorted).
pub const SPI_CTRL_R0_TEST_MODE: u32 = 0x800;

/// Transmit-FIFO-not-full bit of the status register.
pub open spec fn spec_spi_sr_tx_not_full() -> BitField {
    BitField { offset: 2, width: 1 }
}

#[verifier::when_used_as_spec(spec_spi_sr_tx_not_full)]
pub fn spi_sr_tx_not_full() -> (f: BitField)
    ensures
        f == spec_spi_sr_tx_not_full(),
{
    BitField { offset: 2, width: 1 }
}

/// Receive-FIFO-not-empty bit of the status register.
pub open spec fn spec_spi_sr_rx_not_empty() -> BitField {
    BitField { offset: 3, width: 1 }
}

#[verifier::when_used_as_spec(spec_spi_sr_rx_not_empty)]
pub fn spi_sr_rx_not_empty() -> (f: BitField)
    ensures
        f == spec_spi_sr_rx_not_empty(),
{
    BitField { offset: 3, width: 1 }
}

/// Model of the SPI register block, one value per register at its fixed
/// offset (`ctrl_r0` at 0x000 through `cs` at 0x100).
#[derive(Clone, Copy, PartialEq, Eq, Structural, Debug)]
pub struct PhytiumSpi {
    pub ctrl_r0: u32,
    pub ctrl_r1: u32,
    pub ssienr: u32,
    pub mwcr: u32,
    pub ser: u32,
    pub baudr: u32,
    pub txftlr: u32,
    pub rxftlr: u32,
    pub txflr: u32,
    pub rxflr: u32,
    pub sr: u32,
    pub imr: u32,
    pub isr: u32,
    pub risr: u32,
    pub icr: u32,
    pub dma_cr: u32,
    pub dr: u32,
    pub rx_sample_dly: u32,
    pub cs: u32,
}

impl PhytiumSpi {
    /// A register block model with every register zero.
    pub fn new() -> (r: PhytiumSpi)
        ensures
            r.ctrl_r0 == 0 && r.ssienr == 0 && r.ser == 0 && r.baudr == 0 && r.sr == 0 && r.dr
                == 0,
    {
        PhytiumSpi {
            ctrl_r0: 0,
            ctrl_r1: 0,
            ssienr: 0,
            mwcr: 0,
            ser: 0,
            baudr: 0,
            txftlr: 0,
            rxftlr: 0,
            txflr: 0,
            rxflr: 0,
            sr: 0,
            imr: 0,
            isr: 0,
            risr: 0,
            icr: 0,
            dma_cr: 0,
            dr: 0,
            rx_sample_dly: 0,
            cs: 0,
        }
    }
}

/// SPI driver handle: base address plus the configuration the last `init`
/// programmed.
#[derive(Clone, Copy, PartialEq, Eq, Structural, Debug)]
pub struct PhytiumSpiDrv {
    pub base: usize,
    pub baudrate: u32,
    pub test_mode: bool,
}

impl PhytiumSpiDrv {
    /// Constructs the driver over a base address, unconfigured.
    pub fn new(base: usize) -> (r: PhytiumSpiDrv)
        requires
            base != 0,
        ensures
            r == (PhytiumSpiDrv { base, baudrate: 0, test_mode: false }),
    {
        PhytiumSpiDrv { base, baudrate: 0, test_mode: false }
    }

    /// Programs the controller: disable, set the baud divider
    /// `CLK_FREQ / (2 * baudrate)`, select mode 0 with optional test mode,
    /// select slave 0, then enable. A zero baud rate would divide by zero
    /// and is a caller error.
    pub fn init(&mut self, regs: &mut PhytiumSpi, baudrate: u32, test_mode: bool)
        requires
            1 <= baudrate,
        ensures
            final(self).base == old(self).base,
            final(self).baudrate == baudrate,
            final(self).test_mode == test_mode,
            final(regs).ssienr == 1,
            final(regs).baudr == CLK_FREQ as int / (2 * baudrate as int),
            final(regs).ctrl_r0 == (if test_mode {
                SPI_CTRL_R0_TEST_MODE
            } else {
                0u32
            }),
            final(regs).ser == 1,
            final(regs).dr == old(regs).dr,
            final(regs).sr == old(regs).sr,
    {
        self.baudrate = baudrate;
        self.test_mode = test_mode;
        regs.ssienr = 0;
        let div64 = CLK_FREQ / (2 * baudrate as u64);
        proof {
            vstd::arithmetic::div_mod::lemma_div_is_ordered_by_denominator(
                CLK_FREQ as int,
                2,
                2 * (baudrate as int),
            );
        }
        regs.baudr = div64 as u32;
        regs.ctrl_r0 = 0;
        if test_mode {
            regs.ctrl_r0 = regs.ctrl_r0 | SPI_CTRL_R0_TEST_MODE;
            assert(0u32 | SPI_CTRL_R0_TEST_MODE == SPI_CTRL_R0_TEST_MODE) by (bit_vector);
        }
        regs.ser = 1;
        regs.ssienr = 1;
    }

    /// Sends one byte: waits for transmit-FIFO room with the bounded poll,
    /// then writes the data register. Entry `i` of `sr_samples` is what the
    /// `i`-th read of the status register observed; if the FIFO never drains
    /// within the bound, no write happens and the send fails.
    pub fn send(&mut self, regs: &mut PhytiumSpi, sr_samples: &Vec<u32>, data: u8) -> (ok: bool)
        ensures
            ok <==> !none_ready_before(sr_samples@, spec_spi_sr_tx_not_full(), 1, POLL_BOUND as int),
            ok ==> *final(regs) == (PhytiumSpi { dr: data as u32, ..*old(regs) }),
            !ok ==> *final(regs) == *old(regs),
            *final(self) == *old(self),
    {
        let outcome = poll_field(sr_samples, spi_sr_tx_not_full(), 1, POLL_BOUND);
        if !outcome.ready {
            return false;
        }
        regs.dr = data as u32;
        true
    }

    /// Receives one byte: waits for receive-FIFO data with the bounded poll,
    /// then reads the low byte of the data register. If no data arrives
    /// within the bound, nothing is read and `None` comes back.
    pub fn recv(&mut self, regs: &PhytiumSpi, sr_samples: &Vec<u32>) -> (r: Option<u8>)
        ensures
            r is Some <==> !none_ready_before(
                sr_samples@,
                spec_spi_sr_rx_not_empty(),
                1,
                POLL_BOUND as int,
            ),
            r is Some ==> r == Some((regs.dr & 0xff) as u8),
            *final(self) == *old(self),
    {
        let outcome = poll_field(sr_samples, spi_sr_rx_not_empty(), 1, POLL_BOUND);
        if !outcome.ready {
            return None;
        }
        Some((regs.dr & 0xff) as u8)
    }
}

} // verus!
