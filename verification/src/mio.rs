//! Multiplexed I/O block: a register model whose function-select register
//! switches one MIO pad group between its I2C and UART roles.
use vstd::prelude::*;
use crate::bits::{BitField, spec_get, spec_set, read_field, write_field};

verus! {

/// Number of MIO blocks on the platform; block `n` sits at
/// `MIO_BASE_ADDR + n * MIO_STRIDE`.
pub const MIO_BLOCKS: usize = 16;

/// Physical base address of MIO block 0.
pub const MIO_BASE_ADDR: usize = 0x2801_4000;

/// Address stride between consecutive MIO blocks.
pub const MIO_STRIDE: usize = 0x2000;

/// Function-select value of the I2C role.
pub const MIO_FUNC_I2C: u32 = 0;

/// Function-select value of the UART role.
pub const MIO_FUNC_UART: u32 = 1;

/// Interrupt line shared by the UART and I2C roles of an MIO block.
pub const MIO_IRQ_NUM: u32 = 24;

/// Function-select field shared by the `func_sel` and `func_sel_state`
/// registers.
pub open spec fn spec_mio_sel_state() -> BitField {
    BitField { offset: 0, width: 2 }
}

#[verifier::when_used_as_spec(spec_mio_sel_state)]
pub fn mio_sel_state() -> (f: BitField)
    ensures
        f == spec_mio_sel_state(),
{
    BitField { offset: 0, width: 2 }
}

/// Model of one MIO block: its base address plus one value per register
/// (`func_sel` at 0x1000, `func_sel_state` at 0x1004, `version` at 0x1008;
/// total size 0x100c).
#[derive(Clone, Copy, PartialEq, Eq, Structural, Debug)]
pub struct PhitiumMio {
    pub base: usize,
    pub func_sel: u32,
    pub func_sel_state: u32,
    pub version: u32,
}

impl PhitiumMio {
    /// Constructs the block model over a virtual base address; a null base is
    /// a misconfigured platform constant and is ruled out by construction.
    pub fn new(base: usize) -> (m: PhitiumMio)
        requires
            base != 0,
        ensures
            m == (PhitiumMio { base, func_sel: 0, func_sel_state: 0, version: 0 }),
    {
        PhitiumMio { base, func_sel: 0, func_sel_state: 0, version: 0 }
    }

    /// Selects the I2C role: a whole-register write of the function-select
    /// register.
    pub fn set_i2c(&mut self)
        ensures
            final(self).func_sel == spec_set(0, spec_mio_sel_state(), MIO_FUNC_I2C),
            final(self).base == old(self).base,
            final(self).func_sel_state == old(self).func_sel_state,
            final(self).version == old(self).version,
    {
        self.func_sel = write_field(mio_sel_state(), MIO_FUNC_I2C);
    }

    /// Selects the UART role: a whole-register write of the function-select
    /// register.
    pub fn set_uart(&mut self)
        ensures
            final(self).func_sel == spec_set(0, spec_mio_sel_state(), MIO_FUNC_UART),
            final(self).base == old(self).base,
            final(self).func_sel_state == old(self).func_sel_state,
            final(self).version == old(self).version,
    {
        self.func_sel = write_field(mio_sel_state(), MIO_FUNC_UART);
    }

    /// Reads the function the hardware currently reports.
    pub fn get_func_raw(&self) -> (r: u32)
        ensures
            r == spec_get(self.func_sel_state, spec_mio_sel_state()),
    {
        read_field(self.func_sel_state, mio_sel_state())
    }

    /// Reads the block's version register.
    pub fn get_version(&self) -> (r: u32)
        ensures
            r == self.version,
    {
        self.version
    }
}

} // verus!
