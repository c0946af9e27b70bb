//! Master side of the I2C driver stack: the plain-value decisions it makes
//! before any transfer runs — the bounds gate on a write into the 256-byte
//! target device, and the configuration assembled for the MIO-attached
//! master instance.
use vstd::prelude::*;
use crate::bits::spec_get;
use crate::mio::{PhitiumMio, spec_mio_sel_state, MIO_IRQ_NUM};
use crate::pinctrl::{FMioFuncGetAddress, FMioFuncGetIrqNum};

verus! {

/// Size of the target device a master write or read addresses, in bytes.
pub const I2C_EEPROM_SIZE: u32 = 256;

/// Reference clock the MIO-attached master runs from, in Hz.
pub const I2C_REF_CLK_HZ: u32 = 50_000_000;

/// Configuration of one I2C controller instance.
#[derive(Clone, Copy, PartialEq, Eq, Structural, Debug)]
pub struct FI2cConfig {
    pub instance_id: u32,
    pub base_addr: u64,
    pub irq_num: u32,
    pub irq_priority: u32,
    pub ref_clk_hz: u32,
    pub work_mode: u32,
    pub slave_addr: u32,
    pub use_7bit_addr: bool,
    pub speed_rate: u32,
}

/// Whether a master write of `buf_len` bytes starting at `inchip_offset`
/// fits inside the target device: both ends inside the device, and the
/// length no more than the room left past the offset.
pub fn fi2c_master_write_in_bounds(buf_len: u32, inchip_offset: u32) -> (ok: bool)
    ensures
        ok <==> buf_len < I2C_EEPROM_SIZE && inchip_offset < I2C_EEPROM_SIZE && buf_len
            <= I2C_EEPROM_SIZE - inchip_offset,
{
    if buf_len < I2C_EEPROM_SIZE && inchip_offset < I2C_EEPROM_SIZE {
        I2C_EEPROM_SIZE - inchip_offset >= buf_len
    } else {
        false
    }
}

/// Assembles the configuration the MIO-attached master instance is
/// initialized with: instance 1 on the MIO-reported base address and
/// interrupt line, the platform reference clock, and the caller's target
/// address and bus speed.
pub fn fi2c_mio_master_config(mio: &PhitiumMio, address: u32, speed_rate: u32) -> (c: FI2cConfig)
    ensures
        c == (FI2cConfig {
            instance_id: 1,
            base_addr: spec_get(mio.func_sel_state, spec_mio_sel_state()) as u64,
            irq_num: MIO_IRQ_NUM,
            irq_priority: 0,
            ref_clk_hz: I2C_REF_CLK_HZ,
            work_mode: 0,
            slave_addr: address,
            use_7bit_addr: false,
            speed_rate,
        }),
{
    FI2cConfig {
        instance_id: 1,
        base_addr: FMioFuncGetAddress(mio, 0),
        irq_num: FMioFuncGetIrqNum(mio, 0),
        irq_priority: 0,
        ref_clk_hz: I2C_REF_CLK_HZ,
        work_mode: 0,
        slave_addr: address,
        use_7bit_addr: false,
        speed_rate,
    }
}

} // verus!
