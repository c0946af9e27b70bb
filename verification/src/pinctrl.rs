//! Pad controller: the I2C/GPIO pad-function registers, the pad device
//! lifecycle, and the MIO-role helpers built on the MIO block model.
use vstd::prelude::*;
use crate::bits::{BitField, spec_get, spec_set, modify_field};
use crate::mio::{PhitiumMio, spec_mio_sel_state, MIO_IRQ_NUM};
use crate::READY_SENTINEL;

verus! {

/// Physical base address of the pad controller.
pub const PAD_BASE_ADDR: usize = 0x32B3_0000;

/// Byte offset of the SCL pad-function register inside the pad block.
pub const PAD_REG0_SCL_OFFSET: u32 = 0x00D0;

/// Byte offset of the SDA pad-function register.
pub const PAD_REG0_SDA_OFFSET: u32 = 0x00D4;

/// Byte offset of the GPIO pad-function register.
pub const PAD_REG0_GPIO_OFFSET: u32 = 0x00D8;

/// Pad-function select field of an `x_reg0` register.
pub open spec fn spec_pad_func() -> BitField {
    BitField { offset: 0, width: 4 }
}

#[verifier::when_used_as_spec(spec_pad_func)]
pub fn pad_func() -> (f: BitField)
    ensures
        f == spec_pad_func(),
{
    BitField { offset: 0, width: 4 }
}

/// Drive-strength field of an `x_reg0` register.
pub open spec fn spec_pad_drive_strength() -> BitField {
    BitField { offset: 4, width: 3 }
}

#[verifier::when_used_as_spec(spec_pad_drive_strength)]
pub fn pad_drive_strength() -> (f: BitField)
    ensures
        f == spec_pad_drive_strength(),
{
    BitField { offset: 4, width: 3 }
}

/// Pull-up enable bit of an `x_reg0` register.
pub open spec fn spec_pad_pull() -> BitField {
    BitField { offset: 7, width: 1 }
}

#[verifier::when_used_as_spec(spec_pad_pull)]
pub fn pad_pull() -> (f: BitField)
    ensures
        f == spec_pad_pull(),
{
    BitField { offset: 7, width: 1 }
}

/// Model of the pad register block (`x_reg0` group at 0x00D0..0x00DC and
/// `x_reg1` group at 0x00DC..0x00E8; total size 0x00E8).
#[derive(Clone, Copy, PartialEq, Eq, Structural, Debug)]
pub struct PadRegs {
    pub x_reg0_scl: u32,
    pub x_reg0_sda: u32,
    pub x_reg0_gpio: u32,
    pub x_reg1_scl: u32,
    pub x_reg1_sda: u32,
    pub x_reg1_gpio: u32,
}

impl PadRegs {
    /// A register block model with every register zero.
    pub fn new() -> (r: PadRegs)
        ensures
            r == (PadRegs {
                x_reg0_scl: 0,
                x_reg0_sda: 0,
                x_reg0_gpio: 0,
                x_reg1_scl: 0,
                x_reg1_sda: 0,
                x_reg1_gpio: 0,
            }),
    {
        PadRegs { x_reg0_scl: 0, x_reg0_sda: 0, x_reg0_gpio: 0, x_reg1_scl: 0, x_reg1_sda: 0, x_reg1_gpio: 0 }
    }
}

/// Typed handle over the pad register region; a null base is ruled out by
/// construction.
#[derive(Clone, Copy, PartialEq, Eq, Structural, Debug)]
pub struct PadCtrl {
    pub base: usize,
}

impl PadCtrl {
    /// Constructs the handle over a virtual base address.
    pub fn new(base: usize) -> (c: PadCtrl)
        requires
            base != 0,
        ensures
            c.base == base,
    {
        PadCtrl { base }
    }
}

/// Per-instance identification of the pad controller.
#[derive(Clone, Copy, PartialEq, Eq, Structural, Debug)]
pub struct FIOPadConfig {
    pub instance_id: u32,
    pub base_address: usize,
}

/// Device control handle of the pad controller.
#[derive(Clone, Copy, PartialEq, Eq, Structural, Debug)]
pub struct FIOPadCtrl {
    pub config: FIOPadConfig,
    pub is_ready: u32,
}

/// The one static configuration the lookup table holds.
pub open spec fn spec_pad_config_entry() -> FIOPadConfig {
    FIOPadConfig { instance_id: 0, base_address: PAD_BASE_ADDR }
}

/// The handle state `FIOPadDeInitialize` leaves behind: every field zeroed.
pub open spec fn spec_pad_zeroed() -> FIOPadCtrl {
    FIOPadCtrl { config: FIOPadConfig { instance_id: 0, base_address: 0 }, is_ready: 0 }
}

/// What `FIOPadCfgInitialize` does to a handle.
pub open spec fn spec_pad_init(h: FIOPadCtrl, c: FIOPadConfig) -> (FIOPadCtrl, bool) {
    if h.is_ready == READY_SENTINEL {
        (h, false)
    } else {
        (FIOPadCtrl { config: c, is_ready: READY_SENTINEL }, true)
    }
}

/// What `FIOPadLookupConfig` returns for each instance id.
pub open spec fn spec_pad_lookup(instance_id: u32) -> Option<FIOPadConfig> {
    if instance_id >= 1 {
        None
    } else {
        Some(spec_pad_config_entry())
    }
}

/// Looks up the static configuration of the pad controller.
pub fn FIOPadLookupConfig(instance_id: u32) -> (r: Option<FIOPadConfig>)
    ensures
        r == spec_pad_lookup(instance_id),
        instance_id >= 1 ==> r is None,
        instance_id < 1 ==> (r matches Some(c) && c.instance_id == instance_id),
{
    if instance_id >= 1 {
        return None;
    }
    Some(FIOPadConfig { instance_id: 0, base_address: PAD_BASE_ADDR })
}

/// Initializes the handle; an already-ready handle is rejected untouched.
pub fn FIOPadCfgInitialize(instance_p: &mut FIOPadCtrl, input_config_p: &FIOPadConfig) -> (r: bool)
    ensures
        (*final(instance_p), r) == spec_pad_init(*old(instance_p), *input_config_p),
{
    if instance_p.is_ready == READY_SENTINEL {
        return false;
    }
    FIOPadDeInitialize(instance_p);
    instance_p.config = *input_config_p;
    instance_p.is_ready = READY_SENTINEL;
    true
}

/// Returns the handle to the zeroed not-ready state.
pub fn FIOPadDeInitialize(instance_p: &mut FIOPadCtrl) -> (r: bool)
    ensures
        r == true,
        old(instance_p).is_ready == 0 ==> *final(instance_p) == *old(instance_p),
        old(instance_p).is_ready != 0 ==> *final(instance_p) == spec_pad_zeroed(),
{
    if instance_p.is_ready == 0 {
        return true;
    }
    instance_p.is_ready = 0;
    instance_p.config = FIOPadConfig { instance_id: 0, base_address: 0 };
    true
}

/// Programs the function-select field of the pad register at `offset`. Only
/// the three documented pad offsets are accepted; any other offset fails
/// without touching a register.
pub fn FIOPadSetFunc(
    instance_p: &FIOPadCtrl,
    regs: &mut PadRegs,
    offset: u32,
    func: u32,
) -> (ok: bool)
    ensures
        offset == PAD_REG0_SCL_OFFSET ==> ok
            && *final(regs) == (PadRegs {
                x_reg0_scl: spec_set(old(regs).x_reg0_scl, spec_pad_func(), func),
                ..*old(regs)
            }),
        offset == PAD_REG0_SDA_OFFSET ==> ok
            && *final(regs) == (PadRegs {
                x_reg0_sda: spec_set(old(regs).x_reg0_sda, spec_pad_func(), func),
                ..*old(regs)
            }),
        offset == PAD_REG0_GPIO_OFFSET ==> ok
            && *final(regs) == (PadRegs {
                x_reg0_gpio: spec_set(old(regs).x_reg0_gpio, spec_pad_func(), func),
                ..*old(regs)
            }),
        offset != PAD_REG0_SCL_OFFSET && offset != PAD_REG0_SDA_OFFSET && offset
            != PAD_REG0_GPIO_OFFSET ==> !ok && *final(regs) == *old(regs),
{
    if offset == PAD_REG0_SCL_OFFSET {
        regs.x_reg0_scl = modify_field(regs.x_reg0_scl, pad_func(), func);
        true
    } else if offset == PAD_REG0_SDA_OFFSET {
        regs.x_reg0_sda = modify_field(regs.x_reg0_sda, pad_func(), func);
        true
    } else if offset == PAD_REG0_GPIO_OFFSET {
        regs.x_reg0_gpio = modify_field(regs.x_reg0_gpio, pad_func(), func);
        true
    } else {
        false
    }
}

/// Puts an MIO block into the requested role: 0 selects I2C, 1 selects UART,
/// anything else fails without touching the block.
pub fn FMioFuncInit(instance_p: &mut PhitiumMio, func: u32) -> (ok: bool)
    ensures
        func <= 1 ==> ok
            && final(instance_p).func_sel == spec_set(0, spec_mio_sel_state(), func)
            && final(instance_p).base == old(instance_p).base
            && final(instance_p).func_sel_state == old(instance_p).func_sel_state
            && final(instance_p).version == old(instance_p).version,
        func > 1 ==> !ok && *final(instance_p) == *old(instance_p),
{
    if func == 0 {
        instance_p.set_i2c();
        true
    } else if func == 1 {
        instance_p.set_uart();
        true
    } else {
        false
    }
}

/// Returns the register-reported role of the MIO block for the I2C and UART
/// functions, and zero for any other function.
pub fn FMioFuncGetAddress(instance_p: &PhitiumMio, func: u32) -> (r: u64)
    ensures
        func <= 1 ==> r == spec_get(instance_p.func_sel_state, spec_mio_sel_state()) as u64,
        func > 1 ==> r == 0,
{
    let base = instance_p.get_func_raw() as u64;
    if func <= 1 {
        base
    } else {
        0
    }
}

/// Interrupt line shared by the MIO block's UART and I2C roles.
pub fn FMioFuncGetIrqNum(instance_p: &PhitiumMio, func: u32) -> (r: u32)
    ensures
        r == MIO_IRQ_NUM,
{
    MIO_IRQ_NUM
}

/// Law: a second `init` without an intervening `deinit` fails and leaves the
/// configuration exactly as the first call set it.
pub proof fn lemma_pad_init_twice(h: FIOPadCtrl, c1: FIOPadConfig, c2: FIOPadConfig)
    requires
        spec_pad_init(h, c1).1,
    ensures
        !spec_pad_init(spec_pad_init(h, c1).0, c2).1,
        spec_pad_init(spec_pad_init(h, c1).0, c2).0.config == c1,
{
}

/// Law: `deinit`, then `lookup_config`, then `init` with the looked-up
/// configuration succeeds and yields a ready handle, distinguishable from a
/// freshly zeroed one by its readiness sentinel.
pub proof fn lemma_pad_deinit_lookup_init(h: FIOPadCtrl)
    ensures
        ({
            let cleared = if h.is_ready == 0 { h } else { spec_pad_zeroed() };
            let looked = spec_pad_lookup(0);
            looked matches Some(c) && {
                let (h2, ok) = spec_pad_init(cleared, c);
                ok && h2.is_ready == READY_SENTINEL && h2.is_ready != spec_pad_zeroed().is_ready
            }
        }),
{
}

} // verus!
