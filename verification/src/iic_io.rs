//! Pad-controller lifecycle as the I2C driver stack carries it: the same
//! configuration table and init/deinit discipline, under the snake-case
//! names that stack uses.
use vstd::prelude::*;
use crate::READY_SENTINEL;

verus! {

/// Physical base address of the pad controller.
pub const IIC_PAD_BASE_ADDR: usize = 0x32B3_0000;

/// Per-instance identification of the pad controller.
#[derive(Clone, Copy, PartialEq, Eq, Structural, Debug)]
pub struct FIOPadConfig {
    pub instance_id: u32,
    pub base_address: usize,
}

/// Device control handle of the pad controller.
#[derive(Clone, Copy, PartialEq, Eq, Structural, Debug)]
pub struct FIOPadCtrl {
    pub config: FIOPadConfig,
    pub is_ready: u32,
}

/// The one static configuration the lookup table holds.
pub open spec fn spec_iopad_config_entry() -> FIOPadConfig {
    FIOPadConfig { instance_id: 0, base_address: IIC_PAD_BASE_ADDR }
}

/// The handle state `fiopad_de_initialize` leaves behind: every field zeroed.
pub open spec fn spec_iopad_zeroed() -> FIOPadCtrl {
    FIOPadCtrl { config: FIOPadConfig { instance_id: 0, base_address: 0 }, is_ready: 0 }
}

/// What `fiopad_cfg_initialize` does to a handle.
pub open spec fn spec_iopad_init(h: FIOPadCtrl, c: FIOPadConfig) -> (FIOPadCtrl, bool) {
    if h.is_ready == READY_SENTINEL {
        (h, false)
    } else {
        (FIOPadCtrl { config: c, is_ready: READY_SENTINEL }, true)
    }
}

/// What `fiopad_lookup_config` returns for each instance id.
pub open spec fn spec_iopad_lookup(instance_id: u32) -> Option<FIOPadConfig> {
    if instance_id >= 1 {
        None
    } else {
        Some(spec_iopad_config_entry())
    }
}

/// Looks up the static configuration of the pad controller.
pub fn fiopad_lookup_config(instance_id: u32) -> (r: Option<FIOPadConfig>)
    ensures
        r == spec_iopad_lookup(instance_id),
        instance_id >= 1 ==> r is None,
        instance_id < 1 ==> (r matches Some(c) && c.instance_id == instance_id),
{
    if instance_id >= 1 {
        return None;
    }
    Some(FIOPadConfig { instance_id: 0, base_address: IIC_PAD_BASE_ADDR })
}

/// Initializes the handle; an already-ready handle is rejected untouched.
pub fn fiopad_cfg_initialize(instance_p: &mut FIOPadCtrl, input_config_p: &FIOPadConfig) -> (r: bool)
    ensures
        (*final(instance_p), r) == spec_iopad_init(*old(instance_p), *input_config_p),
{
    if instance_p.is_ready == READY_SENTINEL {
        return false;
    }
    fiopad_de_initialize(instance_p);
    instance_p.config = *input_config_p;
    instance_p.is_ready = READY_SENTINEL;
    true
}

/// Returns the handle to the zeroed not-ready state.
pub fn fiopad_de_initialize(instance_p: &mut FIOPadCtrl) -> (r: bool)
    ensures
        r == true,
        old(instance_p).is_ready == 0 ==> *final(instance_p) == *old(instance_p),
        old(instance_p).is_ready != 0 ==> *final(instance_p) == spec_iopad_zeroed(),
{
    if instance_p.is_ready == 0 {
        return true;
    }
    instance_p.is_ready = 0;
    instance_p.config = FIOPadConfig { instance_id: 0, base_address: 0 };
    true
}

/// Law: a second `init` without an intervening `deinit` fails and leaves the
/// configuration exactly as the first call set it.
pub proof fn lemma_iopad_init_twice(h: FIOPadCtrl, c1: FIOPadConfig, c2: FIOPadConfig)
    requires
        spec_iopad_init(h, c1).1,
    ensures
        !spec_iopad_init(spec_iopad_init(h, c1).0, c2).1,
        spec_iopad_init(spec_iopad_init(h, c1).0, c2).0.config == c1,
{
}

/// Law: `deinit`, then `lookup_config`, then `init` with the looked-up
/// configuration succeeds and yields a ready handle, distinguishable from a
/// freshly zeroed one by its readiness sentinel.
pub proof fn lemma_iopad_deinit_lookup_init(h: FIOPadCtrl)
    ensures
        ({
            let cleared = if h.is_ready == 0 { h } else { spec_iopad_zeroed() };
            let looked = spec_iopad_lookup(0);
            looked matches Some(c) && {
                let (h2, ok) = spec_iopad_init(cleared, c);
                ok && h2.is_ready == READY_SENTINEL && h2.is_ready != spec_iopad_zeroed().is_ready
            }
        }),
{
}

} // verus!
