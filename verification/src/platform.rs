//! Platform bring-up: the ordered lookup-then-init chain that readies the
//! reset unit, the pad controller and the clock unit for the primary core.
use vstd::prelude::*;
use crate::cru::{FResetCtrl, FResetInit, FResetLookupConfig, spec_reset_init, spec_reset_config_entry};
use crate::pinctrl::{
    FIOPadCtrl, FIOPadCfgInitialize, FIOPadLookupConfig, spec_pad_init, spec_pad_config_entry,
};
use crate::clock::{
    FClockCtrl, FClockInit, FClockLookupConfig, spec_clock_init, spec_clock_config_entry,
};

verus! {

/// Looks up the platform configuration of each bring-up device and
/// initializes its handle, in the fixed order reset unit, pad controller,
/// clock unit. Returns whether every handle accepted its initialization; a
/// handle that was already ready keeps its state and fails its step.
pub fn platform_init(
    cru: &mut FResetCtrl,
    pad: &mut FIOPadCtrl,
    clock: &mut FClockCtrl,
) -> (ok: bool)
    ensures
        *final(cru) == spec_reset_init(*old(cru), spec_reset_config_entry()).0,
        *final(pad) == spec_pad_init(*old(pad), spec_pad_config_entry()).0,
        *final(clock) == spec_clock_init(*old(clock), spec_clock_config_entry()).0,
        ok <==> spec_reset_init(*old(cru), spec_reset_config_entry()).1 && spec_pad_init(
            *old(pad),
            spec_pad_config_entry(),
        ).1 && spec_clock_init(*old(clock), spec_clock_config_entry()).1,
{
    let cru_config = FResetLookupConfig(0).unwrap();
    let cru_ok = FResetInit(cru, &cru_config);
    let pad_config = FIOPadLookupConfig(0).unwrap();
    let pad_ok = FIOPadCfgInitialize(pad, &pad_config);
    let clock_config = FClockLookupConfig(0).unwrap();
    let clock_ok = FClockInit(clock, &clock_config);
    cru_ok && pad_ok && clock_ok
}

} // verus!
