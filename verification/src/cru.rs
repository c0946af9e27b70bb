//! Clock/reset control unit: system and peripheral reset sequences with
//! their bounded completion polls, and the device lifecycle of the unit.
use vstd::prelude::*;
use crate::bits::{BitField, spec_set, modify_field};
use crate::poll::{poll_field, none_ready_before};
use crate::{POLL_BOUND, READY_SENTINEL};

verus! {

/// Physical base address of the clock/reset control unit.
pub const CRU_BASE_ADDR: usize = 0x2800_0000;

/// Largest peripheral id the reset register addresses.
pub const MAX_PERIPH_ID: u32 = 5;

/// System-reset trigger bit of the `cru_rst_ok` register.
pub open spec fn spec_rst_ok_system() -> BitField {
    BitField { offset: 0, width: 1 }
}

#[verifier::when_used_as_spec(spec_rst_ok_system)]
pub fn rst_ok_system() -> (f: BitField)
    ensures
        f == spec_rst_ok_system(),
{
    BitField { offset: 0, width: 1 }
}

/// Peripheral-select field of the `cru_rst_ok` register.
pub open spec fn spec_rst_ok_periph() -> BitField {
    BitField { offset: 1, width: 5 }
}

#[verifier::when_used_as_spec(spec_rst_ok_periph)]
pub fn rst_ok_periph() -> (f: BitField)
    ensures
        f == spec_rst_ok_periph(),
{
    BitField { offset: 1, width: 5 }
}

/// Reset-done bit of the `cru_rst_status` register.
pub open spec fn spec_rst_status_done() -> BitField {
    BitField { offset: 9, width: 1 }
}

#[verifier::when_used_as_spec(spec_rst_status_done)]
pub fn rst_status_done() -> (f: BitField)
    ensures
        f == spec_rst_status_done(),
{
    BitField { offset: 9, width: 1 }
}

/// Model of the reset register block (`cru_rst_ok` at 0x100, `cru_rst_status`
/// at 0x104; total size 0x108).
#[derive(Clone, Copy, PartialEq, Eq, Structural, Debug)]
pub struct CruRegs {
    pub cru_rst_ok: u32,
    pub cru_rst_status: u32,
}

impl CruRegs {
    /// A register block model with every register zero.
    pub fn new() -> (r: CruRegs)
        ensures
            r == (CruRegs { cru_rst_ok: 0, cru_rst_status: 0 }),
    {
        CruRegs { cru_rst_ok: 0, cru_rst_status: 0 }
    }
}

/// Typed handle over the reset register region; a null base is a
/// misconfigured platform constant and is ruled out by construction.
#[derive(Clone, Copy, PartialEq, Eq, Structural, Debug)]
pub struct CruCtrl {
    pub base: usize,
}

impl CruCtrl {
    /// Constructs the handle over a virtual base address.
    pub fn new(base: usize) -> (c: CruCtrl)
        requires
            base != 0,
        ensures
            c.base == base,
    {
        CruCtrl { base }
    }
}

/// Per-instance identification of the reset unit.
#[derive(Clone, Copy, PartialEq, Eq, Structural, Debug)]
pub struct FResetConfig {
    pub instance_id: u32,
    pub base_address: usize,
}

/// Device control handle of the reset unit.
#[derive(Clone, Copy, PartialEq, Eq, Structural, Debug)]
pub struct FResetCtrl {
    pub config: FResetConfig,
    pub is_ready: u32,
}

/// The one static configuration the lookup table holds.
pub open spec fn spec_reset_config_entry() -> FResetConfig {
    FResetConfig { instance_id: 0, base_address: CRU_BASE_ADDR }
}

/// The handle state `FResetDeInit` leaves behind: every field zeroed.
pub open spec fn spec_reset_zeroed() -> FResetCtrl {
    FResetCtrl { config: FResetConfig { instance_id: 0, base_address: 0 }, is_ready: 0 }
}

/// What `FResetInit` does to a handle.
pub open spec fn spec_reset_init(h: FResetCtrl, c: FResetConfig) -> (FResetCtrl, bool) {
    if h.is_ready == READY_SENTINEL {
        (h, false)
    } else {
        (FResetCtrl { config: c, is_ready: READY_SENTINEL }, true)
    }
}

/// What `FResetLookupConfig` returns for each instance id.
pub open spec fn spec_reset_lookup(instance_id: u32) -> Option<FResetConfig> {
    if instance_id >= 1 {
        None
    } else {
        Some(spec_reset_config_entry())
    }
}

/// Looks up the static configuration of the reset unit.
pub fn FResetLookupConfig(instance_id: u32) -> (r: Option<FResetConfig>)
    ensures
        r == spec_reset_lookup(instance_id),
        instance_id >= 1 ==> r is None,
        instance_id < 1 ==> (r matches Some(c) && c.instance_id == instance_id),
{
    if instance_id >= 1 {
        return None;
    }
    Some(FResetConfig { instance_id: 0, base_address: CRU_BASE_ADDR })
}

/// Initializes the handle; an already-ready handle is rejected untouched.
pub fn FResetInit(instance_p: &mut FResetCtrl, config_p: &FResetConfig) -> (r: bool)
    ensures
        (*final(instance_p), r) == spec_reset_init(*old(instance_p), *config_p),
{
    if instance_p.is_ready == READY_SENTINEL {
        return false;
    }
    FResetDeInit(instance_p);
    instance_p.config = *config_p;
    instance_p.is_ready = READY_SENTINEL;
    true
}

/// Returns the handle to the zeroed not-ready state.
pub fn FResetDeInit(instance_p: &mut FResetCtrl) -> (r: bool)
    ensures
        r == true,
        old(instance_p).is_ready == 0 ==> *final(instance_p) == *old(instance_p),
        old(instance_p).is_ready != 0 ==> *final(instance_p) == spec_reset_zeroed(),
{
    if instance_p.is_ready == 0 {
        return true;
    }
    instance_p.is_ready = 0;
    instance_p.config = FResetConfig { instance_id: 0, base_address: 0 };
    true
}

/// Triggers a system reset and polls the done bit with the bounded retry
/// loop. Entry `i` of `status_samples` is what the `i`-th read of
/// `cru_rst_status` observed.
pub fn FResetSystem(
    instance_p: &FResetCtrl,
    regs: &mut CruRegs,
    status_samples: &Vec<u32>,
) -> (ok: bool)
    ensures
        final(regs).cru_rst_ok == spec_set(old(regs).cru_rst_ok, spec_rst_ok_system(), 1),
        final(regs).cru_rst_status == old(regs).cru_rst_status,
        ok <==> !none_ready_before(status_samples@, spec_rst_status_done(), 1, POLL_BOUND as int),
{
    regs.cru_rst_ok = modify_field(regs.cru_rst_ok, rst_ok_system(), 1);
    let outcome = poll_field(status_samples, rst_status_done(), 1, POLL_BOUND);
    outcome.ready
}

/// Triggers a reset of one peripheral and polls the done bit. A peripheral
/// id outside the documented range fails without touching any register.
pub fn FResetPeripheral(
    instance_p: &FResetCtrl,
    regs: &mut CruRegs,
    status_samples: &Vec<u32>,
    periph_id: u32,
) -> (ok: bool)
    ensures
        periph_id > MAX_PERIPH_ID ==> !ok && *final(regs) == *old(regs),
        periph_id <= MAX_PERIPH_ID ==> {
            &&& final(regs).cru_rst_ok == spec_set(
                old(regs).cru_rst_ok,
                spec_rst_ok_periph(),
                periph_id,
            )
            &&& final(regs).cru_rst_status == old(regs).cru_rst_status
            &&& (ok <==> !none_ready_before(
                status_samples@,
                spec_rst_status_done(),
                1,
                POLL_BOUND as int,
            ))
        },
{
    if periph_id > MAX_PERIPH_ID {
        return false;
    }
    regs.cru_rst_ok = modify_field(regs.cru_rst_ok, rst_ok_periph(), periph_id);
    let outcome = poll_field(status_samples, rst_status_done(), 1, POLL_BOUND);
    outcome.ready
}

/// Law: a second `init` without an intervening `deinit` fails and leaves the
/// configuration exactly as the first call set it.
pub proof fn lemma_reset_init_twice(h: FResetCtrl, c1: FResetConfig, c2: FResetConfig)
    requires
        spec_reset_init(h, c1).1,
    ensures
        !spec_reset_init(spec_reset_init(h, c1).0, c2).1,
        spec_reset_init(spec_reset_init(h, c1).0, c2).0.config == c1,
{
}

/// Law: `deinit`, then `lookup_config`, then `init` with the looked-up
/// configuration succeeds and yields a ready handle, distinguishable from a
/// freshly zeroed one by its readiness sentinel.
pub proof fn lemma_reset_deinit_lookup_init(h: FResetCtrl)
    ensures
        ({
            let cleared = if h.is_ready == 0 { h } else { spec_reset_zeroed() };
            let looked = spec_reset_lookup(0);
            looked matches Some(c) && {
                let (h2, ok) = spec_reset_init(cleared, c);
                ok && h2.is_ready == READY_SENTINEL && h2.is_ready != spec_reset_zeroed().is_ready
            }
        }),
{
}

} // verus!
