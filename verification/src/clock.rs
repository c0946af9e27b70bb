//! Clock control unit: register block model, device lifecycle, and the
//! divider-programming sequence with its bounded ready poll.
use vstd::prelude::*;
use crate::bits::{BitField, spec_get, spec_set, read_field, modify_field};
use crate::poll::{poll_field, none_ready_before};
use crate::{SYSTEM_CLK, POLL_BOUND, READY_SENTINEL};

verus! {

/// Physical base address of the clock control unit.
pub const CLOCK_BASE_ADDR: usize = 0x2800_0000;

/// Enable bit of the `clk_con` register.
pub open spec fn spec_clk_con_enable() -> BitField {
    BitField { offset: 0, width: 1 }
}

#[verifier::when_used_as_spec(spec_clk_con_enable)]
pub fn clk_con_enable() -> (f: BitField)
    ensures
        f == spec_clk_con_enable(),
{
    BitField { offset: 0, width: 1 }
}

/// Clock-source select field of the `clk_con` register.
pub open spec fn spec_clk_con_source() -> BitField {
    BitField { offset: 1, width: 3 }
}

#[verifier::when_used_as_spec(spec_clk_con_source)]
pub fn clk_con_source() -> (f: BitField)
    ensures
        f == spec_clk_con_source(),
{
    BitField { offset: 1, width: 3 }
}

/// Divider field of the `clk_div` register.
pub open spec fn spec_clk_div_div() -> BitField {
    BitField { offset: 0, width: 8 }
}

#[verifier::when_used_as_spec(spec_clk_div_div)]
pub fn clk_div_div() -> (f: BitField)
    ensures
        f == spec_clk_div_div(),
{
    BitField { offset: 0, width: 8 }
}

/// Ready bit of the `clk_status` register.
pub open spec fn spec_clk_status_ready() -> BitField {
    BitField { offset: 0, width: 1 }
}

#[verifier::when_used_as_spec(spec_clk_status_ready)]
pub fn clk_status_ready() -> (f: BitField)
    ensures
        f == spec_clk_status_ready(),
{
    BitField { offset: 0, width: 1 }
}

/// Model of the clock register block: one value per register, at its fixed
/// offset in the layout (`clk_con` at 0x00, `clk_div` at 0x04, `clk_status`
/// at 0x08; total size 0x0c).
#[derive(Clone, Copy, PartialEq, Eq, Structural, Debug)]
pub struct ClockRegs {
    pub clk_con: u32,
    pub clk_div: u32,
    pub clk_status: u32,
}

impl ClockRegs {
    /// A register block model with every register zero.
    pub fn new() -> (r: ClockRegs)
        ensures
            r == (ClockRegs { clk_con: 0, clk_div: 0, clk_status: 0 }),
    {
        ClockRegs { clk_con: 0, clk_div: 0, clk_status: 0 }
    }
}

/// Typed handle over the clock register region. Construction demands a
/// non-null base: a null base is a misconfigured platform constant, not a
/// recoverable error.
#[derive(Clone, Copy, PartialEq, Eq, Structural, Debug)]
pub struct ClockCtrl {
    pub base: usize,
}

impl ClockCtrl {
    /// Constructs the handle over a virtual base address.
    pub fn new(base: usize) -> (c: ClockCtrl)
        requires
            base != 0,
        ensures
            c.base == base,
    {
        ClockCtrl { base }
    }
}

/// Per-instance identification of a clock unit.
#[derive(Clone, Copy, PartialEq, Eq, Structural, Debug)]
pub struct FClockConfig {
    pub instance_id: u32,
    pub base_address: usize,
}

/// Device control handle of a clock unit: configuration plus the readiness
/// sentinel (`READY_SENTINEL` once initialized, zero otherwise).
#[derive(Clone, Copy, PartialEq, Eq, Structural, Debug)]
pub struct FClockCtrl {
    pub config: FClockConfig,
    pub is_ready: u32,
}

/// The one static configuration the lookup table holds, keyed by instance 0.
pub open spec fn spec_clock_config_entry() -> FClockConfig {
    FClockConfig { instance_id: 0, base_address: CLOCK_BASE_ADDR }
}

/// The handle state `FClockDeInit` leaves behind: every field zeroed.
pub open spec fn spec_clock_zeroed() -> FClockCtrl {
    FClockCtrl { config: FClockConfig { instance_id: 0, base_address: 0 }, is_ready: 0 }
}

/// What `FClockInit` does to a handle: reject when already ready, otherwise
/// clear and adopt the configuration.
pub open spec fn spec_clock_init(h: FClockCtrl, c: FClockConfig) -> (FClockCtrl, bool) {
    if h.is_ready == READY_SENTINEL {
        (h, false)
    } else {
        (FClockCtrl { config: c, is_ready: READY_SENTINEL }, true)
    }
}

/// What `FClockLookupConfig` returns for each instance id.
pub open spec fn spec_clock_lookup(instance_id: u32) -> Option<FClockConfig> {
    if instance_id >= 1 {
        None
    } else {
        Some(spec_clock_config_entry())
    }
}

/// Looks up the static configuration of a clock instance. Ids at or past the
/// table's size find nothing; every id inside it finds a configuration whose
/// `instance_id` equals the query.
pub fn FClockLookupConfig(instance_id: u32) -> (r: Option<FClockConfig>)
    ensures
        r == spec_clock_lookup(instance_id),
        instance_id >= 1 ==> r is None,
        instance_id < 1 ==> (r matches Some(c) && c.instance_id == instance_id),
{
    if instance_id >= 1 {
        return None;
    }
    Some(FClockConfig { instance_id: 0, base_address: CLOCK_BASE_ADDR })
}

/// Initializes the handle with the given configuration. A handle that is
/// already ready is left untouched and the call fails; otherwise the handle
/// is cleared first, then adopts the configuration and becomes ready.
pub fn FClockInit(instance_p: &mut FClockCtrl, config_p: &FClockConfig) -> (r: bool)
    ensures
        (*final(instance_p), r) == spec_clock_init(*old(instance_p), *config_p),
{
    if instance_p.is_ready == READY_SENTINEL {
        return false;
    }
    FClockDeInit(instance_p);
    instance_p.config = *config_p;
    instance_p.is_ready = READY_SENTINEL;
    true
}

/// Returns the handle to the zeroed not-ready state. On a not-ready handle
/// this is a successful no-op; otherwise every byte of the handle is cleared,
/// configuration included.
pub fn FClockDeInit(instance_p: &mut FClockCtrl) -> (r: bool)
    ensures
        r == true,
        old(instance_p).is_ready == 0 ==> *final(instance_p) == *old(instance_p),
        old(instance_p).is_ready != 0 ==> *final(instance_p) == spec_clock_zeroed(),
{
    if instance_p.is_ready == 0 {
        return true;
    }
    instance_p.is_ready = 0;
    instance_p.config = FClockConfig { instance_id: 0, base_address: 0 };
    true
}

/// Whether a requested frequency converts to a divider the eight-bit divider
/// field can hold: at least one (the frequency does not exceed the input
/// clock) and at most the field's maximum.
pub open spec fn spec_clock_div_in_range(freq: u32) -> bool {
    1 <= SYSTEM_CLK as int / freq as int <= 0xff
}

/// Programs the divider for the requested frequency, enables the clock, and
/// polls the ready bit with the bounded retry loop. Entry `i` of
/// `status_samples` is what the `i`-th read of `clk_status` observed. A
/// frequency whose divider would overflow the eight-bit divider field — or
/// one above the input clock, whose divider would be zero — is a
/// configuration error, rejected before any register changes.
pub fn FClockSetFreq(
    instance_p: &FClockCtrl,
    regs: &mut ClockRegs,
    status_samples: &Vec<u32>,
    freq: u32,
) -> (ok: bool)
    requires
        1 <= freq,
    ensures
        !spec_clock_div_in_range(freq) ==> !ok && *final(regs) == *old(regs),
        spec_clock_div_in_range(freq) ==> {
            &&& final(regs).clk_div == spec_set(
                old(regs).clk_div,
                spec_clk_div_div(),
                SYSTEM_CLK / freq,
            )
            &&& final(regs).clk_con == spec_set(old(regs).clk_con, spec_clk_con_enable(), 1)
            &&& final(regs).clk_status == old(regs).clk_status
            &&& (ok <==> !none_ready_before(
                status_samples@,
                spec_clk_status_ready(),
                1,
                POLL_BOUND as int,
            ))
        },
{
    let div = SYSTEM_CLK / freq;
    if div < 1 || div > 0xff {
        return false;
    }
    regs.clk_div = modify_field(regs.clk_div, clk_div_div(), div);
    regs.clk_con = modify_field(regs.clk_con, clk_con_enable(), 1);
    let outcome = poll_field(status_samples, clk_status_ready(), 1, POLL_BOUND);
    outcome.ready
}

/// Reads the programmed divider back and returns the resulting frequency.
/// A zero divider would divide by zero and is a caller error.
pub fn FClockGetFreq(instance_p: &FClockCtrl, regs: &ClockRegs) -> (freq: u32)
    requires
        spec_get(regs.clk_div, spec_clk_div_div()) != 0,
    ensures
        freq == SYSTEM_CLK / spec_get(regs.clk_div, spec_clk_div_div()),
{
    let div = read_field(regs.clk_div, clk_div_div());
    SYSTEM_CLK / div
}

/// Law: a second `init` without an intervening `deinit` fails and leaves the
/// configuration exactly as the first call set it.
pub proof fn lemma_clock_init_twice(h: FClockCtrl, c1: FClockConfig, c2: FClockConfig)
    requires
        spec_clock_init(h, c1).1,
    ensures
        !spec_clock_init(spec_clock_init(h, c1).0, c2).1,
        spec_clock_init(spec_clock_init(h, c1).0, c2).0.config == c1,
{
}

/// Law: `deinit`, then `lookup_config`, then `init` with the looked-up
/// configuration succeeds and yields a ready handle, distinguishable from a
/// freshly zeroed one by its readiness sentinel.
pub proof fn lemma_clock_deinit_lookup_init(h: FClockCtrl)
    ensures
        ({
            let cleared = if h.is_ready == 0 { h } else { spec_clock_zeroed() };
            let looked = spec_clock_lookup(0);
            looked matches Some(c) && {
                let (h2, ok) = spec_clock_init(cleared, c);
                ok && h2.is_ready == READY_SENTINEL && h2.is_ready != spec_clock_zeroed().is_ready
            }
        }),
{
}

} // verus!
