//! Tachometer: register block model and the bring-up sequence — software
//! reset with a bounded self-clear poll, mode programming, then enable.
use vstd::prelude::*;
use crate::bits::{
    BitField, spec_get, spec_set, write_field, modify_field, lemma_get_zero,
    lemma_set_then_get, lemma_set_preserves_disjoint,
};
use crate::poll::{poll_field, none_ready_before};
use crate::POLL_BOUND;

verus! {

/// Measurement window programmed into the cycle register, in input-clock
/// ticks (one second at the 50 MHz input clock).
pub const TACHO_CYCLE_DEFAULT: u32 = 0x2faf07f;

/// Mode-select field of the control register (1 selects tachometer mode).
pub open spec fn spec_tacho_mode() -> BitField {
    BitField { offset: 0, width: 2 }
}

#[verifier::when_used_as_spec(spec_tacho_mode)]
pub fn tacho_mode() -> (f: BitField)
    ensures
        f == spec_tacho_mode(),
{
    BitField { offset: 0, width: 2 }
}

/// Software-reset bit of the control register; it self-clears when the
/// reset has completed.
pub open spec fn spec_tacho_swr() -> BitField {
    BitField { offset: 2, width: 1 }
}

#[verifier::when_used_as_spec(spec_tacho_swr)]
pub fn tacho_swr() -> (f: BitField)
    ensures
        f == spec_tacho_swr(),
{
    BitField { offset: 2, width: 1 }
}

/// Edge-select field of the control register (2 counts on both edges).
pub open spec fn spec_tacho_tach_mode() -> BitField {
    BitField { offset: 20, width: 2 }
}

#[verifier::when_used_as_spec(spec_tacho_tach_mode)]
pub fn tacho_tach_mode() -> (f: BitField)
    ensures
        f == spec_tacho_tach_mode(),
{
    BitField { offset: 20, width: 2 }
}

/// Counter-width select bit of the control register (0 selects 32 bits).
pub open spec fn spec_tacho_counter_series() -> BitField {
    BitField { offset: 24, width: 1 }
}

#[verifier::when_used_as_spec(spec_tacho_counter_series)]
pub fn tacho_counter_series() -> (f: BitField)
    ensures
        f == spec_tacho_counter_series(),
{
    BitField { offset: 24, width: 1 }
}

/// Counter-enable bit of the control register.
pub open spec fn spec_tacho_counter_en() -> BitField {
    BitField { offset: 25, width: 1 }
}

#[verifier::when_used_as_spec(spec_tacho_counter_en)]
pub fn tacho_counter_en() -> (f: BitField)
    ensures
        f == spec_tacho_counter_en(),
{
    BitField { offset: 25, width: 1 }
}

/// Tachometer-enable bit of the control register.
pub open spec fn spec_tacho_en() -> BitField {
    BitField { offset: 31, width: 1 }
}

#[verifier::when_used_as_spec(spec_tacho_en)]
pub fn tacho_en() -> (f: BitField)
    ensures
        f == spec_tacho_en(),
{
    BitField { offset: 31, width: 1 }
}

/// Valid bit of the result register.
pub const TACHO_RESULT_VALID_BIT: u32 = 0x8000_0000;

/// Mask of the measurement value inside the result register.
pub const TACHO_RESULT_VALUE_MASK: u32 = 0x7fff_ffff;

/// Model of the tachometer register block (`ctrl` at 0x0, `tach_result` at
/// 0x4, `tacho_cycle` at 0x1c; total size 0x3c).
#[derive(Clone, Copy, PartialEq, Eq, Structural, Debug)]
pub struct TachoRegs {
    pub ctrl: u32,
    pub tach_result: u32,
    pub tacho_cycle: u32,
}

impl TachoRegs {
    /// A register block model with every register zero.
    pub fn new() -> (r: TachoRegs)
        ensures
            r == (TachoRegs { ctrl: 0, tach_result: 0, tacho_cycle: 0 }),
    {
        TachoRegs { ctrl: 0, tach_result: 0, tacho_cycle: 0 }
    }
}

/// The control-register value the bring-up sequence programs, starting from
/// the post-reset default of zero: tachometer mode, 32-bit counter, count on
/// both edges, counter and tachometer enabled.
pub open spec fn spec_tacho_ctrl_config() -> u32 {
    spec_set(
        spec_set(
            spec_set(
                spec_set(spec_set(0, spec_tacho_mode(), 1), spec_tacho_counter_series(), 0),
                spec_tacho_tach_mode(),
                2,
            ),
            spec_tacho_counter_en(),
            1,
        ),
        spec_tacho_en(),
        1,
    )
}

/// Tachometer driver handle over a virtual base address.
#[derive(Clone, Copy, PartialEq, Eq, Structural, Debug)]
pub struct Tacho {
    pub base: usize,
}

impl Tacho {
    /// Constructs the driver over a virtual base address; a null base is a
    /// misconfigured platform constant and is ruled out by construction.
    pub fn new(base: usize) -> (r: Tacho)
        requires
            base != 0,
        ensures
            r.base == base,
    {
        Tacho { base }
    }

    /// Bring-up sequence: software reset, a bounded poll for the reset bit
    /// to self-clear (entry `i` of `swr_samples` is what the `i`-th read of
    /// `ctrl` observed), then — from the post-reset default value — mode
    /// programming, enable, and the measurement window. On a poll timeout
    /// the unit is left in reset and nothing further is programmed.
    pub fn init(&mut self, regs: &mut TachoRegs, swr_samples: &Vec<u32>) -> (ok: bool)
        ensures
            ok <==> !none_ready_before(swr_samples@, spec_tacho_swr(), 0, POLL_BOUND as int),
            ok ==> final(regs).ctrl == spec_tacho_ctrl_config()
                && final(regs).tacho_cycle == TACHO_CYCLE_DEFAULT
                && final(regs).tach_result == old(regs).tach_result
                && spec_get(final(regs).ctrl, spec_tacho_en()) == 1
                && spec_get(final(regs).ctrl, spec_tacho_counter_en()) == 1
                && spec_get(final(regs).ctrl, spec_tacho_mode()) == 1
                && spec_get(final(regs).ctrl, spec_tacho_tach_mode()) == 2
                && spec_get(final(regs).ctrl, spec_tacho_swr()) == 0,
            !ok ==> final(regs).ctrl == spec_set(0, spec_tacho_swr(), 1)
                && final(regs).tacho_cycle == old(regs).tacho_cycle
                && final(regs).tach_result == old(regs).tach_result,
            *final(self) == *old(self),
    {
        regs.ctrl = write_field(tacho_swr(), 1);
        let outcome = poll_field(swr_samples, tacho_swr(), 0, POLL_BOUND);
        if !outcome.ready {
            return false;
        }
        // The completed software reset has returned the unit's registers to
        // their defaults; the sequence programs the control register from
        // that state.
        regs.ctrl = 0;
        regs.ctrl = modify_field(regs.ctrl, tacho_mode(), 1);
        regs.ctrl = modify_field(regs.ctrl, tacho_counter_series(), 0);
        regs.ctrl = modify_field(regs.ctrl, tacho_tach_mode(), 2);
        regs.ctrl = modify_field(regs.ctrl, tacho_counter_en(), 1);
        regs.ctrl = modify_field(regs.ctrl, tacho_en(), 1);
        regs.tacho_cycle = TACHO_CYCLE_DEFAULT;
        proof {
            lemma_tacho_ctrl_config_fields();
        }
        true
    }

    /// Reads the measurement result: the value bits when the valid bit is
    /// set, nothing otherwise.
    pub fn get_result(&self, regs: &TachoRegs) -> (r: Option<u32>)
        ensures
            regs.tach_result & TACHO_RESULT_VALID_BIT != 0 ==> r == Some(
                regs.tach_result & TACHO_RESULT_VALUE_MASK,
            ),
            regs.tach_result & TACHO_RESULT_VALID_BIT == 0 ==> r is None,
    {
        let res = regs.tach_result;
        if res & TACHO_RESULT_VALID_BIT != 0 {
            Some(res & TACHO_RESULT_VALUE_MASK)
        } else {
            None
        }
    }
}

/// The programmed control value reads back field by field: tachometer mode,
/// both-edge counting, counter and unit enabled, reset clear.
pub proof fn lemma_tacho_ctrl_config_fields()
    ensures
        spec_get(spec_tacho_ctrl_config(), spec_tacho_en()) == 1,
        spec_get(spec_tacho_ctrl_config(), spec_tacho_counter_en()) == 1,
        spec_get(spec_tacho_ctrl_config(), spec_tacho_mode()) == 1,
        spec_get(spec_tacho_ctrl_config(), spec_tacho_tach_mode()) == 2,
        spec_get(spec_tacho_ctrl_config(), spec_tacho_swr()) == 0,
{
    crate::bits::lemma_mask_table();
    let t0: u32 = 0;
    let t1 = spec_set(t0, spec_tacho_mode(), 1);
    let t2 = spec_set(t1, spec_tacho_counter_series(), 0);
    let t3 = spec_set(t2, spec_tacho_tach_mode(), 2);
    let t4 = spec_set(t3, spec_tacho_counter_en(), 1);
    let t5 = spec_set(t4, spec_tacho_en(), 1);
    lemma_set_then_get(t4, spec_tacho_en(), 1);
    lemma_set_preserves_disjoint(t3, spec_tacho_counter_en(), spec_tacho_en(), 1);
    lemma_set_then_get(t3, spec_tacho_counter_en(), 1);
    lemma_set_preserves_disjoint(t4, spec_tacho_en(), spec_tacho_counter_en(), 1);
    // Field value of the mode select survives the four later writes.
    lemma_set_then_get(t0, spec_tacho_mode(), 1);
    lemma_set_preserves_disjoint(t1, spec_tacho_counter_series(), spec_tacho_mode(), 0);
    lemma_set_preserves_disjoint(t2, spec_tacho_tach_mode(), spec_tacho_mode(), 2);
    lemma_set_preserves_disjoint(t3, spec_tacho_counter_en(), spec_tacho_mode(), 1);
    lemma_set_preserves_disjoint(t4, spec_tacho_en(), spec_tacho_mode(), 1);
    // Edge-select field.
    lemma_set_then_get(t2, spec_tacho_tach_mode(), 2);
    lemma_set_preserves_disjoint(t3, spec_tacho_counter_en(), spec_tacho_tach_mode(), 1);
    lemma_set_preserves_disjoint(t4, spec_tacho_en(), spec_tacho_tach_mode(), 1);
    // The reset bit stays clear through every write.
    lemma_get_zero(spec_tacho_swr());
    lemma_set_preserves_disjoint(t0, spec_tacho_mode(), spec_tacho_swr(), 1);
    lemma_set_preserves_disjoint(t1, spec_tacho_counter_series(), spec_tacho_swr(), 0);
    lemma_set_preserves_disjoint(t2, spec_tacho_tach_mode(), spec_tacho_swr(), 2);
    lemma_set_preserves_disjoint(t3, spec_tacho_counter_en(), spec_tacho_swr(), 1);
    lemma_set_preserves_disjoint(t4, spec_tacho_en(), spec_tacho_swr(), 1);
}

} // verus!
