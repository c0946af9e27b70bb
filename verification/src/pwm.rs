//! Single-channel PWM timer: register block model, the bring-up sequence —
//! software reset with a bounded self-clear poll, divider and period
//! programming, compare mode, then enable — and duty-cycle adjustment.
use vstd::prelude::*;
use crate::bits::{
    BitField, spec_get, spec_set, read_field, write_field, modify_field, lemma_get_zero,
    lemma_mask_table, lemma_set_then_get, lemma_set_preserves_disjoint,
};
use crate::poll::{poll_field, none_ready_before};
use crate::POLL_BOUND;

verus! {

/// Physical base address of the PWM timer this driver serves.
pub const PWM_BASE_ADDR: usize = 0x2804_A000;

/// Counting period the bring-up sequence programs, in divided clock ticks.
pub const PWM_DEFAULT_PERIOD: u32 = 10000;

/// Software-reset bit of the timer control register; it self-clears when
/// the reset has completed.
pub open spec fn spec_pwm_ctrl_sw_rst() -> BitField {
    BitField { offset: 0, width: 1 }
}

#[verifier::when_used_as_spec(spec_pwm_ctrl_sw_rst)]
pub fn pwm_ctrl_sw_rst() -> (f: BitField)
    ensures
        f == spec_pwm_ctrl_sw_rst(),
{
    BitField { offset: 0, width: 1 }
}

/// Enable bit of the timer control register.
pub open spec fn spec_pwm_ctrl_enable() -> BitField {
    BitField { offset: 1, width: 1 }
}

#[verifier::when_used_as_spec(spec_pwm_ctrl_enable)]
pub fn pwm_ctrl_enable() -> (f: BitField)
    ensures
        f == spec_pwm_ctrl_enable(),
{
    BitField { offset: 1, width: 1 }
}

/// Divider field of the timer control register; the layout declares it at
/// the register's top bits, so only the five that fit below bit 32 exist.
pub open spec fn spec_pwm_ctrl_div() -> BitField {
    BitField { offset: 27, width: 5 }
}

#[verifier::when_used_as_spec(spec_pwm_ctrl_div)]
pub fn pwm_ctrl_div() -> (f: BitField)
    ensures
        f == spec_pwm_ctrl_div(),
{
    BitField { offset: 27, width: 5 }
}

/// Period field of the period register.
pub open spec fn spec_pwm_period_ccr() -> BitField {
    BitField { offset: 0, width: 16 }
}

#[verifier::when_used_as_spec(spec_pwm_period_ccr)]
pub fn pwm_period_ccr() -> (f: BitField)
    ensures
        f == spec_pwm_period_ccr(),
{
    BitField { offset: 0, width: 16 }
}

/// Mode bit of the PWM control register (1 selects compare mode).
pub open spec fn spec_pwm_mode() -> BitField {
    BitField { offset: 2, width: 1 }
}

#[verifier::when_used_as_spec(spec_pwm_mode)]
pub fn pwm_mode() -> (f: BitField)
    ensures
        f == spec_pwm_mode(),
{
    BitField { offset: 2, width: 1 }
}

/// Compare-behaviour field of the PWM control register (3 drives the output
/// high up to the compare value and low after it).
pub open spec fn spec_pwm_cmp() -> BitField {
    BitField { offset: 4, width: 3 }
}

#[verifier::when_used_as_spec(spec_pwm_cmp)]
pub fn pwm_cmp() -> (f: BitField)
    ensures
        f == spec_pwm_cmp(),
{
    BitField { offset: 4, width: 3 }
}

/// Compare-value field of the compare register.
pub open spec fn spec_pwm_ccr_ccr() -> BitField {
    BitField { offset: 0, width: 16 }
}

#[verifier::when_used_as_spec(spec_pwm_ccr_ccr)]
pub fn pwm_ccr_ccr() -> (f: BitField)
    ensures
        f == spec_pwm_ccr_ccr(),
{
    BitField { offset: 0, width: 16 }
}

/// Model of the PWM timer register block (`tim_ctrl` at 0x404, `period` at
/// 0x40c, `pwm_ctrl` at 0x410, `ccr` at 0x414; total size 0x418).
#[derive(Clone, Copy, PartialEq, Eq, Structural, Debug)]
pub struct PwmCtrlRegs {
    pub tim_ctrl: u32,
    pub period: u32,
    pub pwm_ctrl: u32,
    pub ccr: u32,
}

impl PwmCtrlRegs {
    /// A register block model with every register zero.
    pub fn new() -> (r: PwmCtrlRegs)
        ensures
            r == (PwmCtrlRegs { tim_ctrl: 0, period: 0, pwm_ctrl: 0, ccr: 0 }),
    {
        PwmCtrlRegs { tim_ctrl: 0, period: 0, pwm_ctrl: 0, ccr: 0 }
    }
}

/// The timer-control value the bring-up sequence programs, starting from the
/// post-reset default of zero: divider 2 (field value 1), timer disabled.
pub open spec fn spec_pwm_init_tim_ctrl() -> u32 {
    spec_set(spec_set(0, spec_pwm_ctrl_div(), 1), spec_pwm_ctrl_enable(), 0)
}

/// The PWM-control value the bring-up sequence programs: compare mode with
/// high-then-low output behaviour.
pub open spec fn spec_pwm_init_pwm_ctrl() -> u32 {
    spec_set(spec_set(0, spec_pwm_mode(), 1), spec_pwm_cmp(), 3)
}

/// PWM driver handle over a virtual base address.
#[derive(Clone, Copy, PartialEq, Eq, Structural, Debug)]
pub struct PwmCtrl {
    pub base: usize,
}

impl PwmCtrl {
    /// Constructs the driver over a virtual base address; a null base is a
    /// misconfigured platform constant and is ruled out by construction.
    pub fn new(base: usize) -> (r: PwmCtrl)
        requires
            base != 0,
        ensures
            r.base == base,
    {
        PwmCtrl { base }
    }

    /// Bring-up sequence: software reset, a bounded poll for the reset bit
    /// to self-clear (entry `i` of `rst_samples` is what the `i`-th read of
    /// `tim_ctrl` observed), then — from the post-reset defaults — divider,
    /// period, compare mode and a half-period duty, and finally the enable
    /// bit. On a poll timeout the unit is left in reset and nothing further
    /// is programmed.
    pub fn init(&mut self, regs: &mut PwmCtrlRegs, rst_samples: &Vec<u32>) -> (ok: bool)
        ensures
            ok <==> !none_ready_before(rst_samples@, spec_pwm_ctrl_sw_rst(), 0, POLL_BOUND as int),
            ok ==> final(regs).tim_ctrl == spec_set(
                spec_pwm_init_tim_ctrl(),
                spec_pwm_ctrl_enable(),
                1,
            )
                && final(regs).period == spec_set(0, spec_pwm_period_ccr(), PWM_DEFAULT_PERIOD)
                && final(regs).pwm_ctrl == spec_pwm_init_pwm_ctrl()
                && final(regs).ccr == spec_set(0, spec_pwm_ccr_ccr(), PWM_DEFAULT_PERIOD / 2)
                && spec_get(final(regs).tim_ctrl, spec_pwm_ctrl_enable()) == 1
                && spec_get(final(regs).tim_ctrl, spec_pwm_ctrl_div()) == 1
                && spec_get(final(regs).tim_ctrl, spec_pwm_ctrl_sw_rst()) == 0
                && spec_get(final(regs).period, spec_pwm_period_ccr()) == PWM_DEFAULT_PERIOD
                && spec_get(final(regs).ccr, spec_pwm_ccr_ccr()) == PWM_DEFAULT_PERIOD / 2,
            !ok ==> final(regs).tim_ctrl == spec_set(0, spec_pwm_ctrl_sw_rst(), 1)
                && final(regs).period == old(regs).period
                && final(regs).pwm_ctrl == old(regs).pwm_ctrl
                && final(regs).ccr == old(regs).ccr,
            *final(self) == *old(self),
    {
        let t = PWM_DEFAULT_PERIOD;
        regs.tim_ctrl = write_field(pwm_ctrl_sw_rst(), 1);
        let outcome = poll_field(rst_samples, pwm_ctrl_sw_rst(), 0, POLL_BOUND);
        if !outcome.ready {
            return false;
        }
        // The completed software reset has returned the timer's registers to
        // their defaults; the sequence programs them from that state.
        regs.tim_ctrl = 0;
        regs.tim_ctrl = modify_field(regs.tim_ctrl, pwm_ctrl_div(), 1);
        regs.tim_ctrl = modify_field(regs.tim_ctrl, pwm_ctrl_enable(), 0);
        regs.period = write_field(pwm_period_ccr(), t);
        regs.pwm_ctrl = 0;
        regs.pwm_ctrl = modify_field(regs.pwm_ctrl, pwm_mode(), 1);
        regs.pwm_ctrl = modify_field(regs.pwm_ctrl, pwm_cmp(), 3);
        regs.ccr = write_field(pwm_ccr_ccr(), t >> 1);
        regs.tim_ctrl = modify_field(regs.tim_ctrl, pwm_ctrl_enable(), 1);
        proof {
            assert(PWM_DEFAULT_PERIOD >> 1u32 == PWM_DEFAULT_PERIOD / 2) by (bit_vector);
            lemma_pwm_init_tim_ctrl_fields();
            lemma_mask_table();
            lemma_set_then_get(0, spec_pwm_period_ccr(), PWM_DEFAULT_PERIOD);
            lemma_set_then_get(0, spec_pwm_ccr_ccr(), PWM_DEFAULT_PERIOD / 2);
        }
        true
    }

    /// Reprograms the duty cycle, given in percent. The compare register
    /// receives the tick count of the low phase,
    /// `(100 - duty) * period / 100`, computed from the period *field* so
    /// that the result always fits the sixteen-bit compare field; a duty
    /// outside 1 through 100 is rejected before any register change.
    pub fn change_duty(&mut self, regs: &mut PwmCtrlRegs, duty: u32) -> (r: Result<
        (),
        &'static str,
    >)
        ensures
            1 <= duty <= 100 ==> {
                let low_ticks = (100 - duty) * spec_get(old(regs).period, spec_pwm_period_ccr())
                    / 100;
                &&& r is Ok
                &&& final(regs).ccr == spec_set(0, spec_pwm_ccr_ccr(), low_ticks as u32)
                &&& spec_get(final(regs).ccr, spec_pwm_ccr_ccr()) == low_ticks
                &&& final(regs).tim_ctrl == old(regs).tim_ctrl
                &&& final(regs).period == old(regs).period
                &&& final(regs).pwm_ctrl == old(regs).pwm_ctrl
            },
            !(1 <= duty <= 100) ==> r is Err && *final(regs) == *old(regs),
            *final(self) == *old(self),
    {
        if 1 <= duty && duty <= 100 {
            let t = read_field(regs.period, pwm_period_ccr());
            let low_share: u32 = 100 - duty;
            proof {
                lemma_mask_table();
                crate::bits::lemma_get_bounded(regs.period, spec_pwm_period_ccr());
                vstd::arithmetic::mul::lemma_mul_upper_bound(
                    low_share as int,
                    100,
                    t as int,
                    0xffff,
                );
            }
            let nd64: u64 = low_share as u64 * t as u64 / 100;
            proof {
                vstd::arithmetic::div_mod::lemma_div_is_ordered(
                    low_share as int * t as int,
                    100int * 0xffffint,
                    100,
                );
                vstd::arithmetic::div_mod::lemma_div_multiples_vanish(0xffff, 100);
            }
            let nd = nd64 as u32;
            regs.ccr = write_field(pwm_ccr_ccr(), nd);
            proof {
                lemma_set_then_get(0, spec_pwm_ccr_ccr(), nd);
            }
            Ok(())
        } else {
            Err("duty must range between 1-100")
        }
    }
}

/// The programmed timer-control value reads back field by field: divider 1,
/// enable set by the final step, reset clear.
pub proof fn lemma_pwm_init_tim_ctrl_fields()
    ensures
        spec_get(spec_set(spec_pwm_init_tim_ctrl(), spec_pwm_ctrl_enable(), 1), spec_pwm_ctrl_enable()) == 1,
        spec_get(spec_set(spec_pwm_init_tim_ctrl(), spec_pwm_ctrl_enable(), 1), spec_pwm_ctrl_div()) == 1,
        spec_get(spec_set(spec_pwm_init_tim_ctrl(), spec_pwm_ctrl_enable(), 1), spec_pwm_ctrl_sw_rst()) == 0,
{
    lemma_mask_table();
    let t0: u32 = 0;
    let t1 = spec_set(t0, spec_pwm_ctrl_div(), 1);
    let t2 = spec_set(t1, spec_pwm_ctrl_enable(), 0);
    let t3 = spec_set(t2, spec_pwm_ctrl_enable(), 1);
    lemma_set_then_get(t2, spec_pwm_ctrl_enable(), 1);
    lemma_set_then_get(t0, spec_pwm_ctrl_div(), 1);
    lemma_set_preserves_disjoint(t1, spec_pwm_ctrl_enable(), spec_pwm_ctrl_div(), 0);
    lemma_set_preserves_disjoint(t2, spec_pwm_ctrl_enable(), spec_pwm_ctrl_div(), 1);
    lemma_get_zero(spec_pwm_ctrl_sw_rst());
    lemma_set_preserves_disjoint(t0, spec_pwm_ctrl_div(), spec_pwm_ctrl_sw_rst(), 1);
    lemma_set_preserves_disjoint(t1, spec_pwm_ctrl_enable(), spec_pwm_ctrl_sw_rst(), 0);
    lemma_set_preserves_disjoint(t2, spec_pwm_ctrl_enable(), spec_pwm_ctrl_sw_rst(), 1);
}

} // verus!
