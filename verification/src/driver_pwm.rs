//! Multi-channel PWM: eight controllers of two channels each, sharing one
//! global-enable register. Covers the full channel configuration sequence —
//! parameter validation, divider/period/duty conversion from semantic
//! parameters, dead-band programming, FIFO mode — plus enable/disable, the
//! drain-then-stop sequence, FIFO refill on interrupt, and the global-enable
//! mask.
//!
//! The duty cycle is carried as the exact fraction
//! `duty_num / duty_den` (a value in [0, 1]); conversions to register ticks
//! truncate toward zero.
use vstd::prelude::*;
use crate::bits::{
    BitField, spec_get, spec_set, read_field, write_field, modify_field, lemma_get_zero,
    lemma_mask_table, lemma_set_then_get, lemma_set_preserves_disjoint,
};
use crate::poll::{poll_field, none_ready_before};
use crate::{SYSTEM_CLK, POLL_BOUND};

verus! {

/// Number of PWM controllers on the platform.
pub const PWM_CONTROLLERS: usize = 8;

/// Channels per controller.
pub const CHANNELS_PER_CONTROLLER: usize = 2;

/// Physical base address of controller 0; controller `n` sits at
/// `PWM_CONTROLLER_BASE + n * PWM_CONTROLLER_STRIDE`.
pub const PWM_CONTROLLER_BASE: usize = 0x2804_A000;

/// Address stride between consecutive controllers.
pub const PWM_CONTROLLER_STRIDE: usize = 0x1000;

/// Physical address of the shared global-enable register.
pub const GLOBAL_ENABLE_REG_ADDR: usize = 0x2807_E020;

/// Largest value the ten-bit dead-band delay fields hold.
pub const PWM_DEADTIME_MAX: u64 = 1023;

/// Divider field of a channel's timer control register.
pub open spec fn spec_tim_ctrl_div() -> BitField {
    BitField { offset: 16, width: 12 }
}

#[verifier::when_used_as_spec(spec_tim_ctrl_div)]
pub fn tim_ctrl_div() -> (f: BitField)
    ensures
        f == spec_tim_ctrl_div(),
{
    BitField { offset: 16, width: 12 }
}

/// Counting-mode bit of the timer control register (0 modulo, 1 up-down).
pub open spec fn spec_tim_ctrl_mode() -> BitField {
    BitField { offset: 2, width: 1 }
}

#[verifier::when_used_as_spec(spec_tim_ctrl_mode)]
pub fn tim_ctrl_mode() -> (f: BitField)
    ensures
        f == spec_tim_ctrl_mode(),
{
    BitField { offset: 2, width: 1 }
}

/// Enable bit of the timer control register.
pub open spec fn spec_tim_ctrl_enable() -> BitField {
    BitField { offset: 1, width: 1 }
}

#[verifier::when_used_as_spec(spec_tim_ctrl_enable)]
pub fn tim_ctrl_enable() -> (f: BitField)
    ensures
        f == spec_tim_ctrl_enable(),
{
    BitField { offset: 1, width: 1 }
}

/// Counter field of the timer count register.
pub open spec fn spec_tim_cnt_cnt() -> BitField {
    BitField { offset: 0, width: 16 }
}

#[verifier::when_used_as_spec(spec_tim_cnt_cnt)]
pub fn tim_cnt_cnt() -> (f: BitField)
    ensures
        f == spec_tim_cnt_cnt(),
{
    BitField { offset: 0, width: 16 }
}

/// Period field of a channel's period register.
pub open spec fn spec_period_ccr() -> BitField {
    BitField { offset: 0, width: 16 }
}

#[verifier::when_used_as_spec(spec_period_ccr)]
pub fn period_ccr() -> (f: BitField)
    ensures
        f == spec_period_ccr(),
{
    BitField { offset: 0, width: 16 }
}

/// Compare-value field of a channel's compare register.
pub open spec fn spec_ccr_ccr() -> BitField {
    BitField { offset: 0, width: 16 }
}

#[verifier::when_used_as_spec(spec_ccr_ccr)]
pub fn ccr_ccr() -> (f: BitField)
    ensures
        f == spec_ccr_ccr(),
{
    BitField { offset: 0, width: 16 }
}

/// Mode bit of a channel's PWM control register (1 selects compare mode).
pub open spec fn spec_pwmc_mode() -> BitField {
    BitField { offset: 2, width: 1 }
}

#[verifier::when_used_as_spec(spec_pwmc_mode)]
pub fn pwmc_mode() -> (f: BitField)
    ensures
        f == spec_pwmc_mode(),
{
    BitField { offset: 2, width: 1 }
}

/// Interrupt-enable bit of the PWM control register.
pub open spec fn spec_pwmc_ie() -> BitField {
    BitField { offset: 3, width: 1 }
}

#[verifier::when_used_as_spec(spec_pwmc_ie)]
pub fn pwmc_ie() -> (f: BitField)
    ensures
        f == spec_pwmc_ie(),
{
    BitField { offset: 3, width: 1 }
}

/// Output-behaviour field of the PWM control register.
pub open spec fn spec_pwmc_cmp() -> BitField {
    BitField { offset: 4, width: 3 }
}

#[verifier::when_used_as_spec(spec_pwmc_cmp)]
pub fn pwmc_cmp() -> (f: BitField)
    ensures
        f == spec_pwmc_cmp(),
{
    BitField { offset: 4, width: 3 }
}

/// Initial-output bit of the PWM control register.
pub open spec fn spec_pwmc_icov() -> BitField {
    BitField { offset: 7, width: 1 }
}

#[verifier::when_used_as_spec(spec_pwmc_icov)]
pub fn pwmc_icov() -> (f: BitField)
    ensures
        f == spec_pwmc_icov(),
{
    BitField { offset: 7, width: 1 }
}

/// Duty-source select bit of the PWM control register (1 reads the FIFO).
pub open spec fn spec_pwmc_duty_sel() -> BitField {
    BitField { offset: 8, width: 1 }
}

#[verifier::when_used_as_spec(spec_pwmc_duty_sel)]
pub fn pwmc_duty_sel() -> (f: BitField)
    ensures
        f == spec_pwmc_duty_sel(),
{
    BitField { offset: 8, width: 1 }
}

/// FIFO-empty interrupt enable bit of the PWM control register.
pub open spec fn spec_pwmc_fifo_empty_enable() -> BitField {
    BitField { offset: 9, width: 1 }
}

#[verifier::when_used_as_spec(spec_pwmc_fifo_empty_enable)]
pub fn pwmc_fifo_empty_enable() -> (f: BitField)
    ensures
        f == spec_pwmc_fifo_empty_enable(),
{
    BitField { offset: 9, width: 1 }
}

/// Channel-interrupt flag of the state register.
pub open spec fn spec_state_chif() -> BitField {
    BitField { offset: 0, width: 1 }
}

#[verifier::when_used_as_spec(spec_state_chif)]
pub fn state_chif() -> (f: BitField)
    ensures
        f == spec_state_chif(),
{
    BitField { offset: 0, width: 1 }
}

/// Overflow-interrupt flag of the state register.
pub open spec fn spec_state_ovfif() -> BitField {
    BitField { offset: 1, width: 1 }
}

#[verifier::when_used_as_spec(spec_state_ovfif)]
pub fn state_ovfif() -> (f: BitField)
    ensures
        f == spec_state_ovfif(),
{
    BitField { offset: 1, width: 1 }
}

/// FIFO-empty flag of the state register.
pub open spec fn spec_state_fifo_empty() -> BitField {
    BitField { offset: 2, width: 1 }
}

#[verifier::when_used_as_spec(spec_state_fifo_empty)]
pub fn state_fifo_empty() -> (f: BitField)
    ensures
        f == spec_state_fifo_empty(),
{
    BitField { offset: 2, width: 1 }
}

/// FIFO-full flag of the state register.
pub open spec fn spec_state_fifo_full() -> BitField {
    BitField { offset: 3, width: 1 }
}

#[verifier::when_used_as_spec(spec_state_fifo_full)]
pub fn state_fifo_full() -> (f: BitField)
    ensures
        f == spec_state_fifo_full(),
{
    BitField { offset: 3, width: 1 }
}

/// Rising-edge dead-band delay field.
pub open spec fn spec_dbdly_dbred() -> BitField {
    BitField { offset: 0, width: 10 }
}

#[verifier::when_used_as_spec(spec_dbdly_dbred)]
pub fn dbdly_dbred() -> (f: BitField)
    ensures
        f == spec_dbdly_dbred(),
{
    BitField { offset: 0, width: 10 }
}

/// Falling-edge dead-band delay field.
pub open spec fn spec_dbdly_dbfed() -> BitField {
    BitField { offset: 10, width: 10 }
}

#[verifier::when_used_as_spec(spec_dbdly_dbfed)]
pub fn dbdly_dbfed() -> (f: BitField)
    ensures
        f == spec_dbdly_dbfed(),
{
    BitField { offset: 10, width: 10 }
}

/// Dead-band output-mode field (3 applies the dead band to both edges).
pub open spec fn spec_dbctrl_out_mode() -> BitField {
    BitField { offset: 4, width: 2 }
}

#[verifier::when_used_as_spec(spec_dbctrl_out_mode)]
pub fn dbctrl_out_mode() -> (f: BitField)
    ensures
        f == spec_dbctrl_out_mode(),
{
    BitField { offset: 4, width: 2 }
}

/// Dead-band polarity field (0 is active-high).
pub open spec fn spec_dbctrl_polsel() -> BitField {
    BitField { offset: 2, width: 2 }
}

#[verifier::when_used_as_spec(spec_dbctrl_polsel)]
pub fn dbctrl_polsel() -> (f: BitField)
    ensures
        f == spec_dbctrl_polsel(),
{
    BitField { offset: 2, width: 2 }
}

/// Dead-band input-select bit (0 takes channel 0 as the source).
pub open spec fn spec_dbctrl_in_mode() -> BitField {
    BitField { offset: 1, width: 1 }
}

#[verifier::when_used_as_spec(spec_dbctrl_in_mode)]
pub fn dbctrl_in_mode() -> (f: BitField)
    ensures
        f == spec_dbctrl_in_mode(),
{
    BitField { offset: 1, width: 1 }
}

/// Configuration of one PWM channel. The duty cycle is the fraction
/// `duty_num / duty_den`; a well-formed configuration keeps it within
/// [0, 1].
#[derive(Clone, Copy, PartialEq, Eq, Structural, Debug)]
pub struct PwmConfig {
    /// Output frequency, in Hz.
    pub frequency: u32,
    /// Numerator of the duty-cycle fraction.
    pub duty_num: u32,
    /// Denominator of the duty-cycle fraction.
    pub duty_den: u32,
    /// Counting mode: 0 modulo, 1 up-and-down.
    pub counting_mode: u32,
    /// Dead-band time in nanoseconds, if the dead band is wanted.
    pub deadtime_ns: Option<u32>,
    /// Whether the duty value is fed through the FIFO.
    pub use_fifo: bool,
    /// Output behaviour, 0 through 7.
    pub output_behavior: u32,
    /// Initial output value, 0 or 1.
    pub initial_value: u32,
}

impl PwmConfig {
    /// The duty fraction is a well-defined value in [0, 1].
    pub open spec fn duty_wf(self) -> bool {
        1 <= self.duty_den && self.duty_num <= self.duty_den
    }
}

/// State of one channel: its configuration once accepted, and whether the
/// channel is enabled.
#[derive(Clone, Copy, PartialEq, Eq, Structural, Debug)]
pub struct PwmChannel {
    pub config: Option<PwmConfig>,
    pub enabled: bool,
}

/// Model of one channel's register group (`tim_cnt`, `tim_ctrl`, `state`,
/// `pwm_period`, `pwm_ctrl`, `pwm_ccr`, at stride 0x400 per channel).
#[derive(Clone, Copy, PartialEq, Eq, Structural, Debug)]
pub struct ChannelRegs {
    pub tim_cnt: u32,
    pub tim_ctrl: u32,
    pub state: u32,
    pub pwm_period: u32,
    pub pwm_ctrl: u32,
    pub pwm_ccr: u32,
}

impl ChannelRegs {
    /// A channel register group with every register zero.
    pub fn new() -> (r: ChannelRegs)
        ensures
            r == (ChannelRegs {
                tim_cnt: 0,
                tim_ctrl: 0,
                state: 0,
                pwm_period: 0,
                pwm_ctrl: 0,
                pwm_ccr: 0,
            }),
    {
        ChannelRegs { tim_cnt: 0, tim_ctrl: 0, state: 0, pwm_period: 0, pwm_ctrl: 0, pwm_ccr: 0 }
    }
}

/// A channel register group with every register zero.
pub open spec fn spec_channel_regs_zero() -> ChannelRegs {
    ChannelRegs { tim_cnt: 0, tim_ctrl: 0, state: 0, pwm_period: 0, pwm_ctrl: 0, pwm_ccr: 0 }
}

/// Model of one controller's register block: the dead-band pair at the
/// block's start and one register group per channel.
#[derive(Clone, Copy, PartialEq, Eq, Structural, Debug)]
pub struct PwmRegs {
    pub dbctrl: u32,
    pub dbdly: u32,
    pub ch0: ChannelRegs,
    pub ch1: ChannelRegs,
}

impl PwmRegs {
    /// A register block model with every register zero.
    pub fn new() -> (r: PwmRegs)
        ensures
            r == (PwmRegs { dbctrl: 0, dbdly: 0, ch0: spec_channel_regs_zero(), ch1: spec_channel_regs_zero() }),
    {
        PwmRegs { dbctrl: 0, dbdly: 0, ch0: ChannelRegs::new(), ch1: ChannelRegs::new() }
    }
}

/// One PWM controller: base address, per-channel state, and the register
/// block model the operations act on.
#[derive(Clone, Copy, PartialEq, Eq, Structural, Debug)]
pub struct PwmController {
    pub base: usize,
    pub channel0: PwmChannel,
    pub channel1: PwmChannel,
    pub regs: PwmRegs,
}

/// Converts a duty fraction into the compare-register tick count for the
/// given period, truncating toward zero. The boundary fractions land
/// exactly: zero gives zero and one gives the whole period.
pub fn compute_duty_register(period: u32, duty_num: u32, duty_den: u32) -> (r: u32)
    requires
        1 <= duty_den,
        duty_num <= duty_den,
    ensures
        r == period * duty_num / (duty_den as int),
        r <= period,
        duty_num == 0 ==> r == 0,
        duty_num == duty_den ==> r == period,
{
    proof {
        vstd::arithmetic::mul::lemma_mul_upper_bound(
            period as int,
            0xffff_ffff,
            duty_num as int,
            0xffff_ffff,
        );
        vstd::arithmetic::mul::lemma_mul_inequality(duty_num as int, duty_den as int, period as int);
        vstd::arithmetic::mul::lemma_mul_is_commutative(duty_num as int, period as int);
        vstd::arithmetic::mul::lemma_mul_is_commutative(duty_den as int, period as int);
        vstd::arithmetic::div_mod::lemma_div_is_ordered(
            period as int * duty_num as int,
            period as int * duty_den as int,
            duty_den as int,
        );
        vstd::arithmetic::div_mod::lemma_div_multiples_vanish(period as int, duty_den as int);
        vstd::arithmetic::mul::lemma_mul_is_commutative(period as int, duty_den as int);
        if duty_num == 0 {
            vstd::arithmetic::mul::lemma_mul_basics(period as int);
        }
    }
    let r64: u64 = period as u64 * duty_num as u64 / duty_den as u64;
    r64 as u32
}

/// The divider computed for a configuration: the input clock over the
/// requested frequency, truncated.
pub open spec fn spec_cfg_div(c: PwmConfig) -> int {
    SYSTEM_CLK as int / c.frequency as int
}

/// The counting period in divided-clock ticks: the input clock over divider
/// times frequency, truncated.
pub open spec fn spec_cfg_period_cycles(c: PwmConfig) -> int {
    SYSTEM_CLK as int / (spec_cfg_div(c) * c.frequency as int)
}

/// The value programmed into the sixteen-bit period field: the period in
/// ticks, less one.
pub open spec fn spec_cfg_period_reg(c: PwmConfig) -> int {
    spec_cfg_period_cycles(c) - 1
}

/// The compare-register tick count of the duty fraction for this
/// configuration.
pub open spec fn spec_cfg_duty_ticks(c: PwmConfig) -> int {
    spec_cfg_period_reg(c) * c.duty_num / (c.duty_den as int)
}

/// Whether a configuration passes every validation step: a well-formed duty
/// fraction, a divider that fits its conversion range, and a period that
/// fits its sixteen-bit field.
pub open spec fn spec_cfg_accepted(c: PwmConfig) -> bool {
    &&& c.duty_wf()
    &&& 1 <= spec_cfg_div(c) <= 0xFFFF
    &&& spec_cfg_period_reg(c) <= 0xFFFF
}

/// The dead-band delay in clock ticks for a dead time in nanoseconds,
/// saturated to the ten-bit field.
pub open spec fn spec_deadtime_delay(ns: u32) -> int {
    let d = ns as int * SYSTEM_CLK as int / 1_000_000_000;
    if d > PWM_DEADTIME_MAX as int {
        PWM_DEADTIME_MAX as int
    } else {
        d
    }
}

/// The register group of an accepted configuration: timer disabled with the
/// computed divider and the chosen counting mode, the computed period, the
/// PWM control fields, and the compare register holding the duty ticks.
pub open spec fn spec_configured_channel_regs(old: ChannelRegs, c: PwmConfig) -> ChannelRegs {
    let div = spec_cfg_div(c) as u32;
    let period_reg = spec_cfg_period_reg(c) as u32;
    let duty = spec_cfg_duty_ticks(c) as u32;
    let fifo_bit: u32 = if c.use_fifo {
        1
    } else {
        0
    };
    let tim1 = spec_set(old.tim_ctrl, spec_tim_ctrl_enable(), 0);
    let tim2 = spec_set(
        spec_set(spec_set(tim1, spec_tim_ctrl_div(), div), spec_tim_ctrl_mode(), c.counting_mode),
        spec_tim_ctrl_enable(),
        0,
    );
    let pwmc5 = spec_set(
        spec_set(
            spec_set(
                spec_set(spec_set(old.pwm_ctrl, spec_pwmc_mode(), 1), spec_pwmc_duty_sel(), fifo_bit),
                spec_pwmc_icov(),
                c.initial_value,
            ),
            spec_pwmc_cmp(),
            c.output_behavior,
        ),
        spec_pwmc_ie(),
        1,
    );
    let pwmc = if c.use_fifo {
        spec_set(pwmc5, spec_pwmc_fifo_empty_enable(), 1)
    } else {
        pwmc5
    };
    ChannelRegs {
        tim_cnt: old.tim_cnt,
        tim_ctrl: tim2,
        state: old.state,
        pwm_period: spec_set(old.pwm_period, spec_period_ccr(), period_reg),
        pwm_ctrl: pwmc,
        pwm_ccr: spec_set(0, spec_ccr_ccr(), duty),
    }
}

/// The whole controller after an accepted configuration of `channel`: that
/// channel's registers reprogrammed, its state holding the configuration
/// with the channel disabled, the dead-band pair programmed when a dead time
/// was asked for, and everything else untouched.
pub open spec fn spec_configured(s: PwmController, channel: int, c: PwmConfig) -> PwmController {
    let dbdly = if c.deadtime_ns is Some {
        let delay = spec_deadtime_delay(c.deadtime_ns->Some_0) as u32;
        spec_set(spec_set(0, spec_dbdly_dbred(), delay), spec_dbdly_dbfed(), delay)
    } else {
        s.regs.dbdly
    };
    let dbctrl = if c.deadtime_ns is Some {
        spec_set(
            spec_set(spec_set(s.regs.dbctrl, spec_dbctrl_out_mode(), 3), spec_dbctrl_in_mode(), 0),
            spec_dbctrl_polsel(),
            0,
        )
    } else {
        s.regs.dbctrl
    };
    let configured = PwmChannel { config: Some(c), enabled: false };
    PwmController {
        base: s.base,
        channel0: if channel == 0 {
            configured
        } else {
            s.channel0
        },
        channel1: if channel == 1 {
            configured
        } else {
            s.channel1
        },
        regs: PwmRegs {
            dbctrl,
            dbdly,
            ch0: if channel == 0 {
                spec_configured_channel_regs(s.regs.ch0, c)
            } else {
                s.regs.ch0
            },
            ch1: if channel == 1 {
                spec_configured_channel_regs(s.regs.ch1, c)
            } else {
                s.regs.ch1
            },
        },
    }
}

impl PwmController {
    /// Every stored configuration carries a well-defined duty fraction.
    pub open spec fn wf(self) -> bool {
        &&& (self.channel0.config matches Some(c) ==> c.duty_wf())
        &&& (self.channel1.config matches Some(c) ==> c.duty_wf())
    }

    /// The register group of `channel` in the model.
    pub open spec fn spec_channel_regs(self, channel: int) -> ChannelRegs {
        if channel == 0 {
            self.regs.ch0
        } else {
            self.regs.ch1
        }
    }

    /// The state of `channel` in the model.
    pub open spec fn spec_channel(self, channel: int) -> PwmChannel {
        if channel == 0 {
            self.channel0
        } else {
            self.channel1
        }
    }

    /// Constructs a controller over a base address, with no channel
    /// configured and the register model zeroed.
    pub fn new(base: usize) -> (r: PwmController)
        requires
            base != 0,
        ensures
            r == spec_fresh_controller(base),
            r.wf(),
    {
        PwmController {
            base,
            channel0: PwmChannel { config: None, enabled: false },
            channel1: PwmChannel { config: None, enabled: false },
            regs: PwmRegs::new(),
        }
    }

    /// Validates and programs one channel: divider from the requested
    /// frequency, period from the divided clock, duty ticks from the duty
    /// fraction, optional dead band, compare mode, FIFO feed when asked for.
    /// Every rejection happens before any register of the model changes, and
    /// the channel is left disabled for a later `enable_channel`.
    pub fn configure_channel(&mut self, channel: usize, config: PwmConfig) -> (r: Result<
        (),
        &'static str,
    >)
        requires
            1 <= config.frequency,
            old(self).wf(),
        ensures
            final(self).wf(),
            r is Ok <==> channel < CHANNELS_PER_CONTROLLER && spec_cfg_accepted(config),
            r is Err ==> *final(self) == *old(self),
            r is Ok ==> *final(self) == spec_configured(*old(self), channel as int, config),
            channel >= CHANNELS_PER_CONTROLLER ==> (r matches Err(m) && m@
                == "Invalid channel number"@),
            channel < CHANNELS_PER_CONTROLLER && !config.duty_wf() ==> (r matches Err(m) && m@
                == "Duty cycle must be between 0 and 1"@),
            channel < CHANNELS_PER_CONTROLLER && config.duty_wf() && spec_cfg_div(config) > 0xFFFF
                ==> (r matches Err(m) && m@ == "Divider value too large"@),
            channel < CHANNELS_PER_CONTROLLER && config.duty_wf() && spec_cfg_div(config) < 1 ==> (
            r matches Err(m) && m@ == "Period too small"@),
            channel < CHANNELS_PER_CONTROLLER && config.duty_wf() && 1 <= spec_cfg_div(config)
                <= 0xFFFF && spec_cfg_period_reg(config) > 0xFFFF ==> (r matches Err(m) && m@
                == "Period value too large"@),
    {
        if channel >= CHANNELS_PER_CONTROLLER {
            return Err("Invalid channel number");
        }
        if config.duty_den == 0 || config.duty_num > config.duty_den {
            return Err("Duty cycle must be between 0 and 1");
        }
        let div: u32 = SYSTEM_CLK / config.frequency;
        if div > 0xFFFF {
            return Err("Divider value too large");
        }
        if div == 0 {
            return Err("Period too small");
        }
        proof {
            let c = SYSTEM_CLK as int;
            let f = config.frequency as int;
            let d = div as int;
            vstd::arithmetic::div_mod::lemma_fundamental_div_mod(c, f);
            vstd::arithmetic::div_mod::lemma_mod_bound(c, f);
            assert(1 <= d * f <= c) by (nonlinear_arith)
                requires
                    1 <= d,
                    1 <= f,
                    c == f * d + c % f,
                    0 <= c % f,
            ;
            vstd::arithmetic::div_mod::lemma_div_is_ordered_by_denominator(c, d * f, c);
            vstd::arithmetic::div_mod::lemma_div_by_self(c);
        }
        let denom: u32 = div * config.frequency;
        let period_cycles: u32 = SYSTEM_CLK / denom;
        let period_reg: u32 = period_cycles - 1;
        if period_reg > 0xFFFF {
            return Err("Period value too large");
        }
        let duty_ticks = compute_duty_register(period_reg, config.duty_num, config.duty_den);
        if let Some(deadtime) = config.deadtime_ns {
            proof {
                vstd::arithmetic::mul::lemma_mul_upper_bound(
                    deadtime as int,
                    0xffff_ffff,
                    SYSTEM_CLK as int,
                    SYSTEM_CLK as int,
                );
            }
            let delay64: u64 = deadtime as u64 * SYSTEM_CLK as u64 / 1_000_000_000;
            let delay: u32 = if delay64 > PWM_DEADTIME_MAX {
                1023
            } else {
                delay64 as u32
            };
            self.regs.dbdly = modify_field(write_field(dbdly_dbred(), delay), dbdly_dbfed(), delay);
            self.regs.dbctrl = modify_field(
                modify_field(
                    modify_field(self.regs.dbctrl, dbctrl_out_mode(), 3),
                    dbctrl_in_mode(),
                    0,
                ),
                dbctrl_polsel(),
                0,
            );
        }
        let mut chr = if channel == 0 {
            self.regs.ch0
        } else {
            self.regs.ch1
        };
        chr.tim_ctrl = modify_field(chr.tim_ctrl, tim_ctrl_enable(), 0);
        chr.tim_ctrl = modify_field(
            modify_field(
                modify_field(chr.tim_ctrl, tim_ctrl_div(), div),
                tim_ctrl_mode(),
                config.counting_mode,
            ),
            tim_ctrl_enable(),
            0,
        );
        chr.pwm_period = modify_field(chr.pwm_period, period_ccr(), period_reg);
        chr.pwm_ctrl = modify_field(
            modify_field(
                modify_field(
                    modify_field(
                        modify_field(chr.pwm_ctrl, pwmc_mode(), 1),
                        pwmc_duty_sel(),
                        if config.use_fifo {
                            1
                        } else {
                            0
                        },
                    ),
                    pwmc_icov(),
                    config.initial_value,
                ),
                pwmc_cmp(),
                config.output_behavior,
            ),
            pwmc_ie(),
            1,
        );
        if config.use_fifo {
            // The hardware FIFO takes four entries; the sequence preloads all
            // of them with the same duty value.
            chr.pwm_ccr = write_field(ccr_ccr(), duty_ticks);
            chr.pwm_ccr = write_field(ccr_ccr(), duty_ticks);
            chr.pwm_ccr = write_field(ccr_ccr(), duty_ticks);
            chr.pwm_ccr = write_field(ccr_ccr(), duty_ticks);
            chr.pwm_ctrl = modify_field(chr.pwm_ctrl, pwmc_fifo_empty_enable(), 1);
        } else {
            chr.pwm_ccr = write_field(ccr_ccr(), duty_ticks);
        }
        proof {
            assert(spec_cfg_div(config) == div as int);
            assert(spec_cfg_period_reg(config) == period_reg as int);
            assert(spec_cfg_duty_ticks(config) == duty_ticks as int);
        }
        if channel == 0 {
            self.regs.ch0 = chr;
            self.channel0 = PwmChannel { config: Some(config), enabled: false };
        } else {
            self.regs.ch1 = chr;
            self.channel1 = PwmChannel { config: Some(config), enabled: false };
        }
        Ok(())
    }

    /// Sets the enable bit of the channel's timer and records it enabled.
    /// A channel index outside the controller fails without side effects.
    pub fn enable_channel(&mut self, channel: usize) -> (r: Result<(), &'static str>)
        ensures
            channel >= CHANNELS_PER_CONTROLLER ==> (r matches Err(m) && m@
                == "Invalid channel number"@) && *final(self) == *old(self),
            channel < CHANNELS_PER_CONTROLLER ==> r is Ok && *final(self) == spec_enabled(
                *old(self),
                channel as int,
                true,
            ),
    {
        if channel >= CHANNELS_PER_CONTROLLER {
            return Err("Invalid channel number");
        }
        if channel == 0 {
            self.regs.ch0.tim_ctrl = modify_field(self.regs.ch0.tim_ctrl, tim_ctrl_enable(), 1);
            self.channel0 = PwmChannel { config: self.channel0.config, enabled: true };
        } else {
            self.regs.ch1.tim_ctrl = modify_field(self.regs.ch1.tim_ctrl, tim_ctrl_enable(), 1);
            self.channel1 = PwmChannel { config: self.channel1.config, enabled: true };
        }
        Ok(())
    }

    /// Clears the enable bit of the channel's timer and records it disabled.
    pub fn disable_channel(&mut self, channel: usize)
        requires
            channel < CHANNELS_PER_CONTROLLER,
        ensures
            *final(self) == spec_enabled(*old(self), channel as int, false),
    {
        if channel == 0 {
            self.regs.ch0.tim_ctrl = modify_field(self.regs.ch0.tim_ctrl, tim_ctrl_enable(), 0);
            self.channel0 = PwmChannel { config: self.channel0.config, enabled: false };
        } else {
            self.regs.ch1.tim_ctrl = modify_field(self.regs.ch1.tim_ctrl, tim_ctrl_enable(), 0);
            self.channel1 = PwmChannel { config: self.channel1.config, enabled: false };
        }
    }

    /// Drains the channel before stopping it: zeroes the compare register,
    /// waits for the counter to reach zero with the bounded poll (entry `i`
    /// of `cnt_samples` is what the `i`-th read of `tim_cnt` observed), then
    /// disables the channel. If the counter never drains within the bound,
    /// the channel is left running with the zeroed compare value and the
    /// stop fails.
    pub fn safe_stop_channel(&mut self, channel: usize, cnt_samples: &Vec<u32>) -> (r: Result<
        (),
        &'static str,
    >)
        requires
            channel < CHANNELS_PER_CONTROLLER,
        ensures
            r is Ok <==> !none_ready_before(cnt_samples@, spec_tim_cnt_cnt(), 0, POLL_BOUND as int),
            r is Ok ==> *final(self) == spec_enabled(
                spec_ccr_written(*old(self), channel as int, 0),
                channel as int,
                false,
            ),
            r is Err ==> *final(self) == spec_ccr_written(*old(self), channel as int, 0) && (
            r matches Err(m) && m@ == "Channel counter did not drain"@),
    {
        if channel == 0 {
            self.regs.ch0.pwm_ccr = write_field(ccr_ccr(), 0);
        } else {
            self.regs.ch1.pwm_ccr = write_field(ccr_ccr(), 0);
        }
        let outcome = poll_field(cnt_samples, tim_cnt_cnt(), 0, POLL_BOUND);
        if !outcome.ready {
            return Err("Channel counter did not drain");
        }
        self.disable_channel(channel);
        Ok(())
    }

    /// Pushes one duty value into the channel's FIFO, unless the FIFO-full
    /// flag is set.
    pub fn push_fifo_data(&mut self, channel: usize, duty_value: u16) -> (r: Result<
        (),
        &'static str,
    >)
        ensures
            channel >= CHANNELS_PER_CONTROLLER ==> (r matches Err(m) && m@
                == "Invalid channel number"@) && *final(self) == *old(self),
            channel < CHANNELS_PER_CONTROLLER && spec_get(
                old(self).spec_channel_regs(channel as int).state,
                spec_state_fifo_full(),
            ) == 1 ==> (r matches Err(m) && m@ == "FIFO full"@) && *final(self) == *old(self),
            channel < CHANNELS_PER_CONTROLLER && spec_get(
                old(self).spec_channel_regs(channel as int).state,
                spec_state_fifo_full(),
            ) != 1 ==> r is Ok && *final(self) == spec_ccr_written(
                *old(self),
                channel as int,
                duty_value as u32,
            ),
    {
        if channel >= CHANNELS_PER_CONTROLLER {
            return Err("Invalid channel number");
        }
        let state = if channel == 0 {
            self.regs.ch0.state
        } else {
            self.regs.ch1.state
        };
        if read_field(state, state_fifo_full()) == 1 {
            return Err("FIFO full");
        }
        if channel == 0 {
            self.regs.ch0.pwm_ccr = write_field(ccr_ccr(), duty_value as u32);
        } else {
            self.regs.ch1.pwm_ccr = write_field(ccr_ccr(), duty_value as u32);
        }
        Ok(())
    }

    /// Services one channel's interrupt flags: on FIFO-empty, refill the
    /// FIFO with the configured duty when the counter sits at zero, then
    /// acknowledge the flags that were set. Fails only when a refill finds
    /// the FIFO already full.
    pub fn handle_channel_interrupt(&mut self, channel: usize) -> (r: Result<(), &'static str>)
        requires
            channel < CHANNELS_PER_CONTROLLER,
            old(self).wf(),
        ensures
            final(self).wf(),
            r is Err <==> spec_refill_blocked(*old(self), channel as int),
            *final(self) == spec_handled_channel(*old(self), channel as int),
    {
        let chr = if channel == 0 {
            self.regs.ch0
        } else {
            self.regs.ch1
        };
        let state = chr.state;
        if read_field(state, state_fifo_empty()) == 1 {
            if read_field(chr.tim_cnt, tim_cnt_cnt()) == 0 {
                let config = if channel == 0 {
                    self.channel0.config
                } else {
                    self.channel1.config
                };
                if let Some(config) = config {
                    proof {
                        lemma_mask_table();
                        crate::bits::lemma_get_bounded(chr.pwm_period, spec_period_ccr());
                    }
                    let period = read_field(chr.pwm_period, period_ccr()) + 1;
                    let duty_cycles = compute_duty_register(
                        period,
                        config.duty_num,
                        config.duty_den,
                    );
                    let duty16: u16 = if duty_cycles > 0xffff {
                        0xffff
                    } else {
                        duty_cycles as u16
                    };
                    self.push_fifo_data(channel, duty16)?;
                }
            }
            if channel == 0 {
                self.regs.ch0.state = write_field(state_fifo_empty(), 1);
            } else {
                self.regs.ch1.state = write_field(state_fifo_empty(), 1);
            }
        }
        if read_field(state, state_ovfif()) == 1 {
            if channel == 0 {
                self.regs.ch0.state = write_field(state_ovfif(), 1);
            } else {
                self.regs.ch1.state = write_field(state_ovfif(), 1);
            }
        }
        if read_field(state, state_chif()) == 1 {
            if channel == 0 {
                self.regs.ch0.state = modify_field(self.regs.ch0.state, state_chif(), 1);
            } else {
                self.regs.ch1.state = modify_field(self.regs.ch1.state, state_chif(), 1);
            }
        }
        Ok(())
    }

    /// Services both channels' interrupt flags in order; a refill failure on
    /// one channel does not keep the other from being serviced.
    pub fn handle_interrupt(&mut self)
        requires
            old(self).wf(),
        ensures
            final(self).wf(),
            *final(self) == spec_handled_channel(spec_handled_channel(*old(self), 0), 1),
    {
        let _ = self.handle_channel_interrupt(0);
        let _ = self.handle_channel_interrupt(1);
    }
}

/// The controller with the enable bit of `channel`'s timer set or cleared
/// and the channel recorded as enabled or disabled; nothing else changes.
pub open spec fn spec_enabled(s: PwmController, channel: int, on: bool) -> PwmController {
    let bit: u32 = if on {
        1
    } else {
        0
    };
    let chr = s.spec_channel_regs(channel);
    let new_chr = ChannelRegs { tim_ctrl: spec_set(chr.tim_ctrl, spec_tim_ctrl_enable(), bit), ..chr };
    let new_state = PwmChannel { config: s.spec_channel(channel).config, enabled: on };
    PwmController {
        channel0: if channel == 0 {
            new_state
        } else {
            s.channel0
        },
        channel1: if channel == 1 {
            new_state
        } else {
            s.channel1
        },
        regs: PwmRegs {
            ch0: if channel == 0 {
                new_chr
            } else {
                s.regs.ch0
            },
            ch1: if channel == 1 {
                new_chr
            } else {
                s.regs.ch1
            },
            ..s.regs
        },
        ..s
    }
}

/// The controller with `channel`'s compare register holding `value` in its
/// compare field and zero elsewhere; nothing else changes.
pub open spec fn spec_ccr_written(s: PwmController, channel: int, value: u32) -> PwmController {
    let chr = s.spec_channel_regs(channel);
    let new_chr = ChannelRegs { pwm_ccr: spec_set(0, spec_ccr_ccr(), value), ..chr };
    PwmController {
        regs: PwmRegs {
            ch0: if channel == 0 {
                new_chr
            } else {
                s.regs.ch0
            },
            ch1: if channel == 1 {
                new_chr
            } else {
                s.regs.ch1
            },
            ..s.regs
        },
        ..s
    }
}

/// Whether servicing `channel` needs a FIFO refill: its FIFO has drained,
/// its counter sits at zero, and a configuration is present.
pub open spec fn spec_needs_refill(s: PwmController, channel: int) -> bool {
    let chr = s.spec_channel_regs(channel);
    &&& spec_get(chr.state, spec_state_fifo_empty()) == 1
    &&& spec_get(chr.tim_cnt, spec_tim_cnt_cnt()) == 0
    &&& s.spec_channel(channel).config is Some
}

/// Whether a needed refill finds the FIFO-full flag set, which fails the
/// service call.
pub open spec fn spec_refill_blocked(s: PwmController, channel: int) -> bool {
    spec_needs_refill(s, channel) && spec_get(
        s.spec_channel_regs(channel).state,
        spec_state_fifo_full(),
    ) == 1
}

/// The duty value a refill pushes: the configured fraction of the period the
/// channel's period register currently holds, saturated to the sixteen-bit
/// compare field.
pub open spec fn spec_refill_duty(s: PwmController, channel: int) -> int {
    let chr = s.spec_channel_regs(channel);
    let c = s.spec_channel(channel).config->Some_0;
    let d = (spec_get(chr.pwm_period, spec_period_ccr()) + 1) * c.duty_num / (c.duty_den as int);
    if d > 0xffff {
        0xffff
    } else {
        d
    }
}

/// The controller after one channel's interrupt service: the refill write
/// when one is needed and possible, then the acknowledge writes for the
/// flags that were set — FIFO-empty and overflow acknowledges replace the
/// whole state register, the channel-flag acknowledge is a read-modify-write.
pub open spec fn spec_handled_channel(s: PwmController, channel: int) -> PwmController {
    let chr = s.spec_channel_regs(channel);
    let st = chr.state;
    if spec_refill_blocked(s, channel) {
        s
    } else {
        let after_push = if spec_needs_refill(s, channel) {
            spec_ccr_written(s, channel, spec_refill_duty(s, channel) as u32)
        } else {
            s
        };
        let st1 = if spec_get(st, spec_state_fifo_empty()) == 1 {
            spec_set(0, spec_state_fifo_empty(), 1)
        } else {
            st
        };
        let st2 = if spec_get(st, spec_state_ovfif()) == 1 {
            spec_set(0, spec_state_ovfif(), 1)
        } else {
            st1
        };
        let st3 = if spec_get(st, spec_state_chif()) == 1 {
            spec_set(st2, spec_state_chif(), 1)
        } else {
            st2
        };
        let chr2 = after_push.spec_channel_regs(channel);
        let new_chr = ChannelRegs { state: st3, ..chr2 };
        PwmController {
            regs: PwmRegs {
                ch0: if channel == 0 {
                    new_chr
                } else {
                    after_push.regs.ch0
                },
                ch1: if channel == 1 {
                    new_chr
                } else {
                    after_push.regs.ch1
                },
                ..after_push.regs
            },
            ..after_push
        }
    }
}

/// A controller as `PwmSystem::new` builds it: no channel configured, the
/// register model zeroed.
pub open spec fn spec_fresh_controller(base: usize) -> PwmController {
    PwmController {
        base,
        channel0: PwmChannel { config: None, enabled: false },
        channel1: PwmChannel { config: None, enabled: false },
        regs: PwmRegs {
            dbctrl: 0,
            dbdly: 0,
            ch0: spec_channel_regs_zero(),
            ch1: spec_channel_regs_zero(),
        },
    }
}

/// The single bit at position `i` of the global-enable register.
pub open spec fn spec_enable_bit(i: int) -> BitField {
    BitField { offset: i as u32, width: 1 }
}

/// Whether a controller takes part in the global enable: at least one of its
/// channels holds a configuration.
pub open spec fn spec_controller_active(c: PwmController) -> bool {
    c.channel0.config is Some || c.channel1.config is Some
}

/// The eight PWM controllers and the model of the shared global-enable
/// register.
#[derive(Debug)]
pub struct PwmSystem {
    pub controllers: Vec<PwmController>,
    pub global_enable_reg: u32,
}

impl PwmSystem {
    /// Builds the eight controllers over their platform-fixed bases, none of
    /// them configured, with the global-enable model cleared.
    pub fn new() -> (s: PwmSystem)
        ensures
            s.controllers@.len() == PWM_CONTROLLERS,
            forall|i: int|
                0 <= i < PWM_CONTROLLERS ==> s.controllers@[i] == spec_fresh_controller(
                    (PWM_CONTROLLER_BASE + i * PWM_CONTROLLER_STRIDE) as usize,
                ),
            s.global_enable_reg == 0,
    {
        let mut controllers: Vec<PwmController> = Vec::new();
        let mut i: usize = 0;
        while i < PWM_CONTROLLERS
            invariant
                i <= PWM_CONTROLLERS,
                controllers@.len() == i,
                forall|j: int|
                    0 <= j < i ==> controllers@[j] == spec_fresh_controller(
                        (PWM_CONTROLLER_BASE + j * PWM_CONTROLLER_STRIDE) as usize,
                    ),
            decreases PWM_CONTROLLERS - i,
        {
            let base = PWM_CONTROLLER_BASE + i * PWM_CONTROLLER_STRIDE;
            controllers.push(PwmController::new(base));
            i = i + 1;
        }
        PwmSystem { controllers, global_enable_reg: 0 }
    }

    /// Recomputes the global-enable mask: bit `i` is set exactly when
    /// controller `i` has a configured channel; the unused upper bits stay
    /// clear. Only the global-enable model changes.
    pub fn global_enable(&mut self)
        requires
            old(self).controllers@.len() == PWM_CONTROLLERS,
        ensures
            final(self).controllers == old(self).controllers,
            forall|i: int|
                0 <= i < PWM_CONTROLLERS ==> spec_get(
                    final(self).global_enable_reg,
                    spec_enable_bit(i),
                ) == (if spec_controller_active(old(self).controllers@[i]) {
                    1u32
                } else {
                    0u32
                }),
            forall|i: int|
                PWM_CONTROLLERS <= i < 32 ==> spec_get(
                    final(self).global_enable_reg,
                    spec_enable_bit(i),
                ) == 0,
    {
        let mut mask: u32 = 0;
        let mut i: usize = 0;
        proof {
            lemma_mask_table();
            assert forall|j: int| 0 <= j < 32 implies spec_get(0u32, spec_enable_bit(j)) == 0 by {
                lemma_get_zero(spec_enable_bit(j));
            }
        }
        while i < PWM_CONTROLLERS
            invariant
                *self == *old(self),
                self.controllers@.len() == PWM_CONTROLLERS,
                i <= PWM_CONTROLLERS,
                forall|j: int|
                    0 <= j < i ==> spec_get(mask, spec_enable_bit(j)) == (if spec_controller_active(
                        self.controllers@[j],
                    ) {
                        1u32
                    } else {
                        0u32
                    }),
                forall|j: int| i <= j < 32 ==> spec_get(mask, spec_enable_bit(j)) == 0,
            decreases PWM_CONTROLLERS - i,
        {
            let ctrl = &self.controllers[i];
            if ctrl.channel0.config.is_some() || ctrl.channel1.config.is_some() {
                let ghost m0 = mask;
                mask = modify_field(mask, BitField { offset: i as u32, width: 1 }, 1);
                proof {
                    lemma_mask_table();
                    lemma_set_then_get(m0, spec_enable_bit(i as int), 1);
                    assert forall|j: int| 0 <= j < 32 && j != i implies spec_get(
                        mask,
                        spec_enable_bit(j),
                    ) == spec_get(m0, spec_enable_bit(j)) by {
                        lemma_set_preserves_disjoint(m0, spec_enable_bit(i as int), spec_enable_bit(j), 1);
                    }
                }
            }
            i = i + 1;
        }
        self.global_enable_reg = mask;
    }

    /// Hands out a copy of controller `index`, or nothing for an index past
    /// the platform's controller count; `set_controller` stores a changed
    /// copy back.
    pub fn controller(&self, index: usize) -> (r: Option<PwmController>)
        requires
            self.controllers@.len() == PWM_CONTROLLERS,
        ensures
            index < PWM_CONTROLLERS ==> r == Some(self.controllers@[index as int]),
            index >= PWM_CONTROLLERS ==> r is None,
    {
        if index < PWM_CONTROLLERS {
            Some(self.controllers[index])
        } else {
            None
        }
    }

    /// Stores a controller back at `index`.
    pub fn set_controller(&mut self, index: usize, c: PwmController)
        requires
            index < PWM_CONTROLLERS,
            old(self).controllers@.len() == PWM_CONTROLLERS,
        ensures
            final(self).controllers@ == old(self).controllers@.update(index as int, c),
            final(self).global_enable_reg == old(self).global_enable_reg,
    {
        self.controllers[index] = c;
    }
}

/// Law: for a fixed period, the computed duty register value is monotonic
/// non-decreasing in the duty fraction.
pub proof fn lemma_duty_monotonic(period: u32, num_a: u32, num_b: u32, den: u32)
    requires
        1 <= den,
        num_a <= num_b,
        num_b <= den,
    ensures
        period * num_a / (den as int) <= period * num_b / (den as int),
{
    vstd::arithmetic::mul::lemma_mul_inequality(num_a as int, num_b as int, period as int);
    vstd::arithmetic::mul::lemma_mul_is_commutative(num_a as int, period as int);
    vstd::arithmetic::mul::lemma_mul_is_commutative(num_b as int, period as int);
    vstd::arithmetic::div_mod::lemma_div_is_ordered(
        period as int * num_a as int,
        period as int * num_b as int,
        den as int,
    );
}

} // verus!
