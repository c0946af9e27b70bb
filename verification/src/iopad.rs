//! I/O-pad multiplexer: per-pad function, drive-strength, pull and delay
//! registers, addressed by their byte offset inside the pad region.
use vstd::prelude::*;
use crate::bits::{BitField, spec_set, modify_field};

verus! {

/// Largest valid byte offset of a pad-function register.
pub const IOPAD_REG0_MAX_OFFSET: usize = 0x24c;

/// Smallest valid byte offset of a pad-delay register.
pub const IOPAD_REG1_MIN_OFFSET: usize = 0x1024;

/// Largest valid byte offset of a pad-delay register.
pub const IOPAD_REG1_MAX_OFFSET: usize = 0x124c;

/// Function-select field of a pad-function register.
pub open spec fn spec_ioreg0_func() -> BitField {
    BitField { offset: 0, width: 3 }
}

#[verifier::when_used_as_spec(spec_ioreg0_func)]
pub fn ioreg0_func() -> (f: BitField)
    ensures
        f == spec_ioreg0_func(),
{
    BitField { offset: 0, width: 3 }
}

/// Drive-strength field of a pad-function register.
pub open spec fn spec_ioreg0_drive() -> BitField {
    BitField { offset: 4, width: 4 }
}

#[verifier::when_used_as_spec(spec_ioreg0_drive)]
pub fn ioreg0_drive() -> (f: BitField)
    ensures
        f == spec_ioreg0_drive(),
{
    BitField { offset: 4, width: 4 }
}

/// Pull-mode field of a pad-function register.
pub open spec fn spec_ioreg0_poll() -> BitField {
    BitField { offset: 8, width: 2 }
}

#[verifier::when_used_as_spec(spec_ioreg0_poll)]
pub fn ioreg0_poll() -> (f: BitField)
    ensures
        f == spec_ioreg0_poll(),
{
    BitField { offset: 8, width: 2 }
}

/// Input-delay field of a pad-delay register.
pub open spec fn spec_ioreg1_input_delay() -> BitField {
    BitField { offset: 0, width: 8 }
}

#[verifier::when_used_as_spec(spec_ioreg1_input_delay)]
pub fn ioreg1_input_delay() -> (f: BitField)
    ensures
        f == spec_ioreg1_input_delay(),
{
    BitField { offset: 0, width: 8 }
}

/// Output-delay field of a pad-delay register.
pub open spec fn spec_ioreg1_output_delay() -> BitField {
    BitField { offset: 8, width: 8 }
}

#[verifier::when_used_as_spec(spec_ioreg1_output_delay)]
pub fn ioreg1_output_delay() -> (f: BitField)
    ensures
        f == spec_ioreg1_output_delay(),
{
    BitField { offset: 8, width: 8 }
}

/// Pull mode of a pad.
#[derive(Clone, Copy, PartialEq, Eq, Structural, Debug)]
pub enum PollMode {
    PollNone,
    PollDown,
    PollUp,
}

impl PollMode {
    /// The value the pull-mode field holds for this mode.
    pub open spec fn spec_code(self) -> u32 {
        match self {
            PollMode::PollNone => 0,
            PollMode::PollDown => 1,
            PollMode::PollUp => 2,
        }
    }

    /// Computes the value the pull-mode field holds for this mode.
    pub fn code(self) -> (r: u32)
        ensures
            r == self.spec_code(),
    {
        match self {
            PollMode::PollNone => 0,
            PollMode::PollDown => 1,
            PollMode::PollUp => 2,
        }
    }
}

/// Typed handle over the pad region; a null base is ruled out by
/// construction, and every register handed out lies inside the region's
/// declared offsets.
#[derive(Clone, Copy, PartialEq, Eq, Structural, Debug)]
pub struct IoPadCtrl {
    pub base: usize,
}

/// One pad-function register: its address and the value last observed or
/// written there.
#[derive(Clone, Copy, PartialEq, Eq, Structural, Debug)]
pub struct IoReg0 {
    pub addr: usize,
    pub value: u32,
}

/// One pad-delay register: its address and the value last observed or
/// written there.
#[derive(Clone, Copy, PartialEq, Eq, Structural, Debug)]
pub struct IoReg1 {
    pub addr: usize,
    pub value: u32,
}

impl IoPadCtrl {
    /// Constructs the handle over a virtual base address.
    pub fn new(base: usize) -> (c: IoPadCtrl)
        requires
            base != 0,
        ensures
            c.base == base,
    {
        IoPadCtrl { base }
    }

    /// Hands out the pad-function register at `offset`. Offsets past the
    /// declared end of the function-register range, or unaligned ones, are
    /// rejected.
    pub fn reg0_by_offset(&self, offset: usize) -> (r: Result<IoReg0, &'static str>)
        requires
            self.base + IOPAD_REG0_MAX_OFFSET <= usize::MAX,
        ensures
            offset > IOPAD_REG0_MAX_OFFSET || offset % 4 != 0 ==> r is Err,
            offset <= IOPAD_REG0_MAX_OFFSET && offset % 4 == 0 ==> r
                == Ok::<IoReg0, &'static str>(IoReg0 { addr: (self.base + offset) as usize, value: 0 }),
    {
        if offset > IOPAD_REG0_MAX_OFFSET || offset % 4 != 0 {
            Err("offset invalid")
        } else {
            Ok(IoReg0 { addr: self.base + offset, value: 0 })
        }
    }

    /// Hands out the pad-delay register at `offset`. Offsets outside the
    /// declared delay-register range, or unaligned ones, are rejected.
    pub fn reg1_by_offset(&self, offset: usize) -> (r: Result<IoReg1, &'static str>)
        requires
            self.base + IOPAD_REG1_MAX_OFFSET <= usize::MAX,
        ensures
            offset < IOPAD_REG1_MIN_OFFSET || offset > IOPAD_REG1_MAX_OFFSET || offset % 4 != 0
                ==> r is Err,
            IOPAD_REG1_MIN_OFFSET <= offset <= IOPAD_REG1_MAX_OFFSET && offset % 4 == 0 ==> r
                == Ok::<IoReg1, &'static str>(IoReg1 { addr: (self.base + offset) as usize, value: 0 }),
    {
        if offset < IOPAD_REG1_MIN_OFFSET || offset > IOPAD_REG1_MAX_OFFSET || offset % 4 != 0 {
            Err("offset invalid")
        } else {
            Ok(IoReg1 { addr: self.base + offset, value: 0 })
        }
    }
}

impl IoReg0 {
    /// Programs the pad function. Functions 0 through 6 are the documented
    /// range; anything else is rejected before any register change.
    pub fn set_func(&mut self, func: u32) -> (r: Result<(), &'static str>)
        ensures
            func >= 7 ==> r is Err && *final(self) == *old(self),
            func < 7 ==> r is Ok
                && final(self).value == spec_set(old(self).value, spec_ioreg0_func(), func)
                && final(self).addr == old(self).addr,
    {
        if func >= 7 {
            Err("invalid func, must range 0-6")
        } else {
            self.value = modify_field(self.value, ioreg0_func(), func);
            Ok(())
        }
    }

    /// Programs the drive strength. Levels 0 through 15 are the documented
    /// range; anything else is rejected before any register change.
    pub fn set_drive(&mut self, drive: u32) -> (r: Result<(), &'static str>)
        ensures
            drive > 15 ==> r is Err && *final(self) == *old(self),
            drive <= 15 ==> r is Ok
                && final(self).value == spec_set(old(self).value, spec_ioreg0_drive(), drive)
                && final(self).addr == old(self).addr,
    {
        if drive > 15 {
            Err("invalid drive mode, must range 0-15")
        } else {
            self.value = modify_field(self.value, ioreg0_drive(), drive);
            Ok(())
        }
    }

    /// Programs the pull mode.
    pub fn set_poll_mode(&mut self, pm: PollMode) -> (r: Result<(), &'static str>)
        ensures
            r is Ok,
            final(self).value == spec_set(old(self).value, spec_ioreg0_poll(), pm.spec_code()),
            final(self).addr == old(self).addr,
    {
        let code = pm.code();
        self.value = modify_field(self.value, ioreg0_poll(), code);
        Ok(())
    }
}

/// The delay-field byte encoded from the two delay-stage counts: the enable
/// bit, the 100 ps stages at bits 1..4 and the 336 ps stages at bits 4..7.
pub open spec fn spec_delay_byte(ps_336: u32, ps_100: u32) -> u32 {
    if 1 <= ps_336 && 1 <= ps_100 {
        1u32 | (((ps_100 - 1) as u32) << 1u32) | (((ps_336 - 1) as u32) << 4u32)
    } else {
        0
    }
}

impl IoReg1 {
    /// Encodes the two delay-stage counts into the delay-field byte. Each
    /// count must lie in the documented range 1 through 8; anything larger is
    /// rejected.
    fn fmt_value(&self, ps_336: u32, ps_100: u32) -> (r: Result<u32, &'static str>)
        requires
            1 <= ps_336,
            1 <= ps_100,
        ensures
            ps_336 > 8 || ps_100 > 8 ==> r is Err,
            ps_336 <= 8 && ps_100 <= 8 ==> r == Ok::<u32, &'static str>(
                spec_delay_byte(ps_336, ps_100),
            ),
    {
        let ps_336_shifted = ps_336 - 1;
        let ps_100_shifted = ps_100 - 1;
        if ps_336_shifted & !0b111 != 0 || ps_100_shifted & !0b111 != 0 {
            proof {
                assert(forall|x: u32| x & !0b111 != 0 <==> x > 7) by (bit_vector);
            }
            return Err("param invalid");
        }
        proof {
            assert(forall|x: u32| x & !0b111 != 0 <==> x > 7) by (bit_vector);
        }
        Ok(1 | (ps_100_shifted << 1) | (ps_336_shifted << 4))
    }

    /// Programs the input-delay field; each delay-stage count must lie in 1
    /// through 8, with the total delay `ps_336 * 336 ps + ps_100 * 100 ps`.
    pub fn set_input_delay(&mut self, ps_336: u32, ps_100: u32) -> (r: Result<(), &'static str>)
        requires
            1 <= ps_336,
            1 <= ps_100,
        ensures
            ps_336 > 8 || ps_100 > 8 ==> r is Err && *final(self) == *old(self),
            ps_336 <= 8 && ps_100 <= 8 ==> r is Ok
                && final(self).value == spec_set(
                old(self).value,
                spec_ioreg1_input_delay(),
                spec_delay_byte(ps_336, ps_100),
            )
                && final(self).addr == old(self).addr,
    {
        let v = match self.fmt_value(ps_336, ps_100) {
            Ok(v) => v,
            Err(e) => {
                return Err(e);
            },
        };
        self.value = modify_field(self.value, ioreg1_input_delay(), v);
        Ok(())
    }

    /// Programs the output-delay field; each delay-stage count must lie in 1
    /// through 8, with the total delay `ps_336 * 336 ps + ps_100 * 100 ps`.
    pub fn set_output_delay(&mut self, ps_336: u32, ps_100: u32) -> (r: Result<(), &'static str>)
        requires
            1 <= ps_336,
            1 <= ps_100,
        ensures
            ps_336 > 8 || ps_100 > 8 ==> r is Err && *final(self) == *old(self),
            ps_336 <= 8 && ps_100 <= 8 ==> r is Ok
                && final(self).value == spec_set(
                old(self).value,
                spec_ioreg1_output_delay(),
                spec_delay_byte(ps_336, ps_100),
            )
                && final(self).addr == old(self).addr,
    {
        let v = match self.fmt_value(ps_336, ps_100) {
            Ok(v) => v,
            Err(e) => {
                return Err(e);
            },
        };
        self.value = modify_field(self.value, ioreg1_output_delay(), v);
        Ok(())
    }
}

} // verus!
