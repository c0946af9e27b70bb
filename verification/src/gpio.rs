//! GPIO block: a sixteen-pin bank whose data and direction registers are
//! driven pin-mask by pin-mask.
use vstd::prelude::*;

verus! {

/// Physical base address of the GPIO bank.
pub const GPIO_BASE_ADDR: usize = 0x2803_5000;

/// Number of pins in the bank.
pub const GPIO_PINS: u32 = 16;

/// A set of pins of the bank, one bit per pin.
#[derive(Clone, Copy, PartialEq, Eq, Structural, Debug)]
pub struct GpioPins(pub u16);

impl GpioPins {
    /// The empty pin set.
    pub fn empty() -> (r: GpioPins)
        ensures
            r.0 == 0,
    {
        GpioPins(0)
    }

    /// The set holding exactly pin `i`.
    pub fn pin(i: u32) -> (r: GpioPins)
        requires
            i < GPIO_PINS,
        ensures
            r.0 == 1u16 << i,
    {
        GpioPins(1u16 << i)
    }

    /// Every 16-bit value names a valid set of pins, so the raw bits are
    /// taken as they are.
    pub fn from_bits_truncate(bits: u16) -> (r: GpioPins)
        ensures
            r.0 == bits,
    {
        GpioPins(bits)
    }

    /// The raw bit mask of this pin set.
    pub fn bits(self) -> (r: u16)
        ensures
            r == self.0,
    {
        self.0
    }
}

/// Model of the GPIO register block: the pin-data register at offset 0x0 and
/// the pin-direction register at offset 0x4, each 16 bits wide.
#[derive(Clone, Copy, PartialEq, Eq, Structural, Debug)]
pub struct PhitiumGpio {
    pub data: GpioPins,
    pub dir: GpioPins,
}

impl PhitiumGpio {
    /// A register block model with every register zero.
    pub fn new() -> (r: PhitiumGpio)
        ensures
            r == (PhitiumGpio { data: GpioPins(0), dir: GpioPins(0) }),
    {
        PhitiumGpio { data: GpioPins(0), dir: GpioPins(0) }
    }

    /// Sets (`dir == true`) or clears the direction bits of the pins in
    /// `pin`; every other pin's direction and all pin data are unchanged.
    pub fn set_pin_dir(&mut self, pin: GpioPins, dir: bool)
        ensures
            dir ==> final(self).dir.0 == old(self).dir.0 | pin.0,
            !dir ==> final(self).dir.0 == old(self).dir.0 & !pin.0,
            final(self).data == old(self).data,
    {
        let mut status = self.dir.bits();
        let pb = pin.bits();
        if dir {
            status |= pb;
        } else {
            status &= !pb;
        }
        self.dir = GpioPins::from_bits_truncate(status);
    }

    /// Sets (`data == true`) or clears the data bits of the pins in `pin`;
    /// every other pin's data and all pin directions are unchanged.
    pub fn set_pin_data(&mut self, pin: GpioPins, data: bool)
        ensures
            data ==> final(self).data.0 == old(self).data.0 | pin.0,
            !data ==> final(self).data.0 == old(self).data.0 & !pin.0,
            final(self).dir == old(self).dir,
    {
        let mut status = self.data.bits();
        let pb = pin.bits();
        if data {
            status |= pb;
        } else {
            status &= !pb;
        }
        self.data = GpioPins::from_bits_truncate(status);
    }
}

/// GPIO driver handle: the bank's base address plus the register model the
/// pin operations act on.
#[derive(Clone, Copy, PartialEq, Eq, Structural, Debug)]
pub struct PhitiumGpioDrv {
    pub base: usize,
    pub gpio: PhitiumGpio,
}

impl PhitiumGpioDrv {
    /// Constructs the driver over a base address.
    pub fn new(base: usize) -> (r: PhitiumGpioDrv)
        requires
            base != 0,
        ensures
            r.base == base,
            r.gpio == (PhitiumGpio { data: GpioPins(0), dir: GpioPins(0) }),
    {
        PhitiumGpioDrv { base, gpio: PhitiumGpio::new() }
    }

    /// Sets or clears the direction bits of the pins in `pin`.
    pub fn set_pin_dir(&mut self, pin: GpioPins, dir: bool)
        ensures
            dir ==> final(self).gpio.dir.0 == old(self).gpio.dir.0 | pin.0,
            !dir ==> final(self).gpio.dir.0 == old(self).gpio.dir.0 & !pin.0,
            final(self).gpio.data == old(self).gpio.data,
            final(self).base == old(self).base,
    {
        self.gpio.set_pin_dir(pin, dir);
    }

    /// Sets or clears the data bits of the pins in `pin`.
    pub fn set_pin_data(&mut self, pin: GpioPins, data: bool)
        ensures
            data ==> final(self).gpio.data.0 == old(self).gpio.data.0 | pin.0,
            !data ==> final(self).gpio.data.0 == old(self).gpio.data.0 & !pin.0,
            final(self).gpio.dir == old(self).gpio.dir,
            final(self).base == old(self).base,
    {
        self.gpio.set_pin_data(pin, data);
    }
}

} // verus!
