//! GPIO pins and ports.
//!
//! Pins are type-state values: the port and pin number are const generics
//! (0 to 3 standing for ports A to D) and the mode is a marker type.  The
//! functions here carry out the mode bookkeeping and the pure register-field
//! arithmetic; driving the electrical configuration registers themselves is
//! the runtime layer's job.

use vstd::prelude::*;

pub mod mode;

use crate::exti::{Edge, ExtiChannel};
use core::marker::PhantomData;

verus! {

/// GPIO error type.
#[derive(Clone, Copy, Debug, PartialEq, Eq, Structural)]
pub struct GpioError;

/// Logic level of a pin.
#[derive(Clone, Copy, Debug, PartialEq, Eq, Structural)]
pub enum Level {
    /// Driven or read low.
    Low,
    /// Driven or read high.
    High,
}

/// Pull resistor configuration.
#[derive(Clone, Copy, Debug, PartialEq, Eq, Structural)]
pub enum Pull {
    /// No pull resistor.
    Floating,
    /// Pull-up resistor.
    Up,
    /// Pull-down resistor.
    Down,
}

/// Output slew-rate class.
#[derive(Clone, Copy, Debug, PartialEq, Eq, Structural)]
pub enum Speed {
    /// Lowest slew rate.
    Low,
    /// Medium slew rate.
    Medium,
    /// High slew rate.
    High,
    /// Highest slew rate.
    VeryHigh,
}

/// A single GPIO pin on a known port, in a known mode.
pub struct Pin<const PORT: u8, const PIN: u8, MODE> {
    _mode: PhantomData<MODE>,
}

/// A type-erased GPIO pin, identified at run time by port letter and pin
/// number; lets pins of different ports live in one collection.
pub struct AnyPin {
    /// The port letter, 'A' to 'D'.
    pub port: char,
    /// The pin number, 0 to 15.
    pub pin: u8,
}

impl AnyPin {
    /// Build a type-erased pin from a port letter and a pin number.
    pub fn new(port: char, pin: u8) -> (r: AnyPin)
        ensures
            r.port == port,
            r.pin == pin,
    {
        AnyPin { port, pin }
    }

    /// The port letter.
    pub fn port(&self) -> (r: char)
        ensures
            r == self.port,
    {
        self.port
    }

    /// The pin number.
    pub fn pin(&self) -> (r: u8)
        ensures
            r == self.pin,
    {
        self.pin
    }
}

/// The letter of a port index (0 to 3 give 'A' to 'D').
pub open spec fn spec_port_letter(port: u8) -> char {
    if port == 0 {
        'A'
    } else if port == 1 {
        'B'
    } else if port == 2 {
        'C'
    } else {
        'D'
    }
}

impl<const PORT: u8, const PIN: u8, MODE> Pin<PORT, PIN, MODE> {
    /// Claim the pin, in input mode.
    pub fn new() -> Pin<PORT, PIN, mode::Input> {
        Pin { _mode: PhantomData }
    }

    /// Erase the pin's type, keeping port and number as run-time values.
    ///
    /// Only ports A to D exist on this family.
    pub fn degrade(self) -> (r: AnyPin)
        requires
            PORT < 4,
        ensures
            r.port == spec_port_letter(PORT),
            r.pin == PIN,
    {
        let letter: char = if PORT == 0 {
            'A'
        } else if PORT == 1 {
            'B'
        } else if PORT == 2 {
            'C'
        } else {
            'D'
        };
        AnyPin::new(letter, PIN)
    }

    /// Reconfigure the pin as a push-pull output at the given initial level.
    pub fn into_push_pull_output(self, level: Level, speed: Speed) -> Pin<PORT, PIN, mode::Output> {
        self.into_push_pull_output_with_config(level, speed, Pull::Floating)
    }

    /// Reconfigure the pin as a push-pull output with an explicit pull
    /// setting.
    pub fn into_push_pull_output_with_config(self, _level: Level, _speed: Speed, _pull: Pull)
        -> Pin<PORT, PIN, mode::Output> {
        Pin { _mode: PhantomData }
    }

    /// Reconfigure the pin as a floating input.
    pub fn into_floating_input(self) -> Pin<PORT, PIN, mode::Input> {
        self.into_input_with_pull(Pull::Floating)
    }

    /// Reconfigure the pin as an input with an explicit pull setting.
    pub fn into_input_with_pull(self, _pull: Pull) -> Pin<PORT, PIN, mode::Input> {
        Pin { _mode: PhantomData }
    }

    /// Hand the pin to one of its alternate functions.
    pub fn into_alternate_function<const AF: u8>(self) -> Pin<PORT, PIN, mode::AlternateFunction<AF>> {
        Pin { _mode: PhantomData }
    }
}

impl<const PORT: u8, const PIN: u8> Pin<PORT, PIN, mode::Input> {
    /// Route this pin to its external-interrupt line and hand back the
    /// channel, or nothing for pin numbers without a line.
    pub fn enable_interrupt(&self, _edge: Edge) -> (r: Option<ExtiChannel>)
        ensures
            PIN <= 15 ==> (r is Some && r->0.line == PIN),
            PIN > 15 ==> r is None,
    {
        if PIN <= 15 {
            ExtiChannel::new(PIN)
        } else {
            None
        }
    }
}

/// The alternate-function field of an AFIO configuration register after
/// selecting function `af` for the pin in the given 4-bit slot.
pub fn alternate_function_field(reg: u32, slot: u8, af: u8) -> (r: u32)
    requires
        slot < 8,
        af < 16,
    ensures
        r == (reg & !(0xFu32 << (4 * slot as u32))) | ((af as u32) << (4 * slot as u32)),
{
    (reg & !(0xFu32 << (4 * slot as u32))) | ((af as u32) << (4 * slot as u32))
}

/// Port A, holding pins PA0 to PA15.
pub struct PortA {
    _private: (),
}

/// Port B, holding pins PB0 to PB15.
pub struct PortB {
    _private: (),
}

/// Port C, holding pins PC0 to PC15.
pub struct PortC {
    _private: (),
}

/// Port D, holding pins PD0 to PD15.
pub struct PortD {
    _private: (),
}

impl PortA {
    pub(crate) fn new() -> Self {
        PortA { _private: () }
    }

    /// Claim pin PA0.
    pub fn pa0(&mut self) -> PA0 {
        Pin { _mode: PhantomData }
    }

    /// Claim pin PA1.
    pub fn pa1(&mut self) -> PA1 {
        Pin { _mode: PhantomData }
    }

    /// Claim pin PA2.
    pub fn pa2(&mut self) -> PA2 {
        Pin { _mode: PhantomData }
    }

    /// Claim pin PA3.
    pub fn pa3(&mut self) -> PA3 {
        Pin { _mode: PhantomData }
    }

    /// Claim pin PA4.
    pub fn pa4(&mut self) -> PA4 {
        Pin { _mode: PhantomData }
    }

    /// Claim pin PA5.
    pub fn pa5(&mut self) -> PA5 {
        Pin { _mode: PhantomData }
    }

    /// Claim pin PA6.
    pub fn pa6(&mut self) -> PA6 {
        Pin { _mode: PhantomData }
    }

    /// Claim pin PA7.
    pub fn pa7(&mut self) -> PA7 {
        Pin { _mode: PhantomData }
    }

    /// Claim pin PA8.
    pub fn pa8(&mut self) -> PA8 {
        Pin { _mode: PhantomData }
    }

    /// Claim pin PA9.
    pub fn pa9(&mut self) -> PA9 {
        Pin { _mode: PhantomData }
    }

    /// Claim pin PA10.
    pub fn pa10(&mut self) -> PA10 {
        Pin { _mode: PhantomData }
    }

    /// Claim pin PA11.
    pub fn pa11(&mut self) -> PA11 {
        Pin { _mode: PhantomData }
    }

    /// Claim pin PA12.
    pub fn pa12(&mut self) -> PA12 {
        Pin { _mode: PhantomData }
    }

    /// Claim pin PA13.
    pub fn pa13(&mut self) -> PA13 {
        Pin { _mode: PhantomData }
    }

    /// Claim pin PA14.
    pub fn pa14(&mut self) -> PA14 {
        Pin { _mode: PhantomData }
    }

    /// Claim pin PA15.
    pub fn pa15(&mut self) -> PA15 {
        Pin { _mode: PhantomData }
    }
}

impl PortB {
    pub(crate) fn new() -> Self {
        PortB { _private: () }
    }

    /// Claim pin PB0.
    pub fn pb0(&mut self) -> PB0 {
        Pin { _mode: PhantomData }
    }

    /// Claim pin PB1.
    pub fn pb1(&mut self) -> PB1 {
        Pin { _mode: PhantomData }
    }

    /// Claim pin PB2.
    pub fn pb2(&mut self) -> PB2 {
        Pin { _mode: PhantomData }
    }

    /// Claim pin PB3.
    pub fn pb3(&mut self) -> PB3 {
        Pin { _mode: PhantomData }
    }

    /// Claim pin PB4.
    pub fn pb4(&mut self) -> PB4 {
        Pin { _mode: PhantomData }
    }

    /// Claim pin PB5.
    pub fn pb5(&mut self) -> PB5 {
        Pin { _mode: PhantomData }
    }

    /// Claim pin PB6.
    pub fn pb6(&mut self) -> PB6 {
        Pin { _mode: PhantomData }
    }

    /// Claim pin PB7.
    pub fn pb7(&mut self) -> PB7 {
        Pin { _mode: PhantomData }
    }

    /// Claim pin PB8.
    pub fn pb8(&mut self) -> PB8 {
        Pin { _mode: PhantomData }
    }

    /// Claim pin PB9.
    pub fn pb9(&mut self) -> PB9 {
        Pin { _mode: PhantomData }
    }

    /// Claim pin PB10.
    pub fn pb10(&mut self) -> PB10 {
        Pin { _mode: PhantomData }
    }

    /// Claim pin PB11.
    pub fn pb11(&mut self) -> PB11 {
        Pin { _mode: PhantomData }
    }

    /// Claim pin PB12.
    pub fn pb12(&mut self) -> PB12 {
        Pin { _mode: PhantomData }
    }

    /// Claim pin PB13.
    pub fn pb13(&mut self) -> PB13 {
        Pin { _mode: PhantomData }
    }

    /// Claim pin PB14.
    pub fn pb14(&mut self) -> PB14 {
        Pin { _mode: PhantomData }
    }

    /// Claim pin PB15.
    pub fn pb15(&mut self) -> PB15 {
        Pin { _mode: PhantomData }
    }
}

impl PortC {
    pub(crate) fn new() -> Self {
        PortC { _private: () }
    }

    /// Claim pin PC0.
    pub fn pc0(&mut self) -> PC0 {
        Pin { _mode: PhantomData }
    }

    /// Claim pin PC1.
    pub fn pc1(&mut self) -> PC1 {
        Pin { _mode: PhantomData }
    }

    /// Claim pin PC2.
    pub fn pc2(&mut self) -> PC2 {
        Pin { _mode: PhantomData }
    }

    /// Claim pin PC3.
    pub fn pc3(&mut self) -> PC3 {
        Pin { _mode: PhantomData }
    }

    /// Claim pin PC4.
    pub fn pc4(&mut self) -> PC4 {
        Pin { _mode: PhantomData }
    }

    /// Claim pin PC5.
    pub fn pc5(&mut self) -> PC5 {
        Pin { _mode: PhantomData }
    }

    /// Claim pin PC6.
    pub fn pc6(&mut self) -> PC6 {
        Pin { _mode: PhantomData }
    }

    /// Claim pin PC7.
    pub fn pc7(&mut self) -> PC7 {
        Pin { _mode: PhantomData }
    }

    /// Claim pin PC8.
    pub fn pc8(&mut self) -> PC8 {
        Pin { _mode: PhantomData }
    }

    /// Claim pin PC9.
    pub fn pc9(&mut self) -> PC9 {
        Pin { _mode: PhantomData }
    }

    /// Claim pin PC10.
    pub fn pc10(&mut self) -> PC10 {
        Pin { _mode: PhantomData }
    }

    /// Claim pin PC11.
    pub fn pc11(&mut self) -> PC11 {
        Pin { _mode: PhantomData }
    }

    /// Claim pin PC12.
    pub fn pc12(&mut self) -> PC12 {
        Pin { _mode: PhantomData }
    }

    /// Claim pin PC13.
    pub fn pc13(&mut self) -> PC13 {
        Pin { _mode: PhantomData }
    }

    /// Claim pin PC14.
    pub fn pc14(&mut self) -> PC14 {
        Pin { _mode: PhantomData }
    }

    /// Claim pin PC15.
    pub fn pc15(&mut self) -> PC15 {
        Pin { _mode: PhantomData }
    }
}

impl PortD {
    pub(crate) fn new() -> Self {
        PortD { _private: () }
    }

    /// Claim pin PD0.
    pub fn pd0(&mut self) -> PD0 {
        Pin { _mode: PhantomData }
    }

    /// Claim pin PD1.
    pub fn pd1(&mut self) -> PD1 {
        Pin { _mode: PhantomData }
    }

    /// Claim pin PD2.
    pub fn pd2(&mut self) -> PD2 {
        Pin { _mode: PhantomData }
    }

    /// Claim pin PD3.
    pub fn pd3(&mut self) -> PD3 {
        Pin { _mode: PhantomData }
    }

    /// Claim pin PD4.
    pub fn pd4(&mut self) -> PD4 {
        Pin { _mode: PhantomData }
    }

    /// Claim pin PD5.
    pub fn pd5(&mut self) -> PD5 {
        Pin { _mode: PhantomData }
    }

    /// Claim pin PD6.
    pub fn pd6(&mut self) -> PD6 {
        Pin { _mode: PhantomData }
    }

    /// Claim pin PD7.
    pub fn pd7(&mut self) -> PD7 {
        Pin { _mode: PhantomData }
    }

    /// Claim pin PD8.
    pub fn pd8(&mut self) -> PD8 {
        Pin { _mode: PhantomData }
    }

    /// Claim pin PD9.
    pub fn pd9(&mut self) -> PD9 {
        Pin { _mode: PhantomData }
    }

    /// Claim pin PD10.
    pub fn pd10(&mut self) -> PD10 {
        Pin { _mode: PhantomData }
    }

    /// Claim pin PD11.
    pub fn pd11(&mut self) -> PD11 {
        Pin { _mode: PhantomData }
    }

    /// Claim pin PD12.
    pub fn pd12(&mut self) -> PD12 {
        Pin { _mode: PhantomData }
    }

    /// Claim pin PD13.
    pub fn pd13(&mut self) -> PD13 {
        Pin { _mode: PhantomData }
    }

    /// Claim pin PD14.
    pub fn pd14(&mut self) -> PD14 {
        Pin { _mode: PhantomData }
    }

    /// Claim pin PD15.
    pub fn pd15(&mut self) -> PD15 {
        Pin { _mode: PhantomData }
    }
}

/// Extension trait for splitting a port peripheral into its pins.
pub trait GpioExt {
    /// The pins the port splits into.
    type Parts;

    /// Split the port into its pins.
    fn split(self) -> Self::Parts;
}

/// Pin PA0 in input mode.
pub type PA0 = Pin<0, 0, mode::Input>;
/// Pin PA1 in input mode.
pub type PA1 = Pin<0, 1, mode::Input>;
/// Pin PA2 in input mode.
pub type PA2 = Pin<0, 2, mode::Input>;
/// Pin PA3 in input mode.
pub type PA3 = Pin<0, 3, mode::Input>;
/// Pin PA4 in input mode.
pub type PA4 = Pin<0, 4, mode::Input>;
/// Pin PA5 in input mode.
pub type PA5 = Pin<0, 5, mode::Input>;
/// Pin PA6 in input mode.
pub type PA6 = Pin<0, 6, mode::Input>;
/// Pin PA7 in input mode.
pub type PA7 = Pin<0, 7, mode::Input>;
/// Pin PA8 in input mode.
pub type PA8 = Pin<0, 8, mode::Input>;
/// Pin PA9 in input mode.
pub type PA9 = Pin<0, 9, mode::Input>;
/// Pin PA10 in input mode.
pub type PA10 = Pin<0, 10, mode::Input>;
/// Pin PA11 in input mode.
pub type PA11 = Pin<0, 11, mode::Input>;
/// Pin PA12 in input mode.
pub type PA12 = Pin<0, 12, mode::Input>;
/// Pin PA13 in input mode.
pub type PA13 = Pin<0, 13, mode::Input>;
/// Pin PA14 in input mode.
pub type PA14 = Pin<0, 14, mode::Input>;
/// Pin PA15 in input mode.
pub type PA15 = Pin<0, 15, mode::Input>;

/// Pin PB0 in input mode.
pub type PB0 = Pin<1, 0, mode::Input>;
/// Pin PB1 in input mode.
pub type PB1 = Pin<1, 1, mode::Input>;
/// Pin PB2 in input mode.
pub type PB2 = Pin<1, 2, mode::Input>;
/// Pin PB3 in input mode.
pub type PB3 = Pin<1, 3, mode::Input>;
/// Pin PB4 in input mode.
pub type PB4 = Pin<1, 4, mode::Input>;
/// Pin PB5 in input mode.
pub type PB5 = Pin<1, 5, mode::Input>;
/// Pin PB6 in input mode.
pub type PB6 = Pin<1, 6, mode::Input>;
/// Pin PB7 in input mode.
pub type PB7 = Pin<1, 7, mode::Input>;
/// Pin PB8 in input mode.
pub type PB8 = Pin<1, 8, mode::Input>;
/// Pin PB9 in input mode.
pub type PB9 = Pin<1, 9, mode::Input>;
/// Pin PB10 in input mode.
pub type PB10 = Pin<1, 10, mode::Input>;
/// Pin PB11 in input mode.
pub type PB11 = Pin<1, 11, mode::Input>;
/// Pin PB12 in input mode.
pub type PB12 = Pin<1, 12, mode::Input>;
/// Pin PB13 in input mode.
pub type PB13 = Pin<1, 13, mode::Input>;
/// Pin PB14 in input mode.
pub type PB14 = Pin<1, 14, mode::Input>;
/// Pin PB15 in input mode.
pub type PB15 = Pin<1, 15, mode::Input>;

/// Pin PC0 in input mode.
pub type PC0 = Pin<2, 0, mode::Input>;
/// Pin PC1 in input mode.
pub type PC1 = Pin<2, 1, mode::Input>;
/// Pin PC2 in input mode.
pub type PC2 = Pin<2, 2, mode::Input>;
/// Pin PC3 in input mode.
pub type PC3 = Pin<2, 3, mode::Input>;
/// Pin PC4 in input mode.
pub type PC4 = Pin<2, 4, mode::Input>;
/// Pin PC5 in input mode.
pub type PC5 = Pin<2, 5, mode::Input>;
/// Pin PC6 in input mode.
pub type PC6 = Pin<2, 6, mode::Input>;
/// Pin PC7 in input mode.
pub type PC7 = Pin<2, 7, mode::Input>;
/// Pin PC8 in input mode.
pub type PC8 = Pin<2, 8, mode::Input>;
/// Pin PC9 in input mode.
pub type PC9 = Pin<2, 9, mode::Input>;
/// Pin PC10 in input mode.
pub type PC10 = Pin<2, 10, mode::Input>;
/// Pin PC11 in input mode.
pub type PC11 = Pin<2, 11, mode::Input>;
/// Pin PC12 in input mode.
pub type PC12 = Pin<2, 12, mode::Input>;
/// Pin PC13 in input mode.
pub type PC13 = Pin<2, 13, mode::Input>;
/// Pin PC14 in input mode.
pub type PC14 = Pin<2, 14, mode::Input>;
/// Pin PC15 in input mode.
pub type PC15 = Pin<2, 15, mode::Input>;

/// Pin PD0 in input mode.
pub type PD0 = Pin<3, 0, mode::Input>;
/// Pin PD1 in input mode.
pub type PD1 = Pin<3, 1, mode::Input>;
/// Pin PD2 in input mode.
pub type PD2 = Pin<3, 2, mode::Input>;
/// Pin PD3 in input mode.
pub type PD3 = Pin<3, 3, mode::Input>;
/// Pin PD4 in input mode.
pub type PD4 = Pin<3, 4, mode::Input>;
/// Pin PD5 in input mode.
pub type PD5 = Pin<3, 5, mode::Input>;
/// Pin PD6 in input mode.
pub type PD6 = Pin<3, 6, mode::Input>;
/// Pin PD7 in input mode.
pub type PD7 = Pin<3, 7, mode::Input>;
/// Pin PD8 in input mode.
pub type PD8 = Pin<3, 8, mode::Input>;
/// Pin PD9 in input mode.
pub type PD9 = Pin<3, 9, mode::Input>;
/// Pin PD10 in input mode.
pub type PD10 = Pin<3, 10, mode::Input>;
/// Pin PD11 in input mode.
pub type PD11 = Pin<3, 11, mode::Input>;
/// Pin PD12 in input mode.
pub type PD12 = Pin<3, 12, mode::Input>;
/// Pin PD13 in input mode.
pub type PD13 = Pin<3, 13, mode::Input>;
/// Pin PD14 in input mode.
pub type PD14 = Pin<3, 14, mode::Input>;
/// Pin PD15 in input mode.
pub type PD15 = Pin<3, 15, mode::Input>;

} // verus!
