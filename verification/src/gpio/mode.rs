//! Type-state markers for the configuration a GPIO pin is in.

use vstd::prelude::*;

verus! {

/// Floating or pulled digital input.
pub struct Input;

/// Push-pull digital output.
pub struct Output;

/// Analog mode.
pub struct Analog;

/// One of the pin's alternate functions, selected by number.
pub struct AlternateFunction<const N: u8>;

/// Alternate function 0.
pub type AF0 = AlternateFunction<0>;

/// Alternate function 1.
pub type AF1 = AlternateFunction<1>;

/// Alternate function 2.
pub type AF2 = AlternateFunction<2>;

/// Alternate function 3.
pub type AF3 = AlternateFunction<3>;

/// Alternate function 4.
pub type AF4 = AlternateFunction<4>;

/// Alternate function 5.
pub type AF5 = AlternateFunction<5>;

/// Alternate function 6.
pub type AF6 = AlternateFunction<6>;

/// Alternate function 7.
pub type AF7 = AlternateFunction<7>;

} // verus!
