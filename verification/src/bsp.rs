//! Board support for the starter kit: the two LEDs, the user button and
//! the UART header, bound to their pins.

use vstd::prelude::*;

use crate::gpio::{mode, Level, Pin, Speed};

verus! {

/// The starter-kit board: LEDs on PC14 and PC15, the user button on
/// PB12, the UART header on PA2 and PA3.
pub struct Board {
    /// First LED, on PC14.
    pub led1: Pin<2, 14, mode::Output>,
    /// Second LED, on PC15.
    pub led2: Pin<2, 15, mode::Output>,
    /// User button, on PB12.
    pub user_button: Pin<1, 12, mode::Input>,
    /// UART transmit header pin, PA2.
    pub uart_tx: Pin<0, 2, mode::Input>,
    /// UART receive header pin, PA3.
    pub uart_rx: Pin<0, 3, mode::Input>,
}

impl Board {
    /// Claim the board's pins in their conventional roles.
    pub fn new() -> Self {
        let pc14_input = Pin::<2, 14, mode::Input>::new();
        let pc15_input = Pin::<2, 15, mode::Input>::new();
        let pb12_input = Pin::<1, 12, mode::Input>::new();
        let pa2_input = Pin::<0, 2, mode::Input>::new();
        let pa3_input = Pin::<0, 3, mode::Input>::new();
        Board {
            led1: pc14_input.into_push_pull_output(Level::Low, Speed::Low),
            led2: pc15_input.into_push_pull_output(Level::Low, Speed::Low),
            user_button: pb12_input.into_floating_input(),
            uart_tx: pa2_input,
            uart_rx: pa3_input,
        }
    }
}

/// Just the board's two LEDs.
pub struct Leds {
    /// First LED, on PC14.
    pub led1: Pin<2, 14, mode::Output>,
    /// Second LED, on PC15.
    pub led2: Pin<2, 15, mode::Output>,
}

impl Leds {
    /// Claim the two LED pins as outputs.
    pub fn new() -> Self {
        let pc14_input = Pin::<2, 14, mode::Input>::new();
        let pc15_input = Pin::<2, 15, mode::Input>::new();
        Leds {
            led1: pc14_input.into_push_pull_output(Level::Low, Speed::Low),
            led2: pc15_input.into_push_pull_output(Level::Low, Speed::Low),
        }
    }
}

} // verus!
