//! UART configuration: frame formats, baud-rate arithmetic and the
//! per-instance marker types.
//!
//! The byte I/O itself is plain register polling with no coordination
//! problem; it lives in the runtime layer, which consumes the register
//! field values computed here.

use vstd::prelude::*;

use crate::time::Hertz;

verus! {

/// UART error.
#[derive(Debug, Copy, Clone, PartialEq, Eq, Structural)]
pub enum Error {
    /// Framing error.
    Framing,
    /// Noise error.
    Noise,
    /// Receive buffer overrun.
    Overrun,
    /// Parity error.
    Parity,
    /// Buffer full.
    BufferFull,
}

/// Marker trait for pins usable as a UART's transmit line.
pub trait UartTx<T> {

}

/// Marker trait for pins usable as a UART's receive line.
pub trait UartRx<T> {

}

/// Number of data bits in a frame.
#[derive(Debug, Copy, Clone, PartialEq, Eq, Structural)]
pub enum DataBits {
    /// Five data bits.
    Five,
    /// Six data bits.
    Six,
    /// Seven data bits.
    Seven,
    /// Eight data bits.
    Eight,
    /// Nine data bits, carried as eight plus parity.
    Nine,
}

/// Number of stop bits in a frame.
#[derive(Debug, Copy, Clone, PartialEq, Eq, Structural)]
pub enum StopBits {
    /// One stop bit.
    One,
    /// Two stop bits.
    Two,
}

/// Parity mode of a frame.
#[derive(Debug, Copy, Clone, PartialEq, Eq, Structural)]
pub enum Parity {
    /// No parity bit.
    Disabled,
    /// Even parity.
    Even,
    /// Odd parity.
    Odd,
}

/// UART configuration.
#[derive(Debug, Clone, Copy)]
pub struct Config {
    /// Baud rate.
    pub baudrate: Hertz,
    /// Data bits per frame.
    pub data_bits: DataBits,
    /// Stop bits per frame.
    pub stop_bits: StopBits,
    /// Parity mode.
    pub parity: Parity,
    /// Hardware flow control.
    pub hardware_flow_control: bool,
}

impl Default for Config {
    /// 115200 baud, eight data bits, one stop bit, no parity.
    fn default() -> (r: Self)
        ensures
            r.baudrate == Hertz(115200),
            r.data_bits == DataBits::Eight,
            r.stop_bits == StopBits::One,
            r.parity == Parity::Disabled,
            !r.hardware_flow_control,
    {
        Config {
            baudrate: Hertz(115200),
            data_bits: DataBits::Eight,
            stop_bits: StopBits::One,
            parity: Parity::Disabled,
            hardware_flow_control: false,
        }
    }
}

/// The word-length field value for a data-bits setting.
pub open spec fn spec_word_length_bits(data_bits: DataBits) -> u8 {
    match data_bits {
        DataBits::Five => 0u8,
        DataBits::Six => 1u8,
        DataBits::Seven => 2u8,
        DataBits::Eight => 3u8,
        DataBits::Nine => 3u8,
    }
}

/// The frame-format register fields a configuration encodes to: the
/// word-length field, the two-stop-bits flag, the parity enable and the
/// even-parity select.
pub fn uart_frame_encoding(config: &Config) -> (r: (u8, bool, bool, bool))
    ensures
        r.0 == spec_word_length_bits(config.data_bits),
        r.1 == (config.stop_bits == StopBits::Two),
        r.2 == (config.parity != Parity::Disabled),
        r.3 == (config.parity == Parity::Even),
{
    let wls: u8 = match config.data_bits {
        DataBits::Five => 0b00,
        DataBits::Six => 0b01,
        DataBits::Seven => 0b10,
        DataBits::Eight => 0b11,
        DataBits::Nine => 0b11,
    };
    let nsb: bool = match config.stop_bits {
        StopBits::One => false,
        StopBits::Two => true,
    };
    let (pbe, epe): (bool, bool) = match config.parity {
        Parity::Disabled => (false, false),
        Parity::Even => (true, true),
        Parity::Odd => (true, false),
    };
    (wls, nsb, pbe, epe)
}

/// The divider latch value for a baud rate under a bus clock.
pub fn baud_rate_divisor(clock: Hertz, baudrate: Hertz) -> (r: u32)
    requires
        baudrate.0 > 0,
    ensures
        r == clock.0 / baudrate.0,
{
    clock.0 / baudrate.0
}

/// The first UART peripheral.
pub struct Usart0 {
    _private: (),
}

impl Usart0 {
    pub(crate) fn new() -> Self {
        Usart0 { _private: () }
    }
}

/// The second UART peripheral.
pub struct Usart1 {
    _private: (),
}

impl Usart1 {
    pub(crate) fn new() -> Self {
        Usart1 { _private: () }
    }
}

} // verus!
