//! Hardware-abstraction layer for the HT32F523xx Cortex-M microcontroller
//! family, centred on a fully specified model of its USB full-speed
//! device controller.
//!
//! The drivers in this crate operate on explicit models of the peripheral
//! register files.  The thin runtime layer that mirrors those models onto the
//! memory-mapped hardware (volatile accesses, interrupt vectors, async
//! executors) lives outside the verified core.

use vstd::prelude::*;

pub mod bsp;
pub mod chip;
pub mod exti;
pub mod flash;
pub mod fmt;
pub mod gpio;
pub mod interrupt;
pub mod rcc;
pub mod time;
pub mod timer;
pub mod uart;
pub mod usb;

verus! {

/// System configuration.
pub struct Config {
    /// Clock configuration.
    pub rcc: rcc::Config,
}

impl Default for Config {
    /// The default clock tree.
    fn default() -> (r: Self)
        ensures
            r.rcc.sys_clk == Some(time::Hertz(48000000)),
            !r.rcc.use_hse,
    {
        Config { rcc: Default::default() }
    }
}

/// The chip's peripherals, claimed once at start-up.
pub struct Peripherals {
    /// GPIO port A.
    pub gpioa: gpio::PortA,
    /// GPIO port B.
    pub gpiob: gpio::PortB,
    /// GPIO port C.
    pub gpioc: gpio::PortC,
    /// GPIO port D.
    pub gpiod: gpio::PortD,
    /// The first UART.
    pub usart0: uart::Usart0,
    /// The second UART.
    pub usart1: uart::Usart1,
    /// The first general-purpose timer.
    pub timer0: timer::Timer0,
    /// The second general-purpose timer.
    pub timer1: timer::Timer1,
    /// The USB device controller.
    pub usb: usb::Usb,
    /// The flash memory controller.
    pub flash: flash::Flash,
}

/// Freeze the clock configuration and claim the peripherals.
///
/// The clock tree is computed here; programming it, together with the
/// interrupt controller set-up, belongs to the runtime layer.
pub fn init(config: Config) -> (r: Peripherals)
    requires
        (config.rcc.use_hse && config.rcc.hse_freq is Some) ==> 0 < (config.rcc.hse_freq->0).0
            <= 200000000,
        config.rcc.sys_clk is Some ==> (config.rcc.sys_clk->0).0 < u32::MAX,
{
    let _clocks = rcc::init(config.rcc);
    Peripherals {
        gpioa: gpio::PortA::new(),
        gpiob: gpio::PortB::new(),
        gpioc: gpio::PortC::new(),
        gpiod: gpio::PortD::new(),
        usart0: uart::Usart0::new(),
        usart1: uart::Usart1::new(),
        timer0: timer::Timer0::new(),
        timer1: timer::Timer1::new(),
        usb: usb::Usb::new(),
        flash: flash::Flash::new(),
    }
}

} // verus!
