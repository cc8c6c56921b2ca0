//! Chip-specific configuration: memory sizes, timer and GPIO counts and
//! peripheral availability of the HT32F52352 variant.

use vstd::prelude::*;

verus! {

/// Memory configuration of the chip.
pub struct Memory {
    /// Flash size in kilobytes.
    pub flash_kb: u32,
    /// RAM size in kilobytes.
    pub ram_kb: u32,
    /// Where the flash is mapped.
    pub flash_origin: u32,
    /// Where the RAM is mapped.
    pub ram_origin: u32,
}

/// Timer configuration of the chip.
pub struct TimerConfig {
    /// How many timers the chip offers.
    pub timer_count: u8,
    /// Whether advanced-control timers are present.
    pub has_advanced_timers: bool,
}

/// GPIO configuration of the chip.
pub struct GpioConfig {
    /// How many ports the chip offers.
    pub port_count: u8,
    /// Pins per port.
    pub pins_per_port: u8,
}

/// Peripheral availability of the chip.
pub struct Peripherals {
    /// UART instances.
    pub uart_count: u8,
    /// SPI instances.
    pub spi_count: u8,
    /// I2C instances.
    pub i2c_count: u8,
    /// ADC channels.
    pub adc_channels: u8,
    /// Whether the USB device controller is present.
    pub has_usb: bool,
}

/// The complete chip configuration.
pub struct ChipConfig {
    /// Memory sizes and origins.
    pub memory: Memory,
    /// Timer complement.
    pub timers: TimerConfig,
    /// GPIO complement.
    pub gpio: GpioConfig,
    /// Peripheral complement.
    pub peripherals: Peripherals,
}

/// The memory configuration of this variant: 128 KiB of flash, 16 KiB of
/// RAM.
pub fn memory() -> (r: Memory)
    ensures
        r.flash_kb == 128,
        r.ram_kb == 16,
        r.flash_origin == 0,
        r.ram_origin == 0x20000000,
{
    Memory { flash_kb: 128, ram_kb: 16, flash_origin: 0x0000_0000, ram_origin: 0x2000_0000 }
}

/// The timer complement of this variant.
pub fn timers() -> (r: TimerConfig)
    ensures
        r.timer_count == 6,
        !r.has_advanced_timers,
{
    TimerConfig { timer_count: 6, has_advanced_timers: false }
}

/// The GPIO complement of this variant.
pub fn gpio() -> (r: GpioConfig)
    ensures
        r.port_count == 3,
        r.pins_per_port == 16,
{
    GpioConfig { port_count: 3, pins_per_port: 16 }
}

/// The peripheral complement of this variant.
pub fn peripherals() -> (r: Peripherals)
    ensures
        r.uart_count == 2,
        r.spi_count == 2,
        r.i2c_count == 2,
        r.adc_channels == 12,
        r.has_usb,
{
    Peripherals { uart_count: 2, spi_count: 2, i2c_count: 2, adc_channels: 12, has_usb: true }
}

/// The complete configuration of this variant.
pub fn config() -> (r: ChipConfig)
    ensures
        r.memory.flash_kb == 128,
        r.memory.ram_kb == 16,
        r.timers.timer_count == 6,
        r.gpio.port_count == 3,
        r.peripherals.has_usb,
{
    ChipConfig { memory: memory(), timers: timers(), gpio: gpio(), peripherals: peripherals() }
}

} // verus!
