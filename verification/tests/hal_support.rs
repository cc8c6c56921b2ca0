//! Tests for the supporting HAL modules: time units, GPIO, external
//! interrupts, clock configuration, UART and timer arithmetic, flash
//! validation and the chip description.

use ht32_hal::exti::{Edge, ExtiChannel};
use ht32_hal::gpio::{alternate_function_field, AnyPin, Level, Pin, Speed};
use ht32_hal::gpio::mode;
use ht32_hal::rcc::{
    calculate_pll_params_ht32, init, pll_output_freq, usb_clock_prescaler, Clocks, Config,
    Peripheral, Rcc,
};
use ht32_hal::time::{Hertz, Microseconds, U32Ext};
use ht32_hal::uart;
use ht32_hal::flash::{Flash, FlashError};
use ht32_hal::timer::{duration_ticks, prescaler_for_frequency, pwm_duty_ticks};

#[test]
fn time_unit_conversions() {
    assert_eq!(Hertz::hz(123).to_hz(), 123);
    assert_eq!(Hertz::khz(8).to_hz(), 8_000);
    assert_eq!(Hertz::mhz(48).to_hz(), 48_000_000);
    assert_eq!(Hertz::mhz(48).to_khz(), 48_000);
    assert_eq!(Hertz::mhz(48).to_mhz(), 48);
    assert_eq!(Microseconds::us(7).to_us(), 7);
    assert_eq!(Microseconds::ms(3).to_us(), 3_000);
    assert_eq!(Microseconds::s(2).to_ms(), 2_000);
    assert_eq!(5u32.khz(), Hertz(5_000));
    assert_eq!(2u32.mhz(), Hertz(2_000_000));
    assert_eq!(9u32.ms(), Microseconds(9_000));
    assert_eq!(1u32.s(), Microseconds(1_000_000));
    assert_eq!(4u32.hz(), Hertz(4));
    assert_eq!(6u32.us(), Microseconds(6));
}

#[test]
fn any_pin_keeps_port_and_number() {
    let pin = AnyPin::new('B', 7);
    assert_eq!(pin.port(), 'B');
    assert_eq!(pin.pin(), 7);

    let typed = Pin::<2, 14, mode::Input>::new();
    let erased = typed.degrade();
    assert_eq!(erased.port(), 'C');
    assert_eq!(erased.pin(), 14);
}

#[test]
fn pin_mode_transitions_compose() {
    let pin = Pin::<0, 5, mode::Input>::new();
    let out = pin.into_push_pull_output(Level::High, Speed::Low);
    let _back = Pin::<0, 5, mode::Output>::new();
    let _ = out;
    let pin2 = Pin::<1, 3, mode::Input>::new();
    let _af = pin2.into_alternate_function::<2>();
}

#[test]
fn alternate_function_field_updates_one_slot() {
    // Selecting function 5 in slot 2 of a register full of ones.
    let r = alternate_function_field(0xFFFF_FFFF, 2, 5);
    assert_eq!(r, 0xFFFF_F5FF);
    // Other slots stay as they were.
    let r2 = alternate_function_field(0x1234_5678, 0, 0xF);
    assert_eq!(r2, 0x1234_567F);
}

#[test]
fn exti_channels_map_pin_numbers() {
    let ch = ExtiChannel::new(11).unwrap();
    assert_eq!(ch.line, 11);
    assert!(ExtiChannel::new(16).is_none());
    assert_eq!(ch.get_edge_config(Edge::Rising), 1);
    assert_eq!(ch.get_edge_config(Edge::Falling), 2);
    assert_eq!(ch.get_edge_config(Edge::RisingFalling), 3);
    ch.enable_interrupt(Edge::Rising);
    ch.disable_interrupt();

    let pin = Pin::<0, 4, mode::Input>::new();
    let routed = pin.enable_interrupt(Edge::Falling).unwrap();
    assert_eq!(routed.line, 4);

    let source = ht32_hal::exti::exti_source_field(0xFFFF_FFFF, 1, 0b10);
    assert_eq!(source, 0xFFFF_FFEF);
}

#[test]
fn pll_search_prefers_exact_usb_frequencies() {
    // 8 MHz in, 48 MHz requested: multiplier 6, no output division.
    let (pfbd, potd) = calculate_pll_params_ht32(8_000_000, 48_000_000);
    assert_eq!(pll_output_freq(8_000_000, pfbd, potd), 48_000_000);

    // 16 MHz crystal, 48 MHz requested.
    let (pfbd, potd) = calculate_pll_params_ht32(16_000_000, 48_000_000);
    assert_eq!(pll_output_freq(16_000_000, pfbd, potd), 48_000_000);

    // Even for a 96 MHz request the search is satisfied by the first
    // USB-compatible frequency it can hit exactly.
    let (pfbd, potd) = calculate_pll_params_ht32(8_000_000, 96_000_000);
    assert_eq!(pll_output_freq(8_000_000, pfbd, potd), 48_000_000);
}

#[test]
fn pll_search_falls_back_to_nearest_valid() {
    // 10 MHz in: no multiplier/divider pair hits a USB frequency
    // exactly; the search settles on the closest output the part can run
    // with the oscillator in bounds.  For a 30 MHz target that is
    // 10 * 12 / 4 = 30 MHz exactly.
    let (pfbd, potd) = calculate_pll_params_ht32(10_000_000, 30_000_000);
    assert_eq!(pll_output_freq(10_000_000, pfbd, potd), 30_000_000);
    let vco = 10_000_000u64 * (pfbd as u64 + 2);
    assert!((120_000_000..=200_000_000).contains(&vco));
}

#[test]
fn usb_prescaler_decision() {
    assert_eq!(usb_clock_prescaler(Hertz(144_000_000)), (3, 48_000_000));
    assert_eq!(usb_clock_prescaler(Hertz(96_000_000)), (2, 48_000_000));
    assert_eq!(usb_clock_prescaler(Hertz(72_000_000)), (1, 48_000_000));
    assert_eq!(usb_clock_prescaler(Hertz(48_000_000)), (0, 48_000_000));
    // An unsupported frequency gets the closest approximation.
    assert_eq!(usb_clock_prescaler(Hertz(60_000_000)), (1, 40_000_000));
    assert_eq!(usb_clock_prescaler(Hertz(8_000_000)), (0, 8_000_000));
}

#[test]
fn clock_tree_from_default_config() {
    let clocks = init(Config::default());
    assert_eq!(clocks.sys_clk(), Hertz(48_000_000));
    assert_eq!(clocks.ahb_clk(), Hertz(48_000_000));
    assert_eq!(clocks.apb_clk(), Hertz(48_000_000));

    let rcc = Rcc::new(clocks);
    assert_eq!(rcc.clocks().sys_clk(), Hertz(48_000_000));
    let _gate = Peripheral::USB;
}

#[test]
fn clock_tree_without_pll_runs_from_the_oscillator() {
    let mut config = Config::default();
    config.sys_clk = Some(Hertz(8_000_000));
    let clocks = init(config);
    assert_eq!(clocks.sys_clk(), Hertz(8_000_000));

    let mut config = Config::default();
    config.use_hse = true;
    config.hse_freq = Some(Hertz(16_000_000));
    config.sys_clk = Some(Hertz(16_000_000));
    let clocks = init(config);
    assert_eq!(clocks.sys_clk(), Hertz(16_000_000));
}

#[test]
fn uart_frame_encoding_matches_the_register_fields() {
    let mut config = uart::Config::default();
    assert_eq!(config.baudrate, Hertz(115_200));
    let (wls, nsb, pbe, epe) = uart::uart_frame_encoding(&config);
    assert_eq!(wls, 0b11);
    assert!(!nsb && !pbe && !epe);

    config.data_bits = uart::DataBits::Seven;
    config.stop_bits = uart::StopBits::Two;
    config.parity = uart::Parity::Even;
    let (wls, nsb, pbe, epe) = uart::uart_frame_encoding(&config);
    assert_eq!(wls, 0b10);
    assert!(nsb && pbe && epe);

    config.data_bits = uart::DataBits::Five;
    config.parity = uart::Parity::Odd;
    let (wls, _nsb, pbe, epe) = uart::uart_frame_encoding(&config);
    assert_eq!(wls, 0b00);
    assert!(pbe && !epe);

    assert_eq!(
        uart::baud_rate_divisor(Hertz(48_000_000), Hertz(115_200)),
        416
    );
}

#[test]
fn timer_arithmetic() {
    // One millisecond at 48 MHz.
    assert_eq!(duration_ticks(1_000, 48_000_000), 48_000);
    // Divide 48 MHz down to 1 MHz counting.
    assert_eq!(prescaler_for_frequency(Hertz(48_000_000), Hertz(1_000_000)), 47);
    // Half duty against a reload of 1000.
    assert_eq!(pwm_duty_ticks(500, 1000, 1000), 500);
    assert_eq!(pwm_duty_ticks(0, 1000, 1000), 0);
    assert_eq!(pwm_duty_ticks(1000, 1000, 1000), 1000);
}

#[test]
fn flash_capacity_and_validation() {
    let flash = Flash::new();
    let capacity = flash.capacity() as u32;
    assert_eq!(capacity, 128 * 1024);

    assert!(flash.check_erase_range(0, 2048, capacity).is_ok());
    assert_eq!(
        flash.check_erase_range(512, 2048, capacity),
        Err(FlashError::UnalignedAddress)
    );
    assert_eq!(
        flash.check_erase_range(0, capacity + 1024, capacity),
        Err(FlashError::AddressOutOfRange)
    );

    assert!(flash.check_write_range(0, 16, capacity).is_ok());
    assert_eq!(
        flash.check_write_range(2, 16, capacity),
        Err(FlashError::UnalignedAddress)
    );
    assert_eq!(
        flash.check_write_range(0, 15, capacity),
        Err(FlashError::UnalignedAddress)
    );
    assert_eq!(
        flash.check_write_range(capacity - 4, 8, capacity),
        Err(FlashError::AddressOutOfRange)
    );

    assert_eq!(
        ht32_hal::flash::word_from_le_bytes(0x78, 0x56, 0x34, 0x12),
        0x1234_5678
    );
}

#[test]
fn chip_description() {
    let memory = ht32_hal::chip::memory();
    assert_eq!(memory.flash_kb, 128);
    assert_eq!(memory.ram_kb, 16);
    assert_eq!(memory.ram_origin, 0x2000_0000);
    let timers = ht32_hal::chip::timers();
    assert_eq!(timers.timer_count, 6);
    assert!(!timers.has_advanced_timers);
    let gpio = ht32_hal::chip::gpio();
    assert_eq!(gpio.port_count, 3);
    assert_eq!(gpio.pins_per_port, 16);
    let peripherals = ht32_hal::chip::peripherals();
    assert!(peripherals.has_usb);
    assert_eq!(peripherals.adc_channels, 12);
    let config = ht32_hal::chip::config();
    assert_eq!(config.memory.flash_kb, 128);
}

#[test]
fn system_init_claims_every_peripheral() {
    ht32_hal::fmt::init();
    ht32_hal::fmt::println("bring-up");
    let mut peripherals = ht32_hal::init(ht32_hal::Config::default());
    let _pa0 = peripherals.gpioa.pa0();
    let _pb1 = peripherals.gpiob.pb1();
    let _pc14 = peripherals.gpioc.pc14();
    let _pd15 = peripherals.gpiod.pd15();
    assert_eq!(peripherals.flash.capacity(), 128 * 1024);

    let board = ht32_hal::bsp::Board::new();
    let _ = board.led1;
    let leds = ht32_hal::bsp::Leds::new();
    let _ = leds.led2;

    let _binding: ht32_hal::interrupt::Binding<ht32_hal::interrupt::UsbInterrupt, ()> =
        ht32_hal::interrupt::Binding::new();
}
