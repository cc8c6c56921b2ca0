//! Tests for the clock tree, the basic-function timers and the time
//! system built on them.

use ht32_hal::time::bftm::{
    calc_64bit_timestamp, BftmConfig, BftmError, Btfm, BFTM_HALF_CYCLE, BFTM_MAX_COUNT,
};
use ht32_hal::time::clocks::{
    clock_system_init, config_enterprise_performance, config_low_power, diagnostic_check,
    get_bus_clock_frequency, get_clock_failure_count, get_clock_system_summary,
    get_system_clock_frequency, handle_clock_failure, reset_clock_failure_count, ClockConfig,
    ClockControl, ClockError,
};
use ht32_hal::time::{
    init_time_system, validate_time_system, SystemHealth, TimeSystemConfig,
};

#[test]
fn test_bftm_constants() {
    assert_eq!(BFTM_MAX_COUNT, 0xFFFF_FFFF);
    assert_eq!(BFTM_HALF_CYCLE, 0x8000_0000);
    // These values enable 64-bit timestamp extension
}

#[test]
fn test_timestamp_calculation() {
    let period = 1000u32;
    let counter1 = 0x0000_1234u32;
    let counter2 = 0x0000_5678u32;

    // Normal case without overflow
    let timestamp = calc_64bit_timestamp(counter2, period, counter1);

    // Should be period-based with counter included
    let expected = ((period as u64) << 32) + (counter2 as u64);
    assert_eq!(timestamp, expected);
}

#[test]
fn bftm_test_enterprise_config() {
    let config = BftmConfig::embassy_time_driver();
    assert_eq!(config.tick_frequency_hz, 1_000_000);
    assert_eq!(config.compare_value, BFTM_HALF_CYCLE);
    assert!(config.interrupt_enabled);
    assert_eq!(config.interrupt_priority, 0);
}

#[test]
fn test_rtc_config() {
    let config = BftmConfig::wake_up_driver();
    assert_eq!(config.tick_frequency_hz, 1_000_000);
    assert_eq!(config.compare_value, BFTM_MAX_COUNT);
    assert!(config.interrupt_enabled);
}

#[test]
fn test_clock_config_creation() {
    let config = ClockConfig::default();
    assert_eq!(config.sysclock_hz, 48_000_000);
    assert_eq!(config.pll_mult, 6);
    assert!(config.clock_monitor);
    assert!(!config.hse_enabled);
}

#[test]
fn clocks_test_enterprise_config() {
    let config = config_enterprise_performance();
    assert_eq!(config.sysclock_hz, 48_000_000);
    assert!(config.hse_enabled);
    assert_eq!(config.hse_freq, Some(16_000_000));
    assert!(config.clock_monitor);
}

#[test]
fn test_low_power_config() {
    let config = config_low_power();
    assert_eq!(config.sysclock_hz, 8_000_000);
    assert!(!config.pll_enabled); // No PLL for power savings
    assert!(config.clock_monitor); // Still have monitoring
}

#[test]
fn test_clock_failure_counting() {
    let mut ck = ClockControl::new();
    reset_clock_failure_count(&mut ck);
    assert_eq!(get_clock_failure_count(&ck), 0);

    ck.failure_count += 1;
    assert_eq!(get_clock_failure_count(&ck), 1);

    reset_clock_failure_count(&mut ck);
    assert_eq!(get_clock_failure_count(&ck), 0);
}

#[test]
fn clock_init_default_selects_pll() {
    let mut ck = ClockControl::new();
    let config = ClockConfig::default();
    assert!(clock_system_init(&mut ck, &config).is_ok());
    assert_eq!(ck.current_source, 2);
    assert!(ck.pll_enabled);
    assert!(ck.pll_ready);
    assert_eq!(ck.pfbd, 5);
    assert!(ck.monitor_enabled);
    assert_eq!(get_system_clock_frequency(&ck), Ok(48_000_000));
    assert_eq!(get_bus_clock_frequency(&ck), Ok(48_000_000));
}

#[test]
fn clock_init_low_power_is_refused() {
    // Neither the PLL nor the crystal is selected, and the bare internal
    // oscillator is not a selectable target of the switch sequence.
    let mut ck = ClockControl::new();
    let config = config_low_power();
    assert_eq!(
        clock_system_init(&mut ck, &config),
        Err(ClockError::InvalidClockSource)
    );
}

#[test]
fn clock_init_rejects_out_of_range_multiplier() {
    let mut ck = ClockControl::new();
    let mut config = ClockConfig::default();
    config.pll_mult = 40;
    assert_eq!(
        clock_system_init(&mut ck, &config),
        Err(ClockError::ClockSourceNotReady)
    );
}

#[test]
fn clock_init_rejects_excess_frequency() {
    let mut ck = ClockControl::new();
    let mut config = ClockConfig::default();
    config.sysclock_hz = 200_000_000;
    assert_eq!(
        clock_system_init(&mut ck, &config),
        Err(ClockError::FrequencyOutOfRange)
    );
}

#[test]
fn clock_init_rejects_bad_dividers() {
    let mut ck = ClockControl::new();
    let mut config = ClockConfig::default();
    config.apb_divider = 9;
    assert_eq!(
        clock_system_init(&mut ck, &config),
        Err(ClockError::InvalidBusDivider)
    );
}

#[test]
fn clock_failure_falls_back_to_hsi() {
    let mut ck = ClockControl::new();
    let config = ClockConfig::default();
    assert!(clock_system_init(&mut ck, &config).is_ok());
    ck.failure_flag = true;
    handle_clock_failure(&mut ck);
    assert_eq!(ck.current_source, 0);
    assert!(!ck.pll_enabled);
    assert!(!ck.monitor_enabled);
    assert_eq!(ck.failure_count, 1);
    assert!(!ck.failure_flag);
}

#[test]
fn clock_summary_reports_the_source() {
    let ck = ClockControl::new();
    let summary = get_clock_system_summary(&ck);
    assert_eq!(summary.configured_frequency, 8_000_000);
    assert_eq!(summary.actual_frequency, Ok(8_000_000));
    assert_eq!(summary.source, "HSI");
    assert_eq!(summary.failure_count, 0);
    assert!(diagnostic_check(&ck).is_ok());
}

#[test]
fn time_system_init_and_validation() {
    let mut ck = ClockControl::new();
    let config = TimeSystemConfig::default();
    assert!(init_time_system(&mut ck, config).is_ok());
    assert!(validate_time_system(&ck).is_ok());

    let timer = Btfm::new();
    let metrics = ht32_hal::time::get_time_system_metrics(&ck, &timer);
    assert_eq!(metrics.clock_frequency_hz, 48_000_000);
    assert_eq!(metrics.clock_failures, 0);
    assert_eq!(metrics.timer_interrupts, 0);
    assert_eq!(metrics.system_health, SystemHealth::Healthy);

    let checked = ht32_hal::time::diagnostic_check(&ck, &timer).unwrap();
    assert_eq!(checked.clock_frequency_hz, 48_000_000);
}

#[test]
fn time_system_flags_failures_as_degraded() {
    let mut ck = ClockControl::new();
    let config = TimeSystemConfig::default();
    assert!(init_time_system(&mut ck, config).is_ok());
    ck.failure_count = 2;
    assert_eq!(
        validate_time_system(&ck),
        Err(ClockError::ClockSourceNotReady)
    );
    let timer = Btfm::new();
    let metrics = ht32_hal::time::get_time_system_metrics(&ck, &timer);
    assert_eq!(metrics.system_health, SystemHealth::Degraded);
}

#[test]
fn timestamp_wrap_bumps_the_period() {
    // The counter wrapped between the two observations.
    let t = calc_64bit_timestamp(0x0000_0010, 7, 0xFFFF_FF00);
    assert_eq!(t, (8u64 << 32) + 0x10);
}

#[test]
fn timestamp_half_cycle_crossing_flips_bit_31_on_odd_periods() {
    // Crossing from the first half into the second half with an odd
    // period count flips bit 31 of the counter contribution.
    let current = 0x8000_0001u32;
    let last = 0x7FFF_FFFFu32;
    let t = calc_64bit_timestamp(current, 1, last);
    let expected = (1u64 << 32) + ((current as u64) ^ (1u64 << 31));
    assert_eq!(t, expected);
}

#[test]
fn bftm_init_and_alarm_distance() {
    let mut timer = Btfm::new();
    assert!(timer.init(Some(BftmConfig::embassy_time_driver())).is_ok());
    assert!(timer.regs.counter_enabled);
    assert_eq!(timer.regs.compare, BFTM_HALF_CYCLE);

    // The counter sits at zero: a target three ticks out is acceptable,
    // anything closer is not.
    assert!(timer.can_set_alarm_at(3));
    assert!(!timer.can_set_alarm_at(2));

    // A compare value on top of the counter is refused.
    assert!(timer.set_compare_value(0).is_err());
    assert!(timer.set_compare_value(1).is_err());
    assert!(timer.set_compare_value(100).is_ok());

    assert!(timer.write_compare_value(100).is_ok());
    assert_eq!(timer.get_compare_value(), Ok(100));
}

#[test]
fn bftm_rejects_unsafe_configurations() {
    let mut timer = Btfm::new();

    let mut config = BftmConfig::default();
    config.tick_frequency_hz = 0;
    assert_eq!(timer.init(Some(config)), Err(BftmError::InvalidTargetFrequency));

    let mut config = BftmConfig::default();
    config.interrupt_priority = 16;
    assert_eq!(timer.init(Some(config)), Err(BftmError::InvalidPriority));

    let mut config = BftmConfig::default();
    config.compare_value = 10;
    assert_eq!(timer.init(Some(config)), Err(BftmError::UnsafeConfiguration));
}

#[test]
fn bftm_interrupt_accounting() {
    let mut timer = Btfm::new();
    assert!(timer.init(None).is_ok());
    timer.regs.match_flag = true;
    assert_eq!(timer.is_match_pending(), Ok(true));
    assert!(timer.acknowledge_interrupt().is_ok());
    assert_eq!(timer.is_match_pending(), Ok(false));
    let stats = timer.get_stats().unwrap();
    assert_eq!(stats.total_interrupts, 1);
}
