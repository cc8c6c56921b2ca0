//! Basic time units shared by the clock tree, the timers and the UART
//! configuration.

use vstd::prelude::*;

pub mod bftm;
pub mod clocks;

verus! {

/// Frequency in Hertz.
#[derive(Clone, Copy, Debug, PartialEq, Eq, Structural)]
pub struct Hertz(pub u32);

impl Hertz {
    /// Create a frequency from Hz.
    pub fn hz(hz: u32) -> (r: Self)
        ensures
            r.0 == hz,
    {
        Self(hz)
    }

    /// Create a frequency from kHz.
    pub fn khz(khz: u32) -> (r: Self)
        requires
            khz * 1000 <= u32::MAX,
        ensures
            r.0 == khz * 1000,
    {
        Self(khz * 1_000)
    }

    /// Create a frequency from MHz.
    pub fn mhz(mhz: u32) -> (r: Self)
        requires
            mhz * 1000000 <= u32::MAX,
        ensures
            r.0 == mhz * 1000000,
    {
        Self(mhz * 1_000_000)
    }

    /// Get the frequency in Hz.
    pub fn to_hz(self) -> (r: u32)
        ensures
            r == self.0,
    {
        self.0
    }

    /// Get the frequency in kHz.
    pub fn to_khz(self) -> (r: u32)
        ensures
            r == self.0 / 1000,
    {
        self.0 / 1_000
    }

    /// Get the frequency in MHz.
    pub fn to_mhz(self) -> (r: u32)
        ensures
            r == self.0 / 1000000,
    {
        self.0 / 1_000_000
    }
}

/// Time duration in microseconds.
#[derive(Clone, Copy, Debug, PartialEq, Eq, Structural)]
pub struct Microseconds(pub u32);

impl Microseconds {
    /// Create a duration from microseconds.
    pub fn us(us: u32) -> (r: Self)
        ensures
            r.0 == us,
    {
        Self(us)
    }

    /// Create a duration from milliseconds.
    pub fn ms(ms: u32) -> (r: Self)
        requires
            ms * 1000 <= u32::MAX,
        ensures
            r.0 == ms * 1000,
    {
        Self(ms * 1_000)
    }

    /// Create a duration from seconds.
    pub fn s(s: u32) -> (r: Self)
        requires
            s * 1000000 <= u32::MAX,
        ensures
            r.0 == s * 1000000,
    {
        Self(s * 1_000_000)
    }

    /// Get the duration in microseconds.
    pub fn to_us(self) -> (r: u32)
        ensures
            r == self.0,
    {
        self.0
    }

    /// Get the duration in milliseconds.
    pub fn to_ms(self) -> (r: u32)
        ensures
            r == self.0 / 1000,
    {
        self.0 / 1_000
    }

    /// Get the duration in seconds.
    pub fn to_s(self) -> (r: u32)
        ensures
            r == self.0 / 1000000,
    {
        self.0 / 1_000_000
    }
}

/// Extension trait to create time units from plain integers.
pub trait U32Ext {
    /// The raw integer the unit is built from.
    spec fn raw(self) -> u32;

    /// Create a frequency from Hz.
    fn hz(self) -> (r: Hertz) where Self: Sized
        ensures
            r.0 == self.raw(),
    ;

    /// Create a frequency from kHz.
    fn khz(self) -> (r: Hertz) where Self: Sized
        requires
            self.raw() * 1000 <= u32::MAX,
        ensures
            r.0 == self.raw() * 1000,
    ;

    /// Create a frequency from MHz.
    fn mhz(self) -> (r: Hertz) where Self: Sized
        requires
            self.raw() * 1000000 <= u32::MAX,
        ensures
            r.0 == self.raw() * 1000000,
    ;

    /// Create a duration from microseconds.
    fn us(self) -> (r: Microseconds) where Self: Sized
        ensures
            r.0 == self.raw(),
    ;

    /// Create a duration from milliseconds.
    fn ms(self) -> (r: Microseconds) where Self: Sized
        requires
            self.raw() * 1000 <= u32::MAX,
        ensures
            r.0 == self.raw() * 1000,
    ;

    /// Create a duration from seconds.
    fn s(self) -> (r: Microseconds) where Self: Sized
        requires
            self.raw() * 1000000 <= u32::MAX,
        ensures
            r.0 == self.raw() * 1000000,
    ;
}

impl U32Ext for u32 {
    open spec fn raw(self) -> u32 {
        self
    }

    fn hz(self) -> Hertz {
        Hertz::hz(self)
    }

    fn khz(self) -> Hertz {
        Hertz::khz(self)
    }

    fn mhz(self) -> Hertz {
        Hertz::mhz(self)
    }

    fn us(self) -> Microseconds {
        Microseconds::us(self)
    }

    fn ms(self) -> Microseconds {
        Microseconds::ms(self)
    }

    fn s(self) -> Microseconds {
        Microseconds::s(self)
    }
}

/// Configuration of the whole time subsystem.
#[derive(Debug, Clone, Copy)]
pub struct TimeSystemConfig {
    /// Clock-tree configuration.
    pub clock_config: clocks::ClockConfig,
    /// Gather performance metrics.
    pub enable_monitoring: bool,
    /// Tick frequency of the time driver; 1 MHz gives microsecond
    /// precision.
    pub tick_frequency: u32,
}

impl Default for TimeSystemConfig {
    /// The default clock tree with monitoring on and a 1 MHz tick.
    fn default() -> (r: Self)
        ensures
            r.clock_config.sysclock_hz == 48000000,
            r.clock_config.pll_enabled,
            r.clock_config.pll_mult == 6,
            r.clock_config.clock_monitor,
            r.enable_monitoring,
            r.tick_frequency == 1000000,
    {
        TimeSystemConfig {
            clock_config: Default::default(),
            enable_monitoring: true,
            tick_frequency: 1_000_000,
        }
    }
}

/// Health classification of the time subsystem.
#[derive(Debug, Clone, Copy, PartialEq, Eq, Structural)]
pub enum SystemHealth {
    /// No failures recorded.
    Healthy,
    /// Failures recorded, still running.
    Degraded,
    /// Not running.
    Failed,
}

/// Performance metrics of the time subsystem.
#[derive(Debug, Clone, Copy)]
pub struct TimeSystemMetrics {
    /// The system-clock frequency, or zero if unknown.
    pub clock_frequency_hz: u32,
    /// Clock failures recorded.
    pub clock_failures: u32,
    /// Timer interrupts served.
    pub timer_interrupts: u32,
    /// The overall health classification.
    pub system_health: SystemHealth,
}

/// Initialise the time subsystem: bring up the clock tree, then the timer
/// system behind the time driver.
pub fn init_time_system(ck: &mut clocks::ClockControl, config: TimeSystemConfig) -> (r: Result<
    (),
    clocks::ClockError,
>)
    ensures
        r == clocks::spec_clock_init_result(*old(ck), config.clock_config),
        final(ck).hsi_ready,
        final(ck).failure_count == old(ck).failure_count,
{
    if let Err(e) = clocks::clock_system_init(ck, &config.clock_config) {
        return Err(e);
    }
    match bftm::bftm_system_init() {
        Ok(_) => Ok(()),
        Err(_) => Err(clocks::ClockError::ConfigurationMismatch),
    }
}

/// What the health validation settles on: a recorded failure or a clock
/// outside 1 to 100 MHz is refused.
pub open spec fn spec_validate_time_system(ck: clocks::ClockControl) -> Result<
    (),
    clocks::ClockError,
> {
    match clocks::spec_system_clock_hz(ck) {
        Ok(f) => if ck.failure_count > 0 {
            Err(clocks::ClockError::ClockSourceNotReady)
        } else if f < 1000000 || f > 100000000 {
            Err(clocks::ClockError::FrequencyOutOfRange)
        } else {
            Ok(())
        },
        Err(e) => Err(e),
    }
}

/// Validate the time subsystem's health.
pub fn validate_time_system(ck: &clocks::ClockControl) -> (r: Result<(), clocks::ClockError>)
    ensures
        r == spec_validate_time_system(*ck),
{
    let clock_freq = match clocks::get_system_clock_frequency(ck) {
        Ok(f) => f,
        Err(e) => {
            return Err(e);
        },
    };
    let failures = clocks::get_clock_failure_count(ck);
    if failures > 0 {
        return Err(clocks::ClockError::ClockSourceNotReady);
    }
    if clock_freq < 1_000_000 || clock_freq > 100_000_000 {
        return Err(clocks::ClockError::FrequencyOutOfRange);
    }
    Ok(())
}

/// Gather the time subsystem's performance metrics.
pub fn get_time_system_metrics(ck: &clocks::ClockControl, timer: &bftm::Btfm)
    -> (r: TimeSystemMetrics)
    ensures
        r.clock_frequency_hz == (match clocks::spec_system_clock_hz(*ck) {
            Ok(f) => f,
            Err(_) => 0u32,
        }),
        r.clock_failures == ck.failure_count,
        r.timer_interrupts == timer.total_interrupts,
        r.system_health == (if ck.failure_count == 0 {
            SystemHealth::Healthy
        } else {
            SystemHealth::Degraded
        }),
{
    let clock_freq = match clocks::get_system_clock_frequency(ck) {
        Ok(f) => f,
        Err(_) => 0,
    };
    let clock_failures = clocks::get_clock_failure_count(ck);
    let timer_interrupts = match timer.get_stats() {
        Ok(stats) => stats.total_interrupts,
        Err(_) => 0,
    };
    TimeSystemMetrics {
        clock_frequency_hz: clock_freq,
        clock_failures,
        timer_interrupts,
        system_health: if clock_failures == 0 {
            SystemHealth::Healthy
        } else {
            SystemHealth::Degraded
        },
    }
}

/// The time-system configuration tuned for monitored 48 MHz operation.
pub fn config_enterprise_performance() -> (r: TimeSystemConfig)
    ensures
        r.clock_config.sysclock_hz == 48000000,
        !r.clock_config.hse_enabled,
        r.clock_config.hse_freq is None,
        r.clock_config.pll_enabled,
        r.clock_config.pll_mult == 6,
        r.clock_config.clock_monitor,
        r.clock_config.ahb_divider == 0,
        r.clock_config.apb_divider == 0,
        r.enable_monitoring,
        r.tick_frequency == 1000000,
{
    TimeSystemConfig {
        clock_config: clocks::ClockConfig {
            sysclock_hz: 48_000_000,
            hse_enabled: false,
            hse_freq: None,
            pll_enabled: true,
            pll_mult: 6,
            clock_monitor: true,
            ahb_divider: 0,
            apb_divider: 0,
        },
        enable_monitoring: true,
        tick_frequency: 1_000_000,
    }
}

/// Validate the time subsystem and, if healthy, report its metrics.
pub fn diagnostic_check(ck: &clocks::ClockControl, timer: &bftm::Btfm) -> (r: Result<
    TimeSystemMetrics,
    clocks::ClockError,
>)
    ensures
        r is Ok <==> spec_validate_time_system(*ck) is Ok,
        r is Err ==> r->Err_0 == spec_validate_time_system(*ck)->Err_0,
        r is Ok ==> r->Ok_0.clock_failures == ck.failure_count,
        r is Ok ==> r->Ok_0.timer_interrupts == timer.total_interrupts,
{
    if let Err(e) = validate_time_system(ck) {
        return Err(e);
    }
    Ok(get_time_system_metrics(ck, timer))
}

} // verus!
