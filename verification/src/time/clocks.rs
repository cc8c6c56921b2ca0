//! Clock-tree management: oscillator start-up, PLL configuration, clock
//! switching and hardware fault monitoring.
//!
//! The clock control unit is modelled by [`ClockControl`]: the oscillator
//! ready bits, the selected system-clock source, the PLL feedback divider
//! and the monitoring state as plain values.  The functions here make every
//! configuration decision against that model; the runtime layer mirrors the
//! decisions onto the memory-mapped unit and does the actual waiting for
//! oscillators to lock.

use vstd::prelude::*;

verus! {

/// Comprehensive clock configuration.
#[derive(Debug, Clone, Copy)]
pub struct ClockConfig {
    /// Target system clock frequency.
    pub sysclock_hz: u32,
    /// Enable the external crystal (HSE) if available.
    pub hse_enabled: bool,
    /// HSE frequency in Hz (16 MHz typical).
    pub hse_freq: Option<u32>,
    /// Enable PLL multiplication.
    pub pll_enabled: bool,
    /// PLL multiplier, 2 to 16.
    pub pll_mult: u32,
    /// Enable hardware clock monitoring and fault detection.
    pub clock_monitor: bool,
    /// AHB divider exponent (0 divides by 1, 1 by 2, and so on).
    pub ahb_divider: u8,
    /// APB divider exponent.
    pub apb_divider: u8,
}

impl Default for ClockConfig {
    /// 48 MHz from the internal oscillator through the PLL, with
    /// monitoring on.
    fn default() -> (r: Self)
        ensures
            r.sysclock_hz == 48000000,
            !r.hse_enabled,
            r.hse_freq is None,
            r.pll_enabled,
            r.pll_mult == 6,
            r.clock_monitor,
            r.ahb_divider == 0,
            r.apb_divider == 0,
    {
        ClockConfig {
            sysclock_hz: 48_000_000,
            hse_enabled: false,
            hse_freq: None,
            pll_enabled: true,
            pll_mult: 6,
            clock_monitor: true,
            ahb_divider: 0,
            apb_divider: 0,
        }
    }
}

/// High-performance clock configuration: 48 MHz from a 16 MHz crystal.
pub fn config_enterprise_performance() -> (r: ClockConfig)
    ensures
        r.sysclock_hz == 48000000,
        r.hse_enabled,
        r.hse_freq == Some(16000000u32),
        r.pll_enabled,
        r.pll_mult == 3,
        r.clock_monitor,
        r.ahb_divider == 0,
        r.apb_divider == 0,
{
    ClockConfig {
        sysclock_hz: 48_000_000,
        hse_enabled: true,
        hse_freq: Some(16_000_000),
        pll_enabled: true,
        pll_mult: 3,
        clock_monitor: true,
        ahb_divider: 0,
        apb_divider: 0,
    }
}

/// Low-power clock configuration: the bare 8 MHz internal oscillator.
pub fn config_low_power() -> (r: ClockConfig)
    ensures
        r.sysclock_hz == 8000000,
        !r.hse_enabled,
        r.hse_freq is None,
        !r.pll_enabled,
        r.pll_mult == 1,
        r.clock_monitor,
        r.ahb_divider == 0,
        r.apb_divider == 0,
{
    ClockConfig {
        sysclock_hz: 8_000_000,
        hse_enabled: false,
        hse_freq: None,
        pll_enabled: false,
        pll_mult: 1,
        clock_monitor: true,
        ahb_divider: 0,
        apb_divider: 0,
    }
}

/// Errors of the clock subsystem.
#[derive(Debug, Clone, Copy, PartialEq, Eq, Structural)]
pub enum ClockError {
    /// An oscillator or the PLL did not come up in time.
    ClockStartupTimeout,
    /// The selected clock source is not ready.
    ClockSourceNotReady,
    /// The switch to the selected source did not complete.
    ClockSwitchTimeout,
    /// The frequency exceeds what the hardware allows.
    FrequencyOutOfRange,
    /// A bus divider setting is out of range.
    InvalidBusDivider,
    /// The configuration did not verify after the switch.
    ConfigurationMismatch,
    /// The current clock source is unknown.
    UnknownClockSource,
    /// The requested clock source selection is invalid.
    InvalidClockSource,
}

/// Model of the clock control unit: oscillator ready bits, the selected
/// system-clock source (0 internal, 1 external, 2 PLL), the PLL feedback
/// divider field, the monitoring state and the fault counter.
pub struct ClockControl {
    /// Internal oscillator ready.
    pub hsi_ready: bool,
    /// External crystal ready.
    pub hse_ready: bool,
    /// PLL locked.
    pub pll_ready: bool,
    /// PLL enabled.
    pub pll_enabled: bool,
    /// Selected system-clock source: 0 internal, 1 external, 2 PLL.
    pub current_source: u8,
    /// PLL feedback divider field; the multiplier is one more.
    pub pfbd: u8,
    /// Clock monitoring enabled.
    pub monitor_enabled: bool,
    /// Clock-failure interrupt enabled.
    pub monitor_interrupt: bool,
    /// Clock-failure flag raised by the monitor.
    pub failure_flag: bool,
    /// Failures recorded since power-on.
    pub failure_count: u32,
}

impl ClockControl {
    /// The unit in its power-on state: running from the internal
    /// oscillator, nothing else up.
    pub fn new() -> (r: ClockControl)
        ensures
            r.hsi_ready,
            !r.hse_ready,
            !r.pll_ready,
            !r.pll_enabled,
            r.current_source == 0,
            r.pfbd == 0,
            !r.monitor_enabled,
            !r.monitor_interrupt,
            !r.failure_flag,
            r.failure_count == 0,
    {
        ClockControl {
            hsi_ready: true,
            hse_ready: false,
            pll_ready: false,
            pll_enabled: false,
            current_source: 0,
            pfbd: 0,
            monitor_enabled: false,
            monitor_interrupt: false,
            failure_flag: false,
            failure_count: 0,
        }
    }
}

/// The clock-failure count recorded so far.
pub fn get_clock_failure_count(ck: &ClockControl) -> (r: u32)
    ensures
        r == ck.failure_count,
{
    ck.failure_count
}

/// Reset the clock-failure counter.
pub fn reset_clock_failure_count(ck: &mut ClockControl)
    ensures
        final(ck).failure_count == 0,
        final(ck).hsi_ready == old(ck).hsi_ready,
        final(ck).hse_ready == old(ck).hse_ready,
        final(ck).pll_ready == old(ck).pll_ready,
        final(ck).pll_enabled == old(ck).pll_enabled,
        final(ck).current_source == old(ck).current_source,
        final(ck).pfbd == old(ck).pfbd,
        final(ck).monitor_enabled == old(ck).monitor_enabled,
        final(ck).monitor_interrupt == old(ck).monitor_interrupt,
        final(ck).failure_flag == old(ck).failure_flag,
{
    ck.failure_count = 0;
}

/// What a clock-system initialisation settles on for a given configuration
/// and pre-state: which source is selected and whether any validation step
/// refuses.
///
/// The PLL is disabled while configuring, so selecting it with a
/// multiplier outside 2 to 16 leaves it unlocked; selecting the crystal
/// without giving its frequency leaves it unstarted unless it was already
/// running; and running from the bare internal oscillator is not a
/// selectable target of this sequence.
pub open spec fn spec_clock_init_result(pre: ClockControl, config: ClockConfig) -> Result<
    (),
    ClockError,
> {
    if !config.pll_enabled && !config.hse_enabled {
        Err(ClockError::InvalidClockSource)
    } else if config.pll_enabled && !(2 <= config.pll_mult <= 16) {
        Err(ClockError::ClockSourceNotReady)
    } else if !config.pll_enabled && config.hse_enabled && config.hse_freq is None
        && !pre.hse_ready {
        Err(ClockError::ClockSourceNotReady)
    } else if config.sysclock_hz > 144000000 {
        Err(ClockError::FrequencyOutOfRange)
    } else if config.ahb_divider > 15 || config.apb_divider > 7 {
        Err(ClockError::InvalidBusDivider)
    } else {
        Ok(())
    }
}

/// Initialise the clock system: start the oscillators the configuration
/// asks for, configure and lock the PLL, enable monitoring, switch to the
/// target source and verify the result.
pub fn clock_system_init(ck: &mut ClockControl, config: &ClockConfig) -> (r: Result<
    (),
    ClockError,
>)
    ensures
        r == spec_clock_init_result(*old(ck), *config),
        final(ck).hsi_ready,
        final(ck).failure_count == old(ck).failure_count,
        final(ck).failure_flag == old(ck).failure_flag,
        r is Ok ==> {
            &&& final(ck).current_source == (if config.pll_enabled {
                2u8
            } else {
                1u8
            })
            &&& (config.pll_enabled ==> final(ck).pll_enabled && final(ck).pll_ready
                && final(ck).pfbd == (config.pll_mult - 1) as u8)
            &&& (config.clock_monitor ==> final(ck).monitor_enabled
                && final(ck).monitor_interrupt)
        },
{
    ck.pll_enabled = false;
    ck.pll_ready = false;
    ck.hsi_ready = true;
    if config.hse_enabled {
        if config.hse_freq.is_some() {
            ck.hse_ready = true;
        }
    }
    if config.pll_enabled && config.pll_mult >= 2 && config.pll_mult <= 16 {
        ck.pfbd = (config.pll_mult - 1) as u8;
        ck.pll_enabled = true;
        ck.pll_ready = true;
    }
    if config.clock_monitor {
        ck.monitor_interrupt = true;
        ck.monitor_enabled = true;
    }
    let target_source: u8 = if config.pll_enabled {
        2
    } else if config.hse_enabled {
        1
    } else {
        0
    };
    if target_source == 0 {
        return Err(ClockError::InvalidClockSource);
    }
    let ready_flag = if target_source == 1 {
        ck.hse_ready
    } else {
        ck.pll_ready
    };
    if !ready_flag {
        return Err(ClockError::ClockSourceNotReady);
    }
    ck.current_source = target_source;
    if config.sysclock_hz > 144_000_000 {
        return Err(ClockError::FrequencyOutOfRange);
    }
    if config.ahb_divider > 15 || config.apb_divider > 7 {
        return Err(ClockError::InvalidBusDivider);
    }
    Ok(())
}

/// The system-clock frequency the unit is producing: 8 MHz from the
/// internal oscillator, 16 MHz from the crystal, or the internal
/// oscillator multiplied up by the PLL.
pub open spec fn spec_system_clock_hz(ck: ClockControl) -> Result<u32, ClockError> {
    if ck.current_source == 0 {
        Ok(8000000u32)
    } else if ck.current_source == 1 {
        Ok(16000000u32)
    } else if ck.current_source == 2 {
        Ok((8000000 * (ck.pfbd + 1)) as u32)
    } else {
        Err(ClockError::UnknownClockSource)
    }
}

/// Read the current system-clock frequency off the model.
pub fn get_system_clock_frequency(ck: &ClockControl) -> (r: Result<u32, ClockError>)
    ensures
        r == spec_system_clock_hz(*ck),
{
    if ck.current_source == 0 {
        Ok(8_000_000)
    } else if ck.current_source == 1 {
        Ok(16_000_000)
    } else if ck.current_source == 2 {
        Ok(8_000_000 * (ck.pfbd as u32 + 1))
    } else {
        Err(ClockError::UnknownClockSource)
    }
}

/// The bus clocks run 1:1 with the system clock on this family.
pub fn get_bus_clock_frequency(ck: &ClockControl) -> (r: Result<u32, ClockError>)
    ensures
        r == spec_system_clock_hz(*ck),
{
    get_system_clock_frequency(ck)
}

/// Diagnostic summary of the clock system.
pub struct ClockSystemSummary {
    /// The frequency the system believes it is configured for.
    pub configured_frequency: u32,
    /// The frequency the unit reports, or why it cannot.
    pub actual_frequency: Result<u32, ClockError>,
    /// A short name for the current source.
    pub source: &'static str,
    /// Failures recorded so far.
    pub failure_count: u32,
    /// The AHB and APB divider settings.
    pub bus_settings: (u8, u8),
}

/// Collect a clock-system summary off the model.
pub fn get_clock_system_summary(ck: &ClockControl) -> (r: ClockSystemSummary)
    ensures
        r.actual_frequency == spec_system_clock_hz(*ck),
        r.configured_frequency == (match spec_system_clock_hz(*ck) {
            Ok(f) => f,
            Err(_) => 0u32,
        }),
        r.failure_count == ck.failure_count,
        r.bus_settings == (0u8, 0u8),
{
    let actual_freq = get_system_clock_frequency(ck);
    let freq: u32 = match actual_freq {
        Ok(f) => f,
        Err(_) => 0,
    };
    let source: &'static str = if freq == 8000000 {
        "HSI"
    } else if freq == 16000000 {
        "HSE"
    } else if freq > 48000000 {
        "PLL"
    } else {
        "HSI/PLL"
    };
    ClockSystemSummary {
        configured_frequency: freq,
        actual_frequency: actual_freq,
        source,
        failure_count: get_clock_failure_count(ck),
        bus_settings: (0, 0),
    }
}

/// Quick sanity check of the clock system.
pub fn diagnostic_check(ck: &ClockControl) -> (r: Result<(), ClockError>)
    ensures
        r == (match spec_system_clock_hz(*ck) {
            Ok(f) => if f > 144000000 {
                Err(ClockError::FrequencyOutOfRange)
            } else if f == 0 {
                Err(ClockError::UnknownClockSource)
            } else {
                Ok(())
            },
            Err(e) => Err(e),
        }),
{
    let current_freq = match get_system_clock_frequency(ck) {
        Ok(f) => f,
        Err(e) => {
            return Err(e);
        },
    };
    if current_freq > 144_000_000 {
        return Err(ClockError::FrequencyOutOfRange);
    }
    if current_freq == 0 {
        return Err(ClockError::UnknownClockSource);
    }
    Ok(())
}

/// The clock-failure handler, called from the non-maskable-interrupt
/// vector: on a genuine failure it clears the flag, disables monitoring to
/// stop the interrupt repeating, records the event and falls back to the
/// internal oscillator with the PLL off.
pub fn handle_clock_failure(ck: &mut ClockControl)
    requires
        old(ck).failure_count < u32::MAX,
    ensures
        old(ck).failure_flag ==> {
            &&& !final(ck).failure_flag
            &&& !final(ck).monitor_enabled
            &&& final(ck).failure_count == old(ck).failure_count + 1
            &&& final(ck).current_source == 0
            &&& !final(ck).pll_enabled
            &&& final(ck).hsi_ready == old(ck).hsi_ready
            &&& final(ck).hse_ready == old(ck).hse_ready
            &&& final(ck).pll_ready == old(ck).pll_ready
            &&& final(ck).pfbd == old(ck).pfbd
            &&& final(ck).monitor_interrupt == old(ck).monitor_interrupt
        },
        !old(ck).failure_flag ==> *final(ck) == *old(ck),
{
    if ck.failure_flag {
        ck.failure_flag = false;
        ck.monitor_enabled = false;
        ck.failure_count = ck.failure_count + 1;
        ck.current_source = 0;
        ck.pll_enabled = false;
    }
}

} // verus!
