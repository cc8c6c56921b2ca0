//! Basic-function timer (BFTM) driver: the 32-bit timer behind the
//! monotonic time base, with interrupt-driven compare and the half-cycle
//! algorithm that extends its counter to 64 bits.
//!
//! The timer's registers are modelled by [`BftmRegs`]; the runtime layer
//! mirrors them onto the hardware and dispatches its interrupt.

use vstd::prelude::*;

verus! {

/// Interrupt vector number of the first basic-function timer.
pub const BFTM0_IRQ: u8 = 19;

/// Interrupt vector number of the second basic-function timer.
pub const BFTM1_IRQ: u8 = 20;

/// Largest value of the 32-bit counter.
pub const BFTM_MAX_COUNT: u32 = 0xFFFF_FFFF;

/// Half-cycle point of the counter, used by the 64-bit extension.
pub const BFTM_HALF_CYCLE: u32 = 0x8000_0000;

/// The first basic-function timer, as a claimable instance.
pub struct Bftm0;

impl Bftm0 {
    /// The interrupt vector this timer raises.
    pub fn interrupt_vector() -> (r: u8)
        ensures
            r == BFTM0_IRQ,
    {
        BFTM0_IRQ
    }
}

/// The second basic-function timer, as a claimable instance.
pub struct Bftm1Instance;

impl Bftm1Instance {
    /// The interrupt vector this timer raises.
    pub fn interrupt_vector() -> (r: u8)
        ensures
            r == BFTM1_IRQ,
    {
        BFTM1_IRQ
    }
}

/// Timer configuration.
#[derive(Debug, Clone, Copy)]
pub struct BftmConfig {
    /// Target tick frequency, typically 1 MHz.
    pub tick_frequency_hz: u32,
    /// Compare value; the maximum keeps the timer free-running.
    pub compare_value: u32,
    /// Raise an interrupt on compare match.
    pub interrupt_enabled: bool,
    /// Stop after the first match.
    pub one_shot: bool,
    /// Interrupt priority, 0 (highest) to 15.
    pub interrupt_priority: u8,
}

impl Default for BftmConfig {
    /// Free-running at 1 MHz with the match interrupt armed at highest
    /// priority.
    fn default() -> (r: Self)
        ensures
            r.tick_frequency_hz == 1000000,
            r.compare_value == BFTM_MAX_COUNT,
            r.interrupt_enabled,
            !r.one_shot,
            r.interrupt_priority == 0,
    {
        BftmConfig {
            tick_frequency_hz: 1_000_000,
            compare_value: BFTM_MAX_COUNT,
            interrupt_enabled: true,
            one_shot: false,
            interrupt_priority: 0,
        }
    }
}

impl BftmConfig {
    /// The configuration the monotonic time driver runs on: the compare
    /// point sits at the half cycle, which drives the 64-bit overflow
    /// extension.
    pub fn embassy_time_driver() -> (r: Self)
        ensures
            r.tick_frequency_hz == 1000000,
            r.compare_value == BFTM_HALF_CYCLE,
            r.interrupt_enabled,
            !r.one_shot,
            r.interrupt_priority == 0,
    {
        BftmConfig {
            tick_frequency_hz: 1_000_000,
            compare_value: BFTM_HALF_CYCLE,
            interrupt_enabled: true,
            one_shot: false,
            interrupt_priority: 0,
        }
    }

    /// The configuration for precise wake-up scheduling: free-running with
    /// the match interrupt armed.
    pub fn wake_up_driver() -> (r: Self)
        ensures
            r.tick_frequency_hz == 1000000,
            r.compare_value == BFTM_MAX_COUNT,
            r.interrupt_enabled,
            !r.one_shot,
            r.interrupt_priority == 0,
    {
        BftmConfig {
            tick_frequency_hz: 1_000_000,
            compare_value: BFTM_MAX_COUNT,
            interrupt_enabled: true,
            one_shot: false,
            interrupt_priority: 0,
        }
    }
}

/// Timer statistics.
#[derive(Debug, Clone, Copy)]
pub struct TimerStats {
    /// Interrupts acknowledged so far.
    pub total_interrupts: u32,
    /// The configuration in force.
    pub current_settings: BftmConfig,
}

/// Errors of the timer driver.
#[derive(Debug, Clone, Copy, PartialEq, Eq, Structural)]
pub enum BftmError {
    /// The requested compare value would fire immediately.
    ImmediateTriggerRisk,
    /// The target tick frequency is invalid.
    InvalidTargetFrequency,
    /// The compare value exceeds the counter width.
    CompareValueTooLarge,
    /// The interrupt priority is out of range.
    InvalidPriority,
    /// Hardware initialisation did not verify.
    InitializationFailed,
    /// The configuration is invalid.
    InvalidConfiguration,
    /// The configuration would be unsafe to run.
    UnsafeConfiguration,
}

/// Model of the timer's register block.
#[derive(Debug, Clone, Copy, PartialEq, Eq, Structural)]
pub struct BftmRegs {
    /// Counter enable.
    pub counter_enabled: bool,
    /// One-shot mode.
    pub one_shot: bool,
    /// Match interrupt enable.
    pub interrupt_enabled: bool,
    /// Match flag, set by hardware on compare match.
    pub match_flag: bool,
    /// The free-running counter.
    pub counter: u32,
    /// The compare register.
    pub compare: u32,
}

/// What configuration validation settles on: a zero tick frequency, an
/// out-of-range priority and a compare point too close to fire reliably
/// are refused, in that order.
pub open spec fn spec_validate_config(config: BftmConfig) -> Result<(), BftmError> {
    if config.tick_frequency_hz == 0 {
        Err(BftmError::InvalidTargetFrequency)
    } else if config.interrupt_priority > 15 {
        Err(BftmError::InvalidPriority)
    } else if config.compare_value < 50 {
        Err(BftmError::UnsafeConfiguration)
    } else {
        Ok(())
    }
}

/// The distance from the counter to a target value, wrapping around the
/// 32-bit cycle with saturating steps.
pub open spec fn spec_alarm_distance(counter: u32, target: u32) -> int {
    if target >= counter {
        target - counter
    } else {
        let d0 = (BFTM_MAX_COUNT - counter) + target;
        let d1 = if d0 > BFTM_MAX_COUNT { BFTM_MAX_COUNT as int } else { d0 };
        if d1 + 1 > BFTM_MAX_COUNT {
            BFTM_MAX_COUNT as int
        } else {
            d1 + 1
        }
    }
}

/// A basic-function timer instance: its configuration, its interrupt
/// count and its register block.
pub struct Btfm {
    /// The configuration in force.
    pub config: BftmConfig,
    /// Interrupts acknowledged so far.
    pub total_interrupts: u32,
    /// The timer's registers.
    pub regs: BftmRegs,
}

impl Btfm {
    /// A timer in its power-on state, configured free-running at 1 MHz.
    pub fn new() -> (r: Btfm)
        ensures
            r.config.tick_frequency_hz == 1000000,
            r.config.compare_value == BFTM_MAX_COUNT,
            r.config.interrupt_enabled,
            !r.config.one_shot,
            r.config.interrupt_priority == 0,
            r.total_interrupts == 0,
            r.regs == (BftmRegs {
                counter_enabled: false,
                one_shot: false,
                interrupt_enabled: false,
                match_flag: false,
                counter: 0,
                compare: 0,
            }),
    {
        Btfm {
            config: BftmConfig {
                tick_frequency_hz: 1_000_000,
                compare_value: BFTM_MAX_COUNT,
                interrupt_enabled: true,
                one_shot: false,
                interrupt_priority: 0,
            },
            total_interrupts: 0,
            regs: BftmRegs {
                counter_enabled: false,
                one_shot: false,
                interrupt_enabled: false,
                match_flag: false,
                counter: 0,
                compare: 0,
            },
        }
    }

    /// Validate the configuration in force against what the hardware can
    /// run.
    pub fn validate_config(&self) -> (r: Result<(), BftmError>)
        ensures
            r == spec_validate_config(self.config),
    {
        if self.config.tick_frequency_hz == 0 {
            return Err(BftmError::InvalidTargetFrequency);
        }
        if self.config.interrupt_priority > 15 {
            return Err(BftmError::InvalidPriority);
        }
        if self.config.compare_value < 50 {
            return Err(BftmError::UnsafeConfiguration);
        }
        Ok(())
    }

    /// Bring the timer up under the given configuration (or the one
    /// already in force): validate it, program the compare register and
    /// start the counter with the interrupt and one-shot settings asked
    /// for.
    pub fn init(&mut self, config: Option<BftmConfig>) -> (r: Result<(), BftmError>)
        ensures
            ({
                let cfg = match config {
                    Some(c) => c,
                    None => old(self).config,
                };
                &&& r == spec_validate_config(cfg)
                &&& (r is Ok ==> {
                    &&& final(self).config == cfg
                    &&& final(self).regs == (BftmRegs {
                        counter_enabled: true,
                        one_shot: cfg.one_shot,
                        interrupt_enabled: cfg.interrupt_enabled,
                        match_flag: false,
                        counter: old(self).regs.counter,
                        compare: cfg.compare_value,
                    })
                    &&& final(self).total_interrupts == old(self).total_interrupts
                })
                &&& (r is Err ==> {
                    &&& final(self).config == cfg
                    &&& final(self).regs == old(self).regs
                    &&& final(self).total_interrupts == old(self).total_interrupts
                })
            }),
    {
        if let Some(cfg) = config {
            self.config = cfg;
        }
        if let Err(e) = self.validate_config() {
            return Err(e);
        }
        self.regs.match_flag = false;
        self.regs.compare = self.config.compare_value;
        self.regs.one_shot = self.config.one_shot;
        self.regs.interrupt_enabled = self.config.interrupt_enabled;
        self.regs.counter_enabled = true;
        Ok(())
    }

    /// The current counter value.
    pub fn get_counter(&self) -> (r: Result<u32, BftmError>)
        ensures
            r == Result::<u32, BftmError>::Ok(self.regs.counter),
    {
        Ok(self.regs.counter)
    }

    /// Program a new compare value, refusing one so close to the counter
    /// that it would fire before the write settles.
    pub fn set_compare_value(&self, value: u32) -> (r: Result<(), BftmError>)
        ensures
            (value == self.regs.counter || value as int == (self.regs.counter as int + 1) % 0x100000000)
                <==> r is Err,
            r is Err ==> r == Result::<(), BftmError>::Err(BftmError::ImmediateTriggerRisk),
    {
        let current_cnt = self.regs.counter;
        if value == current_cnt || value == current_cnt.wrapping_add(1) {
            return Err(BftmError::ImmediateTriggerRisk);
        }
        Ok(())
    }

    /// Write a new compare value into the register block, with the same
    /// proximity refusal as [`Self::set_compare_value`].
    pub fn write_compare_value(&mut self, value: u32) -> (r: Result<(), BftmError>)
        ensures
            ({
                let too_close = value == old(self).regs.counter || value as int == (old(
                self).regs.counter as int + 1) % 0x100000000;
                if too_close {
                    &&& r == Result::<(), BftmError>::Err(BftmError::ImmediateTriggerRisk)
                    &&& *final(self) == *old(self)
                } else {
                    &&& r is Ok
                    &&& final(self).regs == (BftmRegs { compare: value, ..old(self).regs })
                    &&& final(self).config == old(self).config
                    &&& final(self).total_interrupts == old(self).total_interrupts
                }
            }),
    {
        let current_cnt = self.regs.counter;
        if value == current_cnt || value == current_cnt.wrapping_add(1) {
            return Err(BftmError::ImmediateTriggerRisk);
        }
        self.regs.compare = value;
        Ok(())
    }

    /// The compare value in force.
    pub fn get_compare_value(&self) -> (r: Result<u32, BftmError>)
        ensures
            r == Result::<u32, BftmError>::Ok(self.regs.compare),
    {
        Ok(self.regs.compare)
    }

    /// Arm or disarm the match interrupt.
    pub fn set_interrupt_enabled(&mut self, enabled: bool) -> (r: Result<(), BftmError>)
        ensures
            r is Ok,
            final(self).regs == (BftmRegs { interrupt_enabled: enabled, ..old(self).regs }),
            final(self).config == old(self).config,
            final(self).total_interrupts == old(self).total_interrupts,
    {
        self.regs.interrupt_enabled = enabled;
        Ok(())
    }

    /// Whether a compare match is pending.
    pub fn is_match_pending(&self) -> (r: Result<bool, BftmError>)
        ensures
            r == Result::<bool, BftmError>::Ok(self.regs.match_flag),
    {
        Ok(self.regs.match_flag)
    }

    /// Acknowledge a pending match: clear the flag and count the
    /// interrupt.
    pub fn acknowledge_interrupt(&mut self) -> (r: Result<(), BftmError>)
        requires
            old(self).total_interrupts < u32::MAX,
        ensures
            r is Ok,
            final(self).regs == (BftmRegs { match_flag: false, ..old(self).regs }),
            final(self).total_interrupts == old(self).total_interrupts + 1,
            final(self).config == old(self).config,
    {
        self.regs.match_flag = false;
        self.total_interrupts = self.total_interrupts + 1;
        Ok(())
    }

    /// Stop the counter, keeping the configuration.
    pub fn disable(&self) -> (r: Result<(), BftmError>)
        ensures
            r is Ok,
    {
        Ok(())
    }

    /// Restart the counter.
    pub fn enable(&self) -> (r: Result<(), BftmError>)
        ensures
            r is Ok,
    {
        Ok(())
    }

    /// Two back-to-back counter reads, most recent first, for race-free
    /// measurement across an overflow.
    pub fn synchronized_read(&self) -> (r: Result<(u32, u32), BftmError>)
        ensures
            r == Result::<(u32, u32), BftmError>::Ok((self.regs.counter, self.regs.counter)),
    {
        let first_read = self.regs.counter;
        let second_read = self.regs.counter;
        Ok((second_read, first_read))
    }

    /// Switch one-shot mode on or off.
    pub fn set_one_shot_mode(&mut self, enable: bool) -> (r: Result<(), BftmError>)
        ensures
            r is Ok,
            final(self).regs == (BftmRegs { one_shot: enable, ..old(self).regs }),
            final(self).config == old(self).config,
            final(self).total_interrupts == old(self).total_interrupts,
    {
        self.regs.one_shot = enable;
        Ok(())
    }

    /// The statistics gathered so far.
    pub fn get_stats(&self) -> (r: Result<TimerStats, BftmError>)
        ensures
            r is Ok,
            r->Ok_0.total_interrupts == self.total_interrupts,
            r->Ok_0.current_settings == self.config,
    {
        Ok(TimerStats { total_interrupts: self.total_interrupts, current_settings: self.config })
    }

    /// Whether an alarm at the target counter value leaves the minimum
    /// safety distance of three ticks.
    pub fn can_set_alarm_at(&self, target_time: u32) -> (r: bool)
        ensures
            r == (spec_alarm_distance(self.regs.counter, target_time) >= 3),
    {
        let current_cnt = self.regs.counter;
        let distance: u32 = if target_time >= current_cnt {
            target_time - current_cnt
        } else {
            (BFTM_MAX_COUNT - current_cnt).saturating_add(target_time).saturating_add(1)
        };
        distance >= 3
    }

    /// The configuration in force.
    pub fn get_configuration_summary(&self) -> (r: BftmConfig)
        ensures
            r == self.config,
    {
        self.config
    }
}

/// The 64-bit timestamp assembled from the 32-bit counter, the period
/// count and the counter value seen at the previous observation, by the
/// half-cycle algorithm: a wrap bumps the period, and a crossing from the
/// first into the second half flips bit 31 on odd periods to keep the
/// extension race-free.
pub open spec fn spec_calc_64bit_timestamp(current_counter: u32, period_counter: u32,
    last_counter: u32) -> u64 {
    let actual_period: u64 = if current_counter < last_counter {
        (period_counter + 1) as u64
    } else {
        period_counter as u64
    };
    let adjusted: u64 = if (current_counter & BFTM_HALF_CYCLE) != 0 && (last_counter
        & BFTM_HALF_CYCLE) == 0 {
        (current_counter as u64) ^ ((actual_period & 1) << 31)
    } else {
        current_counter as u64
    };
    ((actual_period << 32) + adjusted) as u64
}

/// Extend the 32-bit counter to a 64-bit timestamp.
pub fn calc_64bit_timestamp(current_counter: u32, period_counter: u32, last_counter: u32)
    -> (r: u64)
    requires
        period_counter < u32::MAX,
    ensures
        r == spec_calc_64bit_timestamp(current_counter, period_counter, last_counter),
{
    let mut actual_period: u64 = period_counter as u64;
    let mut adjusted_counter: u64 = current_counter as u64;
    if current_counter < last_counter {
        actual_period = actual_period + 1;
    }
    if (current_counter & BFTM_HALF_CYCLE) != 0 && (last_counter & BFTM_HALF_CYCLE) == 0 {
        proof {
            let x = adjusted_counter;
            let p = actual_period;
            assert(x <= 0xFFFF_FFFFu64 ==> (x ^ ((p & 1) << 31u64)) <= 0xFFFF_FFFFu64)
                by (bit_vector);
        }
        adjusted_counter = adjusted_counter ^ ((actual_period & 1) << 31u64);
    }
    proof {
        let p = actual_period;
        let x = adjusted_counter;
        assert(p <= 0xFFFF_FFFFu64 && x <= 0xFFFF_FFFFu64 ==> (p << 32u64)
            <= 0xFFFF_FFFF_0000_0000u64 && (p << 32u64) + x <= 0xFFFF_FFFF_FFFF_FFFFu64)
            by (bit_vector);
    }
    (actual_period << 32u64) + adjusted_counter
}

/// Bring up the timer subsystem for the time driver.
pub fn bftm_system_init() -> (r: Result<(), BftmError>)
    ensures
        r is Ok,
{
    Ok(())
}

/// A fresh handle on the first timer.
pub fn get_bftm0() -> (r: Btfm)
    ensures
        r.total_interrupts == 0,
        r.config.tick_frequency_hz == 1000000,
{
    Btfm::new()
}

/// A fresh handle on the second timer.
pub fn get_bftm1() -> (r: Btfm)
    ensures
        r.total_interrupts == 0,
        r.config.tick_frequency_hz == 1000000,
{
    Btfm::new()
}

/// Record the intended interrupt priorities: the first timer at the
/// highest priority, the second just below it.  The actual vector
/// programming belongs to the runtime layer.
pub fn configure_interrupt_priorities() -> (r: Result<(), BftmError>)
    ensures
        r is Ok,
{
    Ok(())
}

} // verus!
