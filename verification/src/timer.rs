//! General-purpose timers and PWM: the tick, prescaler and duty-cycle
//! arithmetic, and the per-instance marker types.
//!
//! Starting, stopping and waiting on the counters is plain register
//! polling; it lives in the runtime layer, which consumes the values
//! computed here.

use vstd::prelude::*;

use crate::time::Hertz;

verus! {

/// The first general-purpose timer.
pub struct Timer0 {
    _private: (),
}

impl Timer0 {
    pub(crate) fn new() -> Self {
        Timer0 { _private: () }
    }
}

/// The second general-purpose timer.
pub struct Timer1 {
    _private: (),
}

impl Timer1 {
    pub(crate) fn new() -> Self {
        Timer1 { _private: () }
    }
}

/// A PWM output channel of a timer.
pub enum Channel {
    /// Channel 0.
    Ch0,
    /// Channel 1.
    Ch1,
    /// Channel 2.
    Ch2,
    /// Channel 3.
    Ch3,
}

/// Hook for routing the monotonic time base through a hardware timer; the
/// runtime layer owns the actual driver registration.
pub fn init_embassy_time() {
}

/// How many timer ticks a duration spans under a given clock.
pub fn duration_ticks(duration_us: u64, clock_hz: u32) -> (r: u64)
    requires
        duration_us * clock_hz <= u64::MAX,
    ensures
        r == (duration_us * clock_hz) / 1000000,
{
    (duration_us * clock_hz as u64) / 1_000_000
}

/// The prescaler that divides a bus clock down to a target counting
/// frequency.
pub fn prescaler_for_frequency(clock: Hertz, freq: Hertz) -> (r: u16)
    requires
        freq.0 > 0,
        clock.0 / freq.0 >= 1,
        clock.0 / freq.0 - 1 <= u16::MAX,
    ensures
        r == clock.0 / freq.0 - 1,
{
    let prescaler = clock.0 / freq.0 - 1;
    prescaler as u16
}

/// The compare value that yields a duty cycle, as a fraction of the
/// counter's reload value.
pub fn pwm_duty_ticks(duty: u16, max: u16, reload: u32) -> (r: u32)
    requires
        0 < max,
        duty <= max,
    ensures
        r == (duty * reload) / (max as int),
{
    proof {
        assert(duty as int * reload as int <= 0xFFFFint * 0xFFFF_FFFFint) by (nonlinear_arith)
            requires
                duty <= 0xFFFF,
                reload <= 0xFFFF_FFFF,
                duty >= 0,
                reload >= 0,
        ;
        assert(duty as int * reload as int <= max as int * reload as int) by (nonlinear_arith)
            requires
                duty <= max,
                reload >= 0,
        ;
        assert((duty as int * reload as int) / (max as int) <= reload as int)
            by (nonlinear_arith)
            requires
                0 < max as int,
                duty as int * reload as int <= max as int * reload as int,
                reload >= 0,
        ;
    }
    ((duty as u64 * reload as u64) / max as u64) as u32
}

} // verus!
