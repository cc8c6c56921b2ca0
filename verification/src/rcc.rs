//! Clock configuration: the PLL parameter search and the frequency
//! bookkeeping behind the clock control unit.
//!
//! The PLL multiplies its input by `PFBD + 2` and divides by `2 ^ POTD`.
//! Picking the two fields for a requested frequency is a pure search,
//! verified here; programming the unit and waiting for the lock is the
//! runtime layer's job.

use vstd::prelude::*;

use crate::time::Hertz;

verus! {

/// Requested clock configuration.
pub struct Config {
    /// Target system clock frequency.
    pub sys_clk: Option<Hertz>,
    /// Target AHB clock frequency; the system clock if absent.
    pub ahb_clk: Option<Hertz>,
    /// Target APB clock frequency; the system clock if absent.
    pub apb_clk: Option<Hertz>,
    /// Run from the external crystal.
    pub use_hse: bool,
    /// The crystal's frequency, when used.
    pub hse_freq: Option<Hertz>,
}

impl Default for Config {
    /// 48 MHz from the internal oscillator, every bus at the system
    /// clock.
    fn default() -> (r: Self)
        ensures
            r.sys_clk == Some(Hertz(48000000)),
            r.ahb_clk is None,
            r.apb_clk is None,
            !r.use_hse,
            r.hse_freq is None,
    {
        Config {
            sys_clk: Some(Hertz(48_000_000)),
            ahb_clk: None,
            apb_clk: None,
            use_hse: false,
            hse_freq: None,
        }
    }
}

/// The frozen clock frequencies.
#[derive(Clone, Copy, Debug, PartialEq, Eq, Structural)]
pub struct Clocks {
    /// System clock.
    pub sys_clk: Hertz,
    /// AHB bus clock.
    pub ahb_clk: Hertz,
    /// APB bus clock.
    pub apb_clk: Hertz,
    /// The crystal's frequency, when one drives the tree.
    pub hse_clk: Option<Hertz>,
}

impl Clocks {
    /// The system clock frequency.
    pub fn sys_clk(&self) -> (r: Hertz)
        ensures
            r == self.sys_clk,
    {
        self.sys_clk
    }

    /// The AHB bus clock frequency.
    pub fn ahb_clk(&self) -> (r: Hertz)
        ensures
            r == self.ahb_clk,
    {
        self.ahb_clk
    }

    /// The APB bus clock frequency.
    pub fn apb_clk(&self) -> (r: Hertz)
        ensures
            r == self.apb_clk,
    {
        self.apb_clk
    }
}

/// The PLL's output divisor for a POTD field value.
pub open spec fn spec_pll_divisor(potd: u8) -> int {
    if potd == 0 {
        1
    } else if potd == 1 {
        2
    } else if potd == 2 {
        4
    } else {
        8
    }
}

/// The PLL's output frequency for a parameter pair.
pub open spec fn spec_pll_output(input: u32, pfbd: u8, potd: u8) -> int {
    (input * (pfbd + 2)) / spec_pll_divisor(potd)
}

/// The PLL's internal oscillator frequency for a feedback value.
pub open spec fn spec_pll_vco(input: u32, pfbd: u8) -> int {
    input * (pfbd + 2)
}

/// A parameter pair that hits one of the frequencies a 48 MHz USB clock
/// can be divided from, with the oscillator inside its relaxed bounds.
pub open spec fn spec_pll_usb_exact(input: u32, pfbd: u8, potd: u8) -> bool {
    &&& pfbd <= 15
    &&& potd <= 3
    &&& {
        let out = spec_pll_output(input, pfbd, potd);
        out == 48000000 || out == 72000000 || out == 96000000 || out == 144000000
    }
    &&& 48000000 <= spec_pll_vco(input, pfbd) <= 200000000
}

/// A parameter pair acceptable to the fallback search: output within the
/// part's rated system clock, oscillator within its strict bounds.
pub open spec fn spec_pll_fallback_ok(input: u32, pfbd: u8, potd: u8) -> bool {
    &&& pfbd <= 15
    &&& potd <= 3
    &&& spec_pll_output(input, pfbd, potd) <= 60000000
    &&& 120000000 <= spec_pll_vco(input, pfbd) <= 200000000
}

/// How far a parameter pair's output lies from the target.
pub open spec fn spec_pll_error(input: u32, target: u32, pfbd: u8, potd: u8) -> int {
    let out = spec_pll_output(input, pfbd, potd);
    if out >= target {
        out - target
    } else {
        target - out
    }
}

/// Search the PLL parameter space for a target frequency.
///
/// A pair that yields one of the USB-compatible frequencies exactly is
/// preferred outright; failing that, the pair closest to the target among
/// those the part can run is chosen; and with no acceptable pair at all a
/// fixed moderate default is returned.
pub fn calculate_pll_params_ht32(input_freq: u32, target_freq: u32) -> (r: (u8, u8))
    requires
        0 < input_freq <= 200000000,
        target_freq < u32::MAX,
    ensures
        r.0 <= 15,
        r.1 <= 3,
        (exists|p: u8, d: u8| spec_pll_usb_exact(input_freq, p, d)) ==> spec_pll_usb_exact(
            input_freq, r.0, r.1),
        (!exists|p: u8, d: u8| spec_pll_usb_exact(input_freq, p, d)) ==> {
            &&& (exists|p: u8, d: u8| spec_pll_fallback_ok(input_freq, p, d)) ==> {
                &&& spec_pll_fallback_ok(input_freq, r.0, r.1)
                &&& forall|p: u8, d: u8|
                    spec_pll_fallback_ok(input_freq, p, d) ==> spec_pll_error(input_freq,
                        target_freq, r.0, r.1) <= spec_pll_error(input_freq, target_freq, p, d)
            }
            &&& (!exists|p: u8, d: u8| spec_pll_fallback_ok(input_freq, p, d)) ==> r == (
            6u8, 1u8)
        },
{
    let mut potd: u8 = 0;
    while potd <= 3
        invariant
            0 < input_freq <= 200000000,
            potd <= 4,
            forall|p: u8, d: u8|
                d < potd && p <= 15 ==> !spec_pll_usb_exact(input_freq, p, d),
        decreases 4 - potd,
    {
        let divisor: u32 = if potd == 0 {
            1
        } else if potd == 1 {
            2
        } else if potd == 2 {
            4
        } else {
            8
        };
        let mut pfbd: u8 = 0;
        while pfbd <= 15
            invariant
                0 < input_freq <= 200000000,
                potd <= 3,
                pfbd <= 16,
                divisor == spec_pll_divisor(potd),
                forall|p: u8, d: u8|
                    d < potd && p <= 15 ==> !spec_pll_usb_exact(input_freq, p, d),
                forall|p: u8| p < pfbd ==> !spec_pll_usb_exact(input_freq, p, potd),
            decreases 16 - pfbd,
        {
            let multiplier: u32 = pfbd as u32 + 2;
            proof {
                assert(input_freq as int * multiplier as int <= 3400000000int)
                    by (nonlinear_arith)
                    requires
                        input_freq <= 200000000,
                        multiplier <= 17,
                        input_freq >= 0,
                        multiplier >= 0,
                ;
            }
            let vco_freq: u64 = input_freq as u64 * multiplier as u64;
            let output_freq: u64 = vco_freq / divisor as u64;
            if (output_freq == 48_000_000 || output_freq == 72_000_000 || output_freq
                == 96_000_000 || output_freq == 144_000_000) && vco_freq >= 48_000_000
                && vco_freq <= 200_000_000 {
                return (pfbd, potd);
            }
            pfbd = pfbd + 1;
        }
        potd = potd + 1;
    }
    let ghost no_usb = !exists|p: u8, d: u8| spec_pll_usb_exact(input_freq, p, d);
    assert(no_usb) by {
        assert forall|p: u8, d: u8| !spec_pll_usb_exact(input_freq, p, d) by {
            if p <= 15 && d <= 3 {
                assert(d < 4);
            }
        }
    }
    let mut best_error: u32 = u32::MAX;
    let mut best_pfbd: u8 = 6;
    let mut best_potd: u8 = 1;
    let mut fpotd: u8 = 0;
    while fpotd <= 3
        invariant
            0 < input_freq <= 200000000,
            target_freq < u32::MAX,
            fpotd <= 4,
            best_pfbd <= 15,
            best_potd <= 3,
            best_error < u32::MAX ==> {
                &&& spec_pll_fallback_ok(input_freq, best_pfbd, best_potd)
                &&& best_error == spec_pll_error(input_freq, target_freq, best_pfbd, best_potd)
            },
            best_error == u32::MAX ==> (best_pfbd, best_potd) == (6u8, 1u8),
            forall|p: u8, d: u8|
                d < fpotd && p <= 15 && spec_pll_fallback_ok(input_freq, p, d) ==> best_error
                    <= spec_pll_error(input_freq, target_freq, p, d),
        decreases 4 - fpotd,
    {
        let divisor: u32 = if fpotd == 0 {
            1
        } else if fpotd == 1 {
            2
        } else if fpotd == 2 {
            4
        } else {
            8
        };
        let mut pfbd: u8 = 0;
        while pfbd <= 15
            invariant
                0 < input_freq <= 200000000,
                target_freq < u32::MAX,
                fpotd <= 3,
                pfbd <= 16,
                divisor == spec_pll_divisor(fpotd),
                best_pfbd <= 15,
                best_potd <= 3,
                best_error < u32::MAX ==> {
                    &&& spec_pll_fallback_ok(input_freq, best_pfbd, best_potd)
                    &&& best_error == spec_pll_error(input_freq, target_freq, best_pfbd,
                        best_potd)
                },
                best_error == u32::MAX ==> (best_pfbd, best_potd) == (6u8, 1u8),
                forall|p: u8, d: u8|
                    d < fpotd && p <= 15 && spec_pll_fallback_ok(input_freq, p, d)
                        ==> best_error <= spec_pll_error(input_freq, target_freq, p, d),
                forall|p: u8|
                    p < pfbd && spec_pll_fallback_ok(input_freq, p, fpotd) ==> best_error
                        <= spec_pll_error(input_freq, target_freq, p, fpotd),
            decreases 16 - pfbd,
        {
            let multiplier: u32 = pfbd as u32 + 2;
            proof {
                assert(input_freq as int * multiplier as int <= 3400000000int)
                    by (nonlinear_arith)
                    requires
                        input_freq <= 200000000,
                        multiplier <= 17,
                        input_freq >= 0,
                        multiplier >= 0,
                ;
            }
            let vco_freq: u64 = input_freq as u64 * multiplier as u64;
            let output_freq: u64 = vco_freq / divisor as u64;
            if output_freq <= 60_000_000 && vco_freq >= 120_000_000 && vco_freq <= 200_000_000 {
                let out32: u32 = output_freq as u32;
                let error: u32 = if out32 > target_freq {
                    out32 - target_freq
                } else {
                    target_freq - out32
                };
                if error < best_error {
                    best_error = error;
                    best_pfbd = pfbd;
                    best_potd = fpotd;
                }
            }
            pfbd = pfbd + 1;
        }
        fpotd = fpotd + 1;
    }
    if best_error == u32::MAX {
        assert forall|p: u8, d: u8| !spec_pll_fallback_ok(input_freq, p, d) by {
            if p <= 15 && d <= 3 {
                assert(d < 4);
                assert(input_freq as int * (p + 2) as int <= 3400000000int)
                    by (nonlinear_arith)
                    requires
                        input_freq <= 200000000,
                        p <= 15,
                        input_freq >= 0,
                ;
                assert(spec_pll_vco(input_freq, p) <= 3400000000int);
                assert(spec_pll_divisor(d) >= 1);
                assert(spec_pll_output(input_freq, p, d) <= spec_pll_vco(input_freq, p));
                assert(spec_pll_output(input_freq, p, d) >= 0);
                assert(spec_pll_error(input_freq, target_freq, p, d) < u32::MAX);
            }
        }
    }
    (best_pfbd, best_potd)
}

/// The decision behind the USB clock divider: the prescaler value and the
/// USB clock it yields.  Only 48, 72, 96 and 144 MHz system clocks give
/// the exact 48 MHz the bus needs; other frequencies get the closest
/// approximation, under which enumeration is expected to fail.
pub open spec fn spec_usb_prescaler(sys_freq: u32) -> (u8, int) {
    if sys_freq == 144000000 {
        (3u8, 48000000int)
    } else if sys_freq == 96000000 {
        (2u8, 48000000int)
    } else if sys_freq == 72000000 {
        (1u8, 48000000int)
    } else if sys_freq == 48000000 {
        (0u8, 48000000int)
    } else if sys_freq > 144000000 {
        (3u8, sys_freq as int / 3)
    } else if sys_freq > 96000000 {
        (2u8, sys_freq as int / 2)
    } else if sys_freq > 48000000 {
        (1u8, (sys_freq as int * 2) / 3)
    } else {
        (0u8, sys_freq as int)
    }
}

/// Choose the USB prescaler for a system clock and report the USB clock
/// frequency it produces.
pub fn usb_clock_prescaler(sys_clk: Hertz) -> (r: (u8, u32))
    ensures
        r.0 == spec_usb_prescaler(sys_clk.0).0,
        r.1 == spec_usb_prescaler(sys_clk.0).1,
{
    let sys_freq = sys_clk.0;
    if sys_freq == 144_000_000 {
        (3, 48_000_000)
    } else if sys_freq == 96_000_000 {
        (2, 48_000_000)
    } else if sys_freq == 72_000_000 {
        (1, 48_000_000)
    } else if sys_freq == 48_000_000 {
        (0, 48_000_000)
    } else if sys_freq > 144_000_000 {
        (3, sys_freq / 3)
    } else if sys_freq > 96_000_000 {
        (2, sys_freq / 2)
    } else if sys_freq > 48_000_000 {
        let approx: u64 = sys_freq as u64 * 2 / 3;
        (1, approx as u32)
    } else {
        (0, sys_freq)
    }
}

/// Compute the clock tree a configuration settles on.
///
/// The PLL path's exact frequency comes out of the parameter search; when
/// the search can hit a USB-compatible frequency it does, and the bus
/// clocks always run 1:1 with the system clock.  Programming the
/// oscillators, the PLL and the switch is the runtime layer's job.
pub fn init(config: Config) -> (r: Clocks)
    requires
        (config.use_hse && config.hse_freq is Some) ==> 0 < (config.hse_freq->0).0 <= 200000000,
        config.sys_clk is Some ==> (config.sys_clk->0).0 < u32::MAX,
    ensures
        r.ahb_clk == r.sys_clk,
        r.apb_clk == r.sys_clk,
        r.hse_clk is None,
        ({
            let target = match config.sys_clk {
                Some(f) => f.0,
                None => 8000000u32,
            };
            if config.use_hse && config.hse_freq is Some {
                let base = (config.hse_freq->0).0;
                if target > base {
                    exists|p: u8, d: u8|
                        p <= 15 && d <= 3 && r.sys_clk.0 == spec_pll_output(base, p, d)
                } else {
                    r.sys_clk.0 == base
                }
            } else {
                if target > 8000000 {
                    exists|p: u8, d: u8|
                        p <= 15 && d <= 3 && r.sys_clk.0 == spec_pll_output(8000000u32, p, d)
                } else {
                    r.sys_clk.0 == 8000000
                }
            }
        }),
{
    let target: u32 = match config.sys_clk {
        Some(f) => f.0,
        None => 8_000_000,
    };
    let sys_clk: Hertz = if config.use_hse && config.hse_freq.is_some() {
        let base: u32 = match config.hse_freq {
            Some(f) => f.0,
            None => 8_000_000,
        };
        if target > base {
            let params = calculate_pll_params_ht32(base, target);
            Hertz(pll_output_freq(base, params.0, params.1))
        } else {
            Hertz(base)
        }
    } else {
        if target > 8_000_000 {
            let params = calculate_pll_params_ht32(8_000_000, target);
            Hertz(pll_output_freq(8_000_000, params.0, params.1))
        } else {
            Hertz(8_000_000)
        }
    };
    Clocks { sys_clk, ahb_clk: sys_clk, apb_clk: sys_clk, hse_clk: None }
}

/// The frequency a PLL parameter pair produces from an input.
pub fn pll_output_freq(input: u32, pfbd: u8, potd: u8) -> (r: u32)
    requires
        0 < input <= 200000000,
        pfbd <= 15,
        potd <= 3,
    ensures
        r == spec_pll_output(input, pfbd, potd),
{
    proof {
        assert(input as int * (pfbd + 2) as int <= 3400000000int) by (nonlinear_arith)
            requires
                input <= 200000000,
                pfbd <= 15,
                input >= 0,
        ;
    }
    let vco: u64 = input as u64 * (pfbd as u64 + 2);
    let divisor: u64 = if potd == 0 {
        1
    } else if potd == 1 {
        2
    } else if potd == 2 {
        4
    } else {
        8
    };
    (vco / divisor) as u32
}

/// Handle on the clock control unit, carrying the frozen clock tree.
pub struct Rcc {
    clocks: Clocks,
}

impl Rcc {
    /// The frozen clock tree this handle reports.
    pub closed spec fn spec_clocks(self) -> Clocks {
        self.clocks
    }

    /// Wrap a frozen clock tree.
    pub fn new(clocks: Clocks) -> (r: Rcc)
        ensures
            r.spec_clocks() == clocks,
    {
        Rcc { clocks }
    }

    /// The frozen clock frequencies.
    pub fn clocks(&self) -> (r: Clocks)
        ensures
            r == self.spec_clocks(),
    {
        self.clocks
    }
}

/// A peripheral whose clock gate can be switched.
#[derive(Debug, Copy, Clone, PartialEq, Eq, Structural)]
pub enum Peripheral {
    /// GPIO port A.
    GPIOA,
    /// GPIO port B.
    GPIOB,
    /// GPIO port C.
    GPIOC,
    /// GPIO port D.
    GPIOD,
    /// The alternate-function controller.
    AFIO,
    /// The first UART.
    USART0,
    /// The second UART.
    USART1,
    /// The first general-purpose timer.
    TIM0,
    /// The second general-purpose timer.
    TIM1,
    /// The USB device controller.
    USB,
}

/// Extension trait for configuring the clock control unit.
pub trait RccExt {
    /// Freeze a clock configuration into a clock tree.
    fn configure(self, config: Config) -> Clocks;
}

} // verus!
