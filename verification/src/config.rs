use vstd::prelude::*;

verus! {

/// Clock source feeding the PLL.
#[derive(Clone, Copy, Debug, PartialEq, Eq, Structural)]
pub enum PllClockSource {
    /// Internal RC oscillator.
    Hsi,
    /// External crystal, with its frequency in Hz.
    Hse(u32),
}

/// PLL multiplier and divider settings: the input is divided by `m`,
/// multiplied by `n`, and the system clock tap divides the result by `p`
/// (`q` feeds the peripheral clock tap, which this program does not use).
#[derive(Clone, Copy, Debug, PartialEq, Eq, Structural)]
pub struct PllConf {
    pub source: PllClockSource,
    pub m: u8,
    pub n: u16,
    pub p: u8,
    pub q: u8,
}

/// Where the system clock is taken from.
#[derive(Clone, Copy, Debug, PartialEq, Eq, Structural)]
pub enum SystemClockSource {
    Hsi,
    Hse(u32),
    Pll(PllConf),
}

/// Clock tree configuration.
#[derive(Clone, Copy, Debug, PartialEq, Eq, Structural)]
pub struct ClockConf {
    pub source: SystemClockSource,
}

/// Whole-system configuration applied once at startup.
#[derive(Clone, Copy, Debug, PartialEq, Eq, Structural)]
pub struct SysConf {
    pub clock: ClockConf,
}

/// Frequency in Hz of a PLL input source (the internal oscillator runs at
/// a fixed 16 MHz).
pub open spec fn pll_input_hz(s: PllClockSource) -> nat {
    match s {
        PllClockSource::Hsi => 16_000_000,
        PllClockSource::Hse(f) => f as nat,
    }
}

/// The register ranges the PLL dividers must lie in, and the voltage
/// controlled oscillator's input and output bands.
pub open spec fn pll_wf(c: PllConf) -> bool {
    &&& 2 <= c.m <= 63
    &&& 50 <= c.n <= 432
    &&& (c.p == 2 || c.p == 4 || c.p == 6 || c.p == 8)
    &&& 2 <= c.q <= 15
    &&& 1_000_000 <= pll_input_hz(c.source) / (c.m as nat) <= 2_000_000
    &&& 100_000_000 <= (pll_input_hz(c.source) / (c.m as nat)) * (c.n as nat) <= 432_000_000
}

/// System clock frequency in Hz produced by a PLL configuration.
pub open spec fn pll_output_hz(c: PllConf) -> nat {
    ((pll_input_hz(c.source) / (c.m as nat)) * (c.n as nat)) / (c.p as nat)
}

/// System clock frequency in Hz that a whole-system configuration yields.
pub open spec fn sys_clock_hz(c: SysConf) -> nat {
    match c.clock.source {
        SystemClockSource::Hsi => 16_000_000,
        SystemClockSource::Hse(f) => f as nat,
        SystemClockSource::Pll(p) => pll_output_hz(p),
    }
}

/// The one clock configuration this program ever applies: a 168 MHz system
/// clock derived from a 25 MHz external crystal.
pub open spec fn bitsys_conf() -> SysConf {
    SysConf {
        clock: ClockConf {
            source: SystemClockSource::Pll(PllConf {
                source: PllClockSource::Hse(25_000_000),
                m: 25,
                n: 336,
                p: 2,
                q: 7,
            }),
        },
    }
}

/// Builds the startup clock configuration: 25 MHz crystal, divided to a
/// 1 MHz PLL input, multiplied to 336 MHz, and halved to a 168 MHz system
/// clock.
pub fn bitsys() -> (c: SysConf)
    ensures
        c == bitsys_conf(),
{
    SysConf {
        clock: ClockConf {
            source: SystemClockSource::Pll(PllConf {
                source: PllClockSource::Hse(25_000_000),
                m: 25,
                n: 336,
                p: 2,
                q: 7,
            }),
        },
    }
}

/// The startup configuration is within the PLL's legal ranges and yields
/// exactly 168 MHz.
pub proof fn lemma_bitsys_clock()
    ensures
        bitsys_conf().clock.source matches SystemClockSource::Pll(p) && pll_wf(p),
        sys_clock_hz(bitsys_conf()) == 168_000_000,
{
}

/// GPIO port bank.
#[derive(Clone, Copy, Debug, PartialEq, Eq, Structural)]
pub enum Port {
    A,
    B,
    C,
    D,
    E,
}

/// Function a pin is configured for.
#[derive(Clone, Copy, Debug, PartialEq, Eq, Structural)]
pub enum PinFunction {
    GpioIn,
    GpioOut,
}

/// A single hardware pin: its port bank, its index within the bank, and the
/// function it is configured for.
#[derive(Clone, Copy, Debug, PartialEq, Eq, Structural)]
pub struct Pin {
    pub port: Port,
    pub pin: u8,
    pub function: PinFunction,
}

/// Each port bank has sixteen pins.
pub open spec fn pin_wf(p: Pin) -> bool {
    p.pin < 16
}

/// The output line this program drives: pin 8 of port A, as an output.
pub open spec fn led_pin_conf() -> Pin {
    Pin { port: Port::A, pin: 8, function: PinFunction::GpioOut }
}

/// Builds the output-line configuration.
pub fn led_pin() -> (p: Pin)
    ensures
        p == led_pin_conf(),
{
    Pin { port: Port::A, pin: 8, function: PinFunction::GpioOut }
}

/// The output line is a legal pin.
pub proof fn lemma_led_pin_wf()
    ensures
        pin_wf(led_pin_conf()),
{
}

/// Hardware timing counter used for delays.
#[derive(Clone, Copy, Debug, PartialEq, Eq, Structural)]
pub enum TimerPeripheral {
    Timer2,
    Timer3,
    Timer4,
    Timer5,
}

/// A timer: the peripheral it runs on and its calibration, in counter ticks
/// per microsecond.
#[derive(Clone, Copy, Debug, PartialEq, Eq, Structural)]
pub struct TimerConf {
    pub peripheral: TimerPeripheral,
    pub ticks_per_us: u32,
}

/// A timer is calibrated for a given system clock when its tick scale is
/// the number of clock cycles per microsecond.
pub open spec fn timer_calibrated(t: TimerConf, sysclk_hz: nat) -> bool {
    t.ticks_per_us as nat == sysclk_hz / 1_000_000
}

/// The delay timer this program uses: peripheral 2, 168 ticks per
/// microsecond.
pub open spec fn delay_timer_conf() -> TimerConf {
    TimerConf { peripheral: TimerPeripheral::Timer2, ticks_per_us: 168 }
}

/// Builds the delay-timer configuration.
pub fn delay_timer() -> (t: TimerConf)
    ensures
        t == delay_timer_conf(),
{
    TimerConf { peripheral: TimerPeripheral::Timer2, ticks_per_us: 168 }
}

/// The delay timer's tick scale matches the clock that `bitsys_conf`
/// configures, so a millisecond wait counted in its ticks really lasts a
/// millisecond.
pub proof fn lemma_delay_timer_calibrated()
    ensures
        timer_calibrated(delay_timer_conf(), sys_clock_hz(bitsys_conf())),
{
}

} // verus!
