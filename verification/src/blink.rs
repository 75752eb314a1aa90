use vstd::prelude::*;
use crate::config::SysConf;
use crate::config::Pin;
use crate::config::TimerConf;
use crate::config::bitsys;
use crate::config::bitsys_conf;
use crate::config::led_pin;
use crate::config::led_pin_conf;
use crate::config::delay_timer;
use crate::config::delay_timer_conf;

verus! {

/// How long the line is held on each level, in milliseconds.
pub const HALF_PERIOD_MS: u32 = 500;

/// Logic level driven onto the output line.
#[derive(Clone, Copy, Debug, PartialEq, Eq, Structural)]
pub enum Level {
    High,
    Low,
}

/// The opposite logic level.
pub open spec fn spec_toggled(l: Level) -> Level {
    match l {
        Level::High => Level::Low,
        Level::Low => Level::High,
    }
}

/// Returns the opposite logic level.
pub fn toggled(l: Level) -> (r: Level)
    ensures
        r == spec_toggled(l),
{
    match l {
        Level::High => Level::Low,
        Level::Low => Level::High,
    }
}

/// One step of the program's effect on the hardware: a one-shot
/// configuration, a drive of the output line, or a blocking delay.
#[derive(Clone, Copy, Debug, PartialEq, Eq, Structural)]
pub enum Action {
    /// Apply the clock tree configuration.
    ConfigureClock(SysConf),
    /// Configure a pin.
    ConfigurePin(Pin),
    /// Configure a timer.
    ConfigureTimer(TimerConf),
    /// Drive the output line to a level.
    SetLevel(Level),
    /// Block for the given number of milliseconds.
    WaitMs(u32),
}

/// Whether an action is a blocking delay.
pub open spec fn is_wait(a: Action) -> bool {
    match a {
        Action::WaitMs(_) => true,
        _ => false,
    }
}

/// The i-th action the program performs, counting from power-on: the three
/// one-shot configurations, then the endless four-action cycle
/// high / wait / low / wait.
pub open spec fn planned_action(i: nat) -> Action
    decreases i,
{
    if i == 0 {
        Action::ConfigureClock(bitsys_conf())
    } else if i == 1 {
        Action::ConfigurePin(led_pin_conf())
    } else if i == 2 {
        Action::ConfigureTimer(delay_timer_conf())
    } else if i == 3 {
        Action::SetLevel(Level::High)
    } else if i == 4 {
        Action::WaitMs(HALF_PERIOD_MS)
    } else if i == 5 {
        Action::SetLevel(Level::Low)
    } else if i == 6 {
        Action::WaitMs(HALF_PERIOD_MS)
    } else {
        planned_action((i - 4) as nat)
    }
}

/// Total time spent in delays over the first i planned actions, in
/// milliseconds: the moment on the wall clock at which action i starts.
pub open spec fn elapsed_before(i: nat) -> nat
    decreases i,
{
    if i == 0 {
        0
    } else {
        elapsed_before((i - 1) as nat) + match planned_action((i - 1) as nat) {
            Action::WaitMs(d) => d as nat,
            _ => 0,
        }
    }
}

/// The level the output line holds once the first i planned actions are
/// done (the line rests low until first driven).
pub open spec fn line_before(i: nat) -> Level
    decreases i,
{
    if i == 0 {
        Level::Low
    } else {
        match planned_action((i - 1) as nat) {
            Action::SetLevel(l) => l,
            _ => line_before((i - 1) as nat),
        }
    }
}

/// The plan is periodic: from the first drive of the line onward, every
/// action repeats four actions later, forever.
pub proof fn lemma_planned_periodic(i: nat)
    requires
        3 <= i,
    ensures
        planned_action(i + 4) == planned_action(i),
    decreases i,
{
    if i >= 7 {
        lemma_planned_periodic((i - 4) as nat);
    }
}

/// From the first drive onward, the plan is the four-action cycle read off
/// at position (i - 3) % 4.
pub proof fn lemma_planned_cycle_form(i: nat)
    requires
        3 <= i,
    ensures
        planned_action(i) == planned_action((3 + (i - 3) % 4) as nat),
    decreases i,
{
    if i >= 7 {
        lemma_planned_cycle_form((i - 4) as nat);
        assert((i - 3) % 4 == (i - 7) % 4);
    }
}

/// Ordering at startup: the clock tree is configured by the very first
/// action, and every blocking delay comes strictly after it (the earliest
/// delay is action 4), so no wait is ever timed against an unconfigured
/// clock.
pub proof fn lemma_clock_before_wait(i: nat)
    ensures
        planned_action(0) == Action::ConfigureClock(bitsys_conf()),
        is_wait(planned_action(i)) ==> 4 <= i,
    decreases i,
{
    if i >= 7 {
        lemma_clock_before_wait((i - 4) as nat);
    }
}

/// The exact schedule of the k-th full period: the line is driven high at
/// exactly 1000*k ms of accumulated delay, held for 500 ms, driven low, and
/// held for another 500 ms. The period boundary falls on an exact multiple
/// of a second for every k, so repetition accumulates no drift.
pub proof fn lemma_cycle_schedule(k: nat)
    ensures
        planned_action(3 + 4 * k) == Action::SetLevel(Level::High),
        planned_action(4 + 4 * k) == Action::WaitMs(HALF_PERIOD_MS),
        planned_action(5 + 4 * k) == Action::SetLevel(Level::Low),
        planned_action(6 + 4 * k) == Action::WaitMs(HALF_PERIOD_MS),
        elapsed_before(3 + 4 * k) == 1000 * k,
        elapsed_before(4 + 4 * k) == 1000 * k,
        elapsed_before(5 + 4 * k) == 1000 * k + 500,
        elapsed_before(6 + 4 * k) == 1000 * k + 500,
        elapsed_before(7 + 4 * k) == 1000 * k + 1000,
        line_before(4 + 4 * k) == Level::High,
        line_before(5 + 4 * k) == Level::High,
        line_before(6 + 4 * k) == Level::Low,
        line_before(7 + 4 * k) == Level::Low,
    decreases k,
{
    if k == 0 {
        assert(elapsed_before(0) == 0);
        assert(line_before(0) == Level::Low);
        assert(elapsed_before(1) == 0);
        assert(elapsed_before(2) == 0);
        assert(elapsed_before(3) == 0);
        assert(elapsed_before(4) == 0);
        assert(elapsed_before(5) == 500);
        assert(elapsed_before(6) == 500);
        assert(elapsed_before(7) == 1000);
        assert(line_before(1) == Level::Low);
        assert(line_before(2) == Level::Low);
        assert(line_before(3) == Level::Low);
        assert(line_before(4) == Level::High);
        assert(line_before(5) == Level::High);
        assert(line_before(6) == Level::Low);
        assert(line_before(7) == Level::Low);
    } else {
        lemma_cycle_schedule((k - 1) as nat);
        assert(elapsed_before(3 + 4 * k) == 1000 * k);
        assert(elapsed_before(4 + 4 * k) == elapsed_before(3 + 4 * k));
        assert(elapsed_before(5 + 4 * k) == elapsed_before(4 + 4 * k) + 500);
        assert(elapsed_before(6 + 4 * k) == elapsed_before(5 + 4 * k));
        assert(elapsed_before(7 + 4 * k) == elapsed_before(6 + 4 * k) + 500);
        assert(line_before(4 + 4 * k) == Level::High);
        assert(line_before(5 + 4 * k) == line_before(4 + 4 * k));
        assert(line_before(6 + 4 * k) == Level::Low);
        assert(line_before(7 + 4 * k) == line_before(6 + 4 * k));
    }
}

/// Alternation: consecutive holds of the line carry opposite levels, within
/// a period and across its boundary, forever.
pub proof fn lemma_alternation(k: nat)
    ensures
        line_before(6 + 4 * k) == spec_toggled(line_before(4 + 4 * k)),
        line_before(4 + 4 * (k + 1)) == spec_toggled(line_before(6 + 4 * k)),
{
    lemma_cycle_schedule(k);
    lemma_cycle_schedule(k + 1);
}

/// The signal the program is meant to produce: high throughout every even
/// half-second of accumulated delay, low throughout every odd one.
pub open spec fn ideal_line(t_ms: nat) -> Level {
    if (t_ms / 500) % 2 == 0 {
        Level::High
    } else {
        Level::Low
    }
}

/// Whether the plan's action i is a delay in progress at wall-clock moment
/// t (in ms of accumulated delay).
pub open spec fn wait_covers(i: nat, t: nat) -> bool {
    &&& is_wait(planned_action(i))
    &&& elapsed_before(i) <= t < elapsed_before(i + 1)
}

/// At every moment t some delay of the plan is in progress, and the line
/// holds exactly `ideal_line(t)` throughout it: high on [1000k, 1000k+500),
/// low on [1000k+500, 1000k+1000), with exactly one transition between
/// consecutive delays.
pub proof fn lemma_level_at_time(t: nat)
    ensures
        exists|i: nat| #[trigger] wait_covers(i, t) && line_before(i) == ideal_line(t),
{
    let k = t / 1000;
    let r = t % 1000;
    lemma_cycle_schedule(k);
    assert(t == 1000 * k + r) by {
        vstd::arithmetic::div_mod::lemma_fundamental_div_mod(t as int, 1000);
    }
    if r < 500 {
        let i = 4 + 4 * k;
        assert(t / 500 == 2 * k) by (nonlinear_arith)
            requires
                t == 1000 * k + r,
                r < 500,
        ;
        assert((2 * k) % 2 == 0) by (nonlinear_arith);
        assert(wait_covers(i, t) && line_before(i) == ideal_line(t));
    } else {
        let i = 6 + 4 * k;
        assert(t / 500 == 2 * k + 1) by (nonlinear_arith)
            requires
                t == 1000 * k + r,
                500 <= r < 1000,
        ;
        assert((2 * k + 1) % 2 == 1) by (nonlinear_arith);
        assert(wait_covers(i, t) && line_before(i) == ideal_line(t));
    }
}

/// The controller that issues the program's actions in order. It holds only
/// how many actions it has issued so far; everything it does is determined
/// by that count through `planned_action`.
pub struct Blinky {
    steps: u64,
}

impl Blinky {
    /// How many actions have been issued since power-on.
    pub closed spec fn count(self) -> nat {
        self.steps as nat
    }

    /// A fresh controller, as at power-on: nothing issued yet.
    pub fn new() -> (b: Blinky)
        ensures
            b.count() == 0,
    {
        Blinky { steps: 0 }
    }

    /// Exposes the action count, so a caller can see how far the plan has
    /// run.
    pub fn steps_taken(&self) -> (n: u64)
        ensures
            n as nat == self.count(),
    {
        self.steps
    }

    /// Issues the next action of the plan. The caller is expected to
    /// perform it on the hardware before asking for another.
    pub fn step(&mut self) -> (a: Action)
        requires
            old(self).count() < u64::MAX,
        ensures
            final(self).count() == old(self).count() + 1,
            a == planned_action(old(self).count()),
    {
        let i: u64 = self.steps;
        self.steps = i + 1;
        if i == 0 {
            Action::ConfigureClock(bitsys())
        } else if i == 1 {
            Action::ConfigurePin(led_pin())
        } else if i == 2 {
            Action::ConfigureTimer(delay_timer())
        } else {
            let r: u64 = (i - 3) % 4;
            proof {
                lemma_planned_cycle_form(i as nat);
            }
            if r == 0 {
                Action::SetLevel(Level::High)
            } else if r == 1 {
                Action::WaitMs(HALF_PERIOD_MS)
            } else if r == 2 {
                Action::SetLevel(Level::Low)
            } else {
                Action::WaitMs(HALF_PERIOD_MS)
            }
        }
    }
}

} // verus!
