use blinky::blink::toggled;
use blinky::blink::Action;
use blinky::blink::Blinky;
use blinky::blink::Level;
use blinky::config::bitsys;
use blinky::config::delay_timer;
use blinky::config::led_pin;

#[test]
fn toggled_flips() {
    assert_eq!(toggled(Level::High), Level::Low);
    assert_eq!(toggled(Level::Low), Level::High);
    assert_eq!(toggled(toggled(Level::High)), Level::High);
}

#[test]
fn steps_taken_counts() {
    let mut b = Blinky::new();
    assert_eq!(b.steps_taken(), 0);
    b.step();
    b.step();
    assert_eq!(b.steps_taken(), 2);
}

#[test]
fn power_on_sequence() {
    let mut b = Blinky::new();
    let mut actions: Vec<Action> = Vec::new();
    for _ in 0..11 {
        actions.push(b.step());
    }
    assert_eq!(
        actions,
        vec![
            Action::ConfigureClock(bitsys()),
            Action::ConfigurePin(led_pin()),
            Action::ConfigureTimer(delay_timer()),
            Action::SetLevel(Level::High),
            Action::WaitMs(500),
            Action::SetLevel(Level::Low),
            Action::WaitMs(500),
            Action::SetLevel(Level::High),
            Action::WaitMs(500),
            Action::SetLevel(Level::Low),
            Action::WaitMs(500),
        ]
    );
}

// Runs the controller until `observe_ms` milliseconds of delay have been
// simulated and records, for each wait, the interval it spans and the level
// the line held throughout it.
fn observed_segments(observe_ms: u64) -> Vec<(u64, u64, Level)> {
    let mut b = Blinky::new();
    let mut elapsed: u64 = 0;
    let mut level = Level::Low;
    let mut segments: Vec<(u64, u64, Level)> = Vec::new();
    while elapsed < observe_ms {
        match b.step() {
            Action::SetLevel(l) => level = l,
            Action::WaitMs(d) => {
                segments.push((elapsed, elapsed + d as u64, level));
                elapsed += d as u64;
            }
            _ => {}
        }
    }
    segments
}

#[test]
fn two_second_observation() {
    // From power-on, watching the line for 2000 ms shows exactly
    // HIGH, LOW, HIGH, LOW in four half-second phases.
    let segments = observed_segments(2000);
    assert_eq!(
        segments,
        vec![
            (0, 500, Level::High),
            (500, 1000, Level::Low),
            (1000, 1500, Level::High),
            (1500, 2000, Level::Low),
        ]
    );
}

#[test]
fn repeated_cycles_do_not_drift() {
    // Each of 50 periods starts at an exact multiple of 1000 ms and splits
    // into a 500 ms high phase and a 500 ms low phase: no accumulated error.
    let n: u64 = 50;
    let segments = observed_segments(1000 * n);
    assert_eq!(segments.len() as u64, 2 * n);
    for (m, seg) in segments.iter().enumerate() {
        let m = m as u64;
        let expected_level = if m % 2 == 0 { Level::High } else { Level::Low };
        assert_eq!(*seg, (500 * m, 500 * m + 500, expected_level));
    }
}

#[test]
fn line_alternates_and_never_double_transitions() {
    let mut b = Blinky::new();
    let mut drives: Vec<Level> = Vec::new();
    let mut waits_since_drive: u32 = 0;
    for i in 0..403 {
        match b.step() {
            Action::SetLevel(l) => {
                if let Some(prev) = drives.last() {
                    // Exactly one wait separates consecutive drives, and the
                    // driven level always flips.
                    assert_eq!(waits_since_drive, 1);
                    assert_eq!(l, toggled(*prev));
                }
                drives.push(l);
                waits_since_drive = 0;
            }
            Action::WaitMs(d) => {
                assert_eq!(d, 500);
                waits_since_drive += 1;
            }
            _ => assert!(i < 3, "configuration only happens at power-on"),
        }
    }
    assert_eq!(drives.first(), Some(&Level::High));
    assert_eq!(drives.len(), 200);
}

#[test]
fn clock_is_configured_before_first_wait() {
    let mut b = Blinky::new();
    let mut clock_configured = false;
    for _ in 0..100 {
        match b.step() {
            Action::ConfigureClock(c) => {
                assert_eq!(c, bitsys());
                clock_configured = true;
            }
            Action::WaitMs(_) => {
                assert!(clock_configured, "a wait was issued before the clock was set up");
            }
            _ => {}
        }
    }
    assert!(clock_configured);
}
