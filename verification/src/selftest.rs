//! Order and verdict of the shield's self test.
//!
//! Every pin to the device under test is checked for being stuck, the first
//! [`INTERCONNECT_PIN_COUNT`] of them are checked for shorts between each
//! other, and both USB power ports are checked. The self test fails if any
//! of these checks fails, but every check is run regardless.

use vstd::prelude::*;
use crate::usb_power::USB_PORT_COUNT;

verus! {

/// Number of pins, from the start of the list, that are scanned for shorts.
/// On the shield's list (see [`shield_selftest_gpios`]) these are A0..A6 and
/// D00..D14; D15 and the alternative routes of D10..D13, which would show up
/// as shorted to D10..D13, are not scanned.
pub const INTERCONNECT_PIN_COUNT: usize = 22;

/// Settling time in µs for the short scan.
pub const SHORT_SETTLE_US: u64 = 10_000;

/// First GPIO number of the slow (analog capable) pins.
pub const SLOW_PIN_FIRST_GPIO: u8 = 40;

/// Settling time in µs for a stuck check of a slow pin.
pub const SLOW_PIN_SETTLE_US: u64 = 10_000;

/// Settling time in µs for a stuck check of any other pin.
pub const FAST_PIN_SETTLE_US: u64 = 10;

/// Settling time in µs between switching a pull resistor and sampling the
/// pin with GPIO number `gpio`.
pub open spec fn stuck_settle_spec(gpio: u8) -> u64 {
    if gpio >= SLOW_PIN_FIRST_GPIO {
        SLOW_PIN_SETTLE_US
    } else {
        FAST_PIN_SETTLE_US
    }
}

/// Settling time in µs between switching a pull resistor and sampling the
/// pin with GPIO number `gpio`: pins from GPIO 40 on get 10 ms, the others
/// 10 µs.
pub fn stuck_settle_us(gpio: u8) -> (us: u64)
    ensures
        us == stuck_settle_spec(gpio),
{
    if gpio >= SLOW_PIN_FIRST_GPIO {
        SLOW_PIN_SETTLE_US
    } else {
        FAST_PIN_SETTLE_US
    }
}

/// The check a self test is at.
#[derive(Clone, Copy, Debug, PartialEq, Eq)]
pub enum SelfTestStep {
    /// Stuck check of the pin at this position of the list.
    StuckPin(usize),
    /// Short scan over the first pins of the list.
    Shorts,
    /// Check of this USB power port.
    UsbPort(usize),
    /// All checks are done.
    Done,
}

/// What the test driver has to do next; after each check it reports with
/// `record` whether the check passed.
#[derive(Clone, Copy, Debug, PartialEq, Eq)]
pub enum SelfTestAction {
    /// Check the pin at `position` for being stuck, waiting `settle_us` µs
    /// before each sample.
    CheckStuck { position: usize, settle_us: u64 },
    /// Scan the first `count` pins for shorts, waiting `settle_us` µs after
    /// driving and after sampling.
    CheckShorts { count: usize, settle_us: u64 },
    /// Check this USB power port.
    CheckUsbPort(usize),
    /// The self test is over; `Err` if any check failed.
    Finish(Result<(), ()>),
}

/// Abstract state of a [`SelfTest`].
pub struct SelfTestState {
    /// GPIO numbers of the pins to check, in order.
    pub gpios: Seq<u8>,
    /// The current check.
    pub step: SelfTestStep,
    /// Some check has failed.
    pub failed: bool,
}

/// The check that follows `step` in a self test over `pin_count` pins.
pub open spec fn next_step(pin_count: nat, step: SelfTestStep) -> SelfTestStep {
    match step {
        SelfTestStep::StuckPin(k) => if k + 1 < pin_count {
            SelfTestStep::StuckPin((k + 1) as usize)
        } else {
            SelfTestStep::Shorts
        },
        SelfTestStep::Shorts => SelfTestStep::UsbPort(0),
        SelfTestStep::UsbPort(p) => if p + 1 < USB_PORT_COUNT {
            SelfTestStep::UsbPort((p + 1) as usize)
        } else {
            SelfTestStep::Done
        },
        SelfTestStep::Done => SelfTestStep::Done,
    }
}

/// The check a self test over `pin_count` pins is at after `k` checks.
pub open spec fn step_at(pin_count: nat, k: nat) -> SelfTestStep {
    if k < pin_count {
        SelfTestStep::StuckPin(k as usize)
    } else if k == pin_count {
        SelfTestStep::Shorts
    } else if k < pin_count + 1 + USB_PORT_COUNT {
        SelfTestStep::UsbPort((k - pin_count - 1) as usize)
    } else {
        SelfTestStep::Done
    }
}

/// Number of checks in a self test over `pin_count` pins.
pub open spec fn check_count(pin_count: nat) -> nat {
    pin_count + 1 + USB_PORT_COUNT as nat
}

/// The state after the current check reported `passed`. A finished self
/// test ignores further reports.
pub open spec fn selftest_record(s: SelfTestState, passed: bool) -> SelfTestState {
    if s.step is Done {
        s
    } else {
        SelfTestState {
            gpios: s.gpios,
            step: next_step(s.gpios.len(), s.step),
            failed: s.failed || !passed,
        }
    }
}

/// The action that a self test in state `s` asks for.
pub open spec fn selftest_action_of(s: SelfTestState) -> SelfTestAction {
    match s.step {
        SelfTestStep::StuckPin(k) => SelfTestAction::CheckStuck {
            position: k,
            settle_us: stuck_settle_spec(s.gpios[k as int]),
        },
        SelfTestStep::Shorts => SelfTestAction::CheckShorts {
            count: INTERCONNECT_PIN_COUNT,
            settle_us: SHORT_SETTLE_US,
        },
        SelfTestStep::UsbPort(p) => SelfTestAction::CheckUsbPort(p),
        SelfTestStep::Done => SelfTestAction::Finish(
            if s.failed {
                Err(())
            } else {
                Ok(())
            },
        ),
    }
}

/// State of a new self test over the pins with these GPIO numbers.
pub open spec fn selftest_initial(gpios: Seq<u8>) -> SelfTestState {
    SelfTestState { gpios, step: SelfTestStep::StuckPin(0), failed: false }
}

/// The state of a new self test over `gpios` after the given check results,
/// in order.
pub open spec fn selftest_after(gpios: Seq<u8>, outcomes: Seq<bool>) -> SelfTestState
    decreases outcomes.len(),
{
    if outcomes.len() == 0 {
        selftest_initial(gpios)
    } else {
        selftest_record(selftest_after(gpios, outcomes.drop_last()), outcomes.last())
    }
}

/// Some check result was a failure.
pub open spec fn any_failed(outcomes: Seq<bool>) -> bool {
    exists|i: int| 0 <= i < outcomes.len() && !#[trigger] outcomes[i]
}

/// Self test of the shield.
pub struct SelfTest {
    gpios: Vec<u8>,
    step: SelfTestStep,
    failed: bool,
}

impl View for SelfTest {
    type V = SelfTestState;

    closed spec fn view(&self) -> SelfTestState {
        SelfTestState { gpios: self.gpios@, step: self.step, failed: self.failed }
    }
}

impl SelfTest {
    #[verifier::type_invariant]
    spec fn well_formed(self) -> bool {
        &&& self.gpios.len() >= INTERCONNECT_PIN_COUNT
        &&& match self.step {
            SelfTestStep::StuckPin(k) => k < self.gpios.len(),
            SelfTestStep::UsbPort(p) => p < USB_PORT_COUNT,
            _ => true,
        }
    }

    /// A self test over the pins with these GPIO numbers, in the order in
    /// which they are checked. The first [`INTERCONNECT_PIN_COUNT`] of them
    /// are the ones scanned for shorts.
    pub fn new(gpios: Vec<u8>) -> (t: Self)
        requires
            gpios.len() >= INTERCONNECT_PIN_COUNT,
        ensures
            t@ == selftest_initial(gpios@),
    {
        SelfTest { gpios, step: SelfTestStep::StuckPin(0), failed: false }
    }

    /// What the test driver has to do next.
    pub fn action(&self) -> (a: SelfTestAction)
        ensures
            a == selftest_action_of(self@),
    {
        proof {
            use_type_invariant(self);
        }
        match self.step {
            SelfTestStep::StuckPin(k) => SelfTestAction::CheckStuck {
                position: k,
                settle_us: stuck_settle_us(self.gpios[k]),
            },
            SelfTestStep::Shorts => SelfTestAction::CheckShorts {
                count: INTERCONNECT_PIN_COUNT,
                settle_us: SHORT_SETTLE_US,
            },
            SelfTestStep::UsbPort(p) => SelfTestAction::CheckUsbPort(p),
            SelfTestStep::Done => SelfTestAction::Finish(
                if self.failed {
                    Err(())
                } else {
                    Ok(())
                },
            ),
        }
    }

    /// Takes whether the check that `action` asked for passed.
    pub fn record(&mut self, passed: bool)
        ensures
            final(self)@ == selftest_record(old(self)@, passed),
    {
        proof {
            use_type_invariant(&*self);
        }
        let next = match self.step {
            SelfTestStep::StuckPin(k) => if k + 1 < self.gpios.len() {
                SelfTestStep::StuckPin(k + 1)
            } else {
                SelfTestStep::Shorts
            },
            SelfTestStep::Shorts => SelfTestStep::UsbPort(0),
            SelfTestStep::UsbPort(p) => if p + 1 < USB_PORT_COUNT {
                SelfTestStep::UsbPort(p + 1)
            } else {
                SelfTestStep::Done
            },
            SelfTestStep::Done => SelfTestStep::Done,
        };
        let finished = match self.step {
            SelfTestStep::Done => true,
            _ => false,
        };
        if !finished {
            self.step = next;
            self.failed = self.failed || !passed;
        }
    }
}

/// After at most all checks, a self test is at the check that follows the
/// reported ones, and has failed exactly when some reported check failed.
pub proof fn lemma_selftest_after(gpios: Seq<u8>, outcomes: Seq<bool>)
    requires
        INTERCONNECT_PIN_COUNT <= gpios.len() <= usize::MAX,
        outcomes.len() <= check_count(gpios.len()),
    ensures
        selftest_after(gpios, outcomes) == (SelfTestState {
            gpios,
            step: step_at(gpios.len(), outcomes.len()),
            failed: any_failed(outcomes),
        }),
    decreases outcomes.len(),
{
    if outcomes.len() > 0 {
        let prev = outcomes.drop_last();
        lemma_selftest_after(gpios, prev);
        assert(next_step(gpios.len(), step_at(gpios.len(), prev.len())) == step_at(
            gpios.len(),
            outcomes.len(),
        ));
        assert forall|i: int| 0 <= i < prev.len() implies prev[i] == outcomes[i] by {}
        if any_failed(prev) {
            let i = choose|i: int| 0 <= i < prev.len() && !#[trigger] prev[i];
            assert(!outcomes[i]);
        }
        if any_failed(outcomes) {
            let i = choose|i: int| 0 <= i < outcomes.len() && !#[trigger] outcomes[i];
            if i < prev.len() {
                assert(!prev[i]);
            }
        }
    }
}

/// The checks run in a fixed order: each pin for being stuck, in list order
/// and with its own settling time; then the short scan over the first
/// [`INTERCONNECT_PIN_COUNT`] pins; then each USB power port in turn. Every
/// check is run even after another one failed.
pub proof fn law_selftest_order(gpios: Seq<u8>, outcomes: Seq<bool>)
    requires
        INTERCONNECT_PIN_COUNT <= gpios.len() <= usize::MAX,
        outcomes.len() < check_count(gpios.len()),
    ensures
        selftest_action_of(selftest_after(gpios, outcomes)) == (if outcomes.len() < gpios.len() {
            SelfTestAction::CheckStuck {
                position: outcomes.len() as usize,
                settle_us: stuck_settle_spec(gpios[outcomes.len() as int]),
            }
        } else if outcomes.len() == gpios.len() {
            SelfTestAction::CheckShorts { count: INTERCONNECT_PIN_COUNT, settle_us: SHORT_SETTLE_US }
        } else {
            SelfTestAction::CheckUsbPort((outcomes.len() - gpios.len() - 1) as usize)
        }),
{
    lemma_selftest_after(gpios, outcomes);
}

/// After every check has reported, the self test passes exactly when every
/// check passed.
pub proof fn law_selftest_verdict(gpios: Seq<u8>, outcomes: Seq<bool>)
    requires
        INTERCONNECT_PIN_COUNT <= gpios.len() <= usize::MAX,
        outcomes.len() == check_count(gpios.len()),
    ensures
        selftest_action_of(selftest_after(gpios, outcomes)) == SelfTestAction::Finish(
            if any_failed(outcomes) {
                Err(())
            } else {
                Ok(())
            },
        ),
        !any_failed(outcomes) <==> (forall|i: int| 0 <= i < outcomes.len() ==> #[trigger] outcomes[i]),
{
    lemma_selftest_after(gpios, outcomes);
}

/// Every pin from GPIO 40 on is given 10 ms to settle in the stuck check,
/// every pin below GPIO 40 is given 10 µs.
pub proof fn law_stuck_settle_times(gpio: u8)
    ensures
        gpio >= 40 ==> stuck_settle_spec(gpio) == 10_000,
        gpio < 40 ==> stuck_settle_spec(gpio) == 10,
{
}

/// In the self test, each pin is stuck-checked with the settling time its
/// GPIO number calls for (10 ms from GPIO 40 on, 10 µs below), and the short
/// scan covers the first 22 pins with 10 ms settling.
pub proof fn law_selftest_settle_times(gpios: Seq<u8>, outcomes: Seq<bool>)
    requires
        22 <= gpios.len() <= usize::MAX,
        outcomes.len() <= gpios.len(),
    ensures
        outcomes.len() < gpios.len() ==> selftest_action_of(selftest_after(gpios, outcomes)) == (
        SelfTestAction::CheckStuck {
            position: outcomes.len() as usize,
            settle_us: if gpios[outcomes.len() as int] >= 40 {
                10_000
            } else {
                10
            },
        }),
        outcomes.len() == gpios.len() ==> selftest_action_of(selftest_after(gpios, outcomes)) == (
        SelfTestAction::CheckShorts { count: 22, settle_us: 10_000 }),
{
    lemma_selftest_after(gpios, outcomes);
}

/// Number of pins to the device under test that the shield checks.
pub const SHIELD_SELFTEST_PIN_COUNT: usize = 27;

/// GPIO number of the pin at position `k` of the shield's self-test list:
/// A0..A6 (GPIO 40..46), D00..D15 (GPIO 0..15), then the alternative routes
/// of D10, D11, D12, D13 (GPIO 25, 24, 27, 26).
pub open spec fn shield_gpio_at(k: int) -> u8 {
    if k < 7 {
        (40 + k) as u8
    } else if k < 23 {
        (k - 7) as u8
    } else if k == 23 {
        25
    } else if k == 24 {
        24
    } else if k == 25 {
        27
    } else {
        26
    }
}

/// The GPIO numbers of the shield's pins to the device under test, in the
/// order in which the self test checks them.
pub fn shield_selftest_gpios() -> (g: Vec<u8>)
    ensures
        g@ == Seq::new(SHIELD_SELFTEST_PIN_COUNT as nat, |k: int| shield_gpio_at(k)),
{
    let mut g: Vec<u8> = Vec::new();
    let mut a: u8 = 40;
    while a <= 46
        invariant
            40 <= a <= 47,
            g@ == Seq::new((a - 40) as nat, |k: int| shield_gpio_at(k)),
        decreases 47 - a,
    {
        g.push(a);
        a += 1;
    }
    let mut d: u8 = 0;
    while d <= 15
        invariant
            d <= 16,
            g@ == Seq::new((d + 7) as nat, |k: int| shield_gpio_at(k)),
        decreases 16 - d,
    {
        g.push(d);
        d += 1;
    }
    g.push(25);
    g.push(24);
    g.push(27);
    g.push(26);
    assert(g@ =~= Seq::new(SHIELD_SELFTEST_PIN_COUNT as nat, |k: int| shield_gpio_at(k)));
    g
}

/// The shield's self-test list has enough pins for the short scan, names
/// every pin once, and keeps the alternative routes (GPIO 24..27) out of the
/// scanned prefix; the one other pin left out of the scan is D15 (GPIO 15).
pub proof fn law_shield_selftest_gpios()
    ensures
        SHIELD_SELFTEST_PIN_COUNT >= INTERCONNECT_PIN_COUNT,
        forall|i: int, j: int|
            0 <= i < j < SHIELD_SELFTEST_PIN_COUNT ==> shield_gpio_at(i) != shield_gpio_at(j),
        forall|i: int|
            0 <= i < INTERCONNECT_PIN_COUNT ==> !(24 <= #[trigger] shield_gpio_at(i) <= 27)
                && shield_gpio_at(i) != 15,
        forall|i: int|
            INTERCONNECT_PIN_COUNT <= i < SHIELD_SELFTEST_PIN_COUNT ==> (#[trigger] shield_gpio_at(i) == 15
                || 24 <= shield_gpio_at(i) <= 27),
{
}

} // verus!
