//! Probe for a pin that is stuck at one level.
//!
//! The pin is left as an input and its internal pull resistor is switched
//! between pull-down and pull-up for [`STUCK_ROUNDS`] rounds. After each
//! switch the level is sampled. A free pin reads low under pull-down and high
//! under pull-up; any other reading marks it as stuck.

use vstd::prelude::*;

verus! {

/// Rounds of pull-down followed by pull-up that a pin goes through.
pub const STUCK_ROUNDS: u8 = 5;

/// Samples taken over all rounds: one under each pull direction per round.
pub const STUCK_SAMPLES: u8 = 2 * STUCK_ROUNDS;

/// How a pin failed the probe.
#[derive(Clone, Copy, Debug, PartialEq, Eq)]
pub enum StuckFault {
    /// The pin read high under pull-down and low under pull-up.
    WeirdlySticky,
    /// The pin read low under pull-up.
    StuckHigh,
    /// The pin read high under pull-down.
    StuckLow,
}

/// The text that reports a fault.
pub open spec fn fault_text(f: StuckFault) -> Seq<char> {
    match f {
        StuckFault::WeirdlySticky => "Weirdly sticky"@,
        StuckFault::StuckHigh => "Stuck high"@,
        StuckFault::StuckLow => "Stuck low"@,
    }
}

impl StuckFault {
    /// The human readable text of the fault.
    pub fn message(&self) -> (m: &'static str)
        ensures
            m@ == fault_text(*self),
    {
        match self {
            StuckFault::WeirdlySticky => "Weirdly sticky",
            StuckFault::StuckHigh => "Stuck high",
            StuckFault::StuckLow => "Stuck low",
        }
    }
}

/// The verdict for a pin, given whether it was ever seen low under pull-up
/// (`stuck_high`) and ever seen high under pull-down (`stuck_low`).
pub open spec fn verdict_of(stuck_high: bool, stuck_low: bool) -> Result<(), StuckFault> {
    if stuck_high && stuck_low {
        Err(StuckFault::WeirdlySticky)
    } else if stuck_high {
        Err(StuckFault::StuckHigh)
    } else if stuck_low {
        Err(StuckFault::StuckLow)
    } else {
        Ok(())
    }
}

/// Executable form of [`verdict_of`].
pub fn stuck_verdict(stuck_high: bool, stuck_low: bool) -> (r: Result<(), StuckFault>)
    ensures
        r == verdict_of(stuck_high, stuck_low),
{
    match (stuck_high, stuck_low) {
        (true, true) => Err(StuckFault::WeirdlySticky),
        (true, false) => Err(StuckFault::StuckHigh),
        (false, true) => Err(StuckFault::StuckLow),
        (false, false) => Ok(()),
    }
}

/// What the pin driver has to do next.
#[derive(Clone, Copy, Debug, PartialEq, Eq)]
pub enum StuckAction {
    /// Switch to pull-down, wait, then report the level with `record`.
    PullDown,
    /// Switch to pull-up, wait, then report the level with `record`.
    PullUp,
    /// The probe is over; this is its verdict.
    Finish(Result<(), StuckFault>),
}

/// Abstract state of a [`StuckProbe`].
pub struct StuckState {
    /// Samples recorded so far.
    pub samples: nat,
    /// Some sample under pull-down read high.
    pub stuck_low: bool,
    /// Some sample under pull-up read low.
    pub stuck_high: bool,
}

/// State of a probe that has not sampled anything.
pub open spec fn stuck_initial() -> StuckState {
    StuckState { samples: 0, stuck_low: false, stuck_high: false }
}

/// Whether the probe has taken all its samples.
pub open spec fn stuck_done(s: StuckState) -> bool {
    s.samples >= STUCK_SAMPLES
}

/// The state after one more sample that read `is_high`. Even-numbered
/// samples are taken under pull-down, odd-numbered ones under pull-up. A
/// finished probe ignores further samples.
pub open spec fn stuck_record(s: StuckState, is_high: bool) -> StuckState {
    if stuck_done(s) {
        s
    } else if s.samples % 2 == 0 {
        StuckState { samples: s.samples + 1, stuck_low: s.stuck_low || is_high, stuck_high: s.stuck_high }
    } else {
        StuckState { samples: s.samples + 1, stuck_low: s.stuck_low, stuck_high: s.stuck_high || !is_high }
    }
}

/// The action that a probe in state `s` asks for.
pub open spec fn stuck_action_of(s: StuckState) -> StuckAction {
    if stuck_done(s) {
        StuckAction::Finish(verdict_of(s.stuck_high, s.stuck_low))
    } else if s.samples % 2 == 0 {
        StuckAction::PullDown
    } else {
        StuckAction::PullUp
    }
}

/// The state of a fresh probe after the given samples, in order.
pub open spec fn stuck_after(readings: Seq<bool>) -> StuckState
    decreases readings.len(),
{
    if readings.len() == 0 {
        stuck_initial()
    } else {
        stuck_record(stuck_after(readings.drop_last()), readings.last())
    }
}

/// Some sample taken under pull-down (even position) read high.
pub open spec fn high_under_pull_down(readings: Seq<bool>) -> bool {
    exists|i: int| 0 <= i < readings.len() && i % 2 == 0 && #[trigger] readings[i]
}

/// Some sample taken under pull-up (odd position) read low.
pub open spec fn low_under_pull_up(readings: Seq<bool>) -> bool {
    exists|i: int| 0 <= i < readings.len() && i % 2 == 1 && !#[trigger] readings[i]
}

/// Probe for one pin.
pub struct StuckProbe {
    samples: u8,
    stuck_low: bool,
    stuck_high: bool,
}

impl View for StuckProbe {
    type V = StuckState;

    closed spec fn view(&self) -> StuckState {
        StuckState {
            samples: self.samples as nat,
            stuck_low: self.stuck_low,
            stuck_high: self.stuck_high,
        }
    }
}

impl StuckProbe {
    #[verifier::type_invariant]
    spec fn samples_bounded(self) -> bool {
        self.samples <= STUCK_SAMPLES
    }

    /// A probe that has not sampled the pin yet.
    pub fn new() -> (p: Self)
        ensures
            p@ == stuck_initial(),
    {
        StuckProbe { samples: 0, stuck_low: false, stuck_high: false }
    }

    /// What the pin driver has to do next.
    pub fn action(&self) -> (a: StuckAction)
        ensures
            a == stuck_action_of(self@),
    {
        if self.samples >= STUCK_SAMPLES {
            StuckAction::Finish(stuck_verdict(self.stuck_high, self.stuck_low))
        } else if self.samples % 2 == 0 {
            StuckAction::PullDown
        } else {
            StuckAction::PullUp
        }
    }

    /// Takes the level that the pin read after the last requested pull
    /// switch.
    pub fn record(&mut self, is_high: bool)
        ensures
            final(self)@ == stuck_record(old(self)@, is_high),
    {
        proof {
            use_type_invariant(&*self);
        }
        if self.samples < STUCK_SAMPLES {
            if self.samples % 2 == 0 {
                *self = StuckProbe {
                    samples: self.samples + 1,
                    stuck_low: self.stuck_low || is_high,
                    stuck_high: self.stuck_high,
                };
            } else {
                *self = StuckProbe {
                    samples: self.samples + 1,
                    stuck_low: self.stuck_low,
                    stuck_high: self.stuck_high || !is_high,
                };
            }
        }
    }
}

/// What a probe knows after at most [`STUCK_SAMPLES`] samples: their number,
/// and which of the two kinds of wrong reading occurred.
pub proof fn lemma_stuck_after(readings: Seq<bool>)
    requires
        readings.len() <= STUCK_SAMPLES,
    ensures
        stuck_after(readings) == (StuckState {
            samples: readings.len(),
            stuck_low: high_under_pull_down(readings),
            stuck_high: low_under_pull_up(readings),
        }),
    decreases readings.len(),
{
    if readings.len() > 0 {
        let prev = readings.drop_last();
        lemma_stuck_after(prev);
        let n = prev.len() as int;
        assert forall|i: int| 0 <= i < n implies prev[i] == readings[i] by {}
        if high_under_pull_down(prev) {
            let i = choose|i: int| 0 <= i < prev.len() && i % 2 == 0 && #[trigger] prev[i];
            assert(readings[i]);
        }
        if high_under_pull_down(readings) {
            let i = choose|i: int| 0 <= i < readings.len() && i % 2 == 0 && #[trigger] readings[i];
            if i < n {
                assert(prev[i]);
            }
        }
        if low_under_pull_up(prev) {
            let i = choose|i: int| 0 <= i < prev.len() && i % 2 == 1 && !#[trigger] prev[i];
            assert(!readings[i]);
        }
        if low_under_pull_up(readings) {
            let i = choose|i: int| 0 <= i < readings.len() && i % 2 == 1 && !#[trigger] readings[i];
            if i < n {
                assert(!prev[i]);
            }
        }
    }
}

/// Before the last sample, the probe alternates: pull-down for every
/// even-numbered sample, pull-up for every odd-numbered one.
pub proof fn law_stuck_probe_alternates(readings: Seq<bool>)
    requires
        readings.len() < STUCK_SAMPLES,
    ensures
        stuck_action_of(stuck_after(readings)) == (if readings.len() % 2 == 0 {
            StuckAction::PullDown
        } else {
            StuckAction::PullUp
        }),
{
    lemma_stuck_after(readings);
}

/// After exactly [`STUCK_SAMPLES`] samples the probe finishes, and a pin
/// passes if and only if it read low under every pull-down and high under
/// every pull-up; otherwise the fault names which of the two went wrong.
pub proof fn law_stuck_probe_verdict(readings: Seq<bool>)
    requires
        readings.len() == STUCK_SAMPLES,
    ensures
        stuck_action_of(stuck_after(readings)) == StuckAction::Finish(
            verdict_of(low_under_pull_up(readings), high_under_pull_down(readings)),
        ),
        stuck_action_of(stuck_after(readings)) == StuckAction::Finish(
            if low_under_pull_up(readings) && high_under_pull_down(readings) {
                Err(StuckFault::WeirdlySticky)
            } else if low_under_pull_up(readings) {
                Err(StuckFault::StuckHigh)
            } else if high_under_pull_down(readings) {
                Err(StuckFault::StuckLow)
            } else {
                Ok(())
            },
        ),
        verdict_of(low_under_pull_up(readings), high_under_pull_down(readings)) is Ok
            <==> (forall|i: int| 0 <= i < readings.len() ==> #[trigger] readings[i] == (i % 2 == 1)),
{
    lemma_stuck_after(readings);
    if forall|i: int| 0 <= i < readings.len() ==> #[trigger] readings[i] == (i % 2 == 1) {
        assert(!high_under_pull_down(readings));
        assert(!low_under_pull_up(readings));
    }
    if !high_under_pull_down(readings) && !low_under_pull_up(readings) {
        assert forall|i: int| 0 <= i < readings.len() implies #[trigger] readings[i] == (i % 2 == 1) by {
            if i % 2 == 0 {
                assert(!readings[i]);
            } else {
                assert(readings[i]);
            }
        }
    }
}

/// A finished probe keeps its verdict whatever it is told afterwards.
pub proof fn law_stuck_probe_finish_is_final(readings: Seq<bool>, extra: bool)
    requires
        stuck_done(stuck_after(readings)),
    ensures
        stuck_after(readings.push(extra)) == stuck_after(readings),
{
    assert(readings.push(extra).drop_last() == readings);
}

} // verus!
