//! Check that a USB power switch switches.
//!
//! With the switch off the bus must be near 0 V; with the switch on the bus
//! must be near 5 V and the shunt must carry no noticeable current. A port
//! that passes is switched off again.

use vstd::prelude::*;
use crate::monitor::shunt_microvolts;

verus! {

/// Time to wait after switching the port off before measuring.
pub const OFF_SETTLE_MS: u64 = 100;

/// Time to wait after switching the port on before measuring.
pub const ON_SETTLE_MS: u64 = 10;

/// Highest bus voltage that counts as switched off.
pub const MAX_OFF_BUS_MV: u16 = 8;

/// Lowest bus voltage that counts as switched on.
pub const MIN_ON_BUS_MV: u16 = 4_700;

/// Highest shunt voltage magnitude allowed with the port switched on and
/// nothing connected.
pub const MAX_SHUNT_UV: i32 = 1_000;

/// Why a port failed.
#[derive(Clone, Copy, Debug, PartialEq, Eq)]
pub enum PowerFault {
    /// The bus voltage could not be read.
    BusUnreadable,
    /// The bus voltage (mV) was too high with the port switched off.
    StillPoweredWhenOff(u16),
    /// The bus voltage (mV) was too low with the port switched on.
    NoPowerWhenOn(u16),
    /// The shunt voltage could not be read.
    ShuntUnreadable,
    /// The shunt voltage (µV) was too high with the port switched on.
    ShuntTooHigh(i32),
}

/// What a port that passed measured with its switch on.
#[derive(Clone, Copy, Debug, PartialEq, Eq)]
pub struct PowerReport {
    /// Bus voltage in mV.
    pub bus_mv: u16,
    /// Shunt voltage in µV.
    pub shunt_uv: i32,
}

/// Where a check stands.
#[derive(Clone, Copy, Debug, PartialEq, Eq)]
pub enum PowerStage {
    /// The port is to be switched off and its bus voltage read.
    SwitchOff,
    /// The port is to be switched on and its bus voltage read.
    SwitchOn,
    /// The shunt voltage is to be read; the bus read `bus_mv` when on.
    MeasureShunt { bus_mv: u16 },
    /// All measurements were good.
    Passed(PowerReport),
    /// The check failed.
    Failed(PowerFault),
}

/// What the port driver has to do next.
#[derive(Clone, Copy, Debug, PartialEq, Eq)]
pub enum PowerAction {
    /// Switch the port off, wait `settle_ms` ms, read the bus voltage and
    /// report it with `record_bus`.
    SwitchOffAndReadBus { settle_ms: u64 },
    /// Switch the port on, wait `settle_ms` ms, read the bus voltage and
    /// report it with `record_bus`.
    SwitchOnAndReadBus { settle_ms: u64 },
    /// Read the shunt voltage and report it with `record_shunt`.
    ReadShunt,
    /// Switch the port off; the port passed with these measurements.
    SwitchOffAndPass(PowerReport),
    /// The port failed; leave the switch as it is.
    Fail(PowerFault),
}

/// The stage after a bus voltage reading (`Err` when it could not be read).
/// A stage that does not wait for a bus reading ignores it.
pub open spec fn power_record_bus(s: PowerStage, reading: Result<u16, ()>) -> PowerStage {
    match s {
        PowerStage::SwitchOff => match reading {
            Err(_) => PowerStage::Failed(PowerFault::BusUnreadable),
            Ok(mv) => if mv > MAX_OFF_BUS_MV {
                PowerStage::Failed(PowerFault::StillPoweredWhenOff(mv))
            } else {
                PowerStage::SwitchOn
            },
        },
        PowerStage::SwitchOn => match reading {
            Err(_) => PowerStage::Failed(PowerFault::BusUnreadable),
            Ok(mv) => if mv < MIN_ON_BUS_MV {
                PowerStage::Failed(PowerFault::NoPowerWhenOn(mv))
            } else {
                PowerStage::MeasureShunt { bus_mv: mv }
            },
        },
        _ => s,
    }
}

/// The magnitude of a shunt voltage.
pub open spec fn magnitude(uv: int) -> int {
    if uv < 0 {
        -uv
    } else {
        uv
    }
}

/// The stage after a shunt voltage reading in units of 10 µV (`Err` when it
/// could not be read). A stage that does not wait for a shunt reading
/// ignores it.
pub open spec fn power_record_shunt(s: PowerStage, reading: Result<i16, ()>) -> PowerStage {
    match s {
        PowerStage::MeasureShunt { bus_mv } => match reading {
            Err(_) => PowerStage::Failed(PowerFault::ShuntUnreadable),
            Ok(ten_uv) => if magnitude(ten_uv * 10) > MAX_SHUNT_UV {
                PowerStage::Failed(PowerFault::ShuntTooHigh((ten_uv * 10) as i32))
            } else {
                PowerStage::Passed(PowerReport { bus_mv, shunt_uv: (ten_uv * 10) as i32 })
            },
        },
        _ => s,
    }
}

/// The action that a check in stage `s` asks for.
pub open spec fn power_action_of(s: PowerStage) -> PowerAction {
    match s {
        PowerStage::SwitchOff => PowerAction::SwitchOffAndReadBus { settle_ms: OFF_SETTLE_MS },
        PowerStage::SwitchOn => PowerAction::SwitchOnAndReadBus { settle_ms: ON_SETTLE_MS },
        PowerStage::MeasureShunt { .. } => PowerAction::ReadShunt,
        PowerStage::Passed(report) => PowerAction::SwitchOffAndPass(report),
        PowerStage::Failed(fault) => PowerAction::Fail(fault),
    }
}

/// Check of one USB power port.
pub struct PowerSwitchCheck {
    stage: PowerStage,
}

impl View for PowerSwitchCheck {
    type V = PowerStage;

    closed spec fn view(&self) -> PowerStage {
        self.stage
    }
}

impl PowerSwitchCheck {
    /// A check that has not touched the port yet.
    pub fn new() -> (c: Self)
        ensures
            c@ == PowerStage::SwitchOff,
    {
        PowerSwitchCheck { stage: PowerStage::SwitchOff }
    }

    /// What the port driver has to do next.
    pub fn action(&self) -> (a: PowerAction)
        ensures
            a == power_action_of(self@),
    {
        match self.stage {
            PowerStage::SwitchOff => PowerAction::SwitchOffAndReadBus { settle_ms: OFF_SETTLE_MS },
            PowerStage::SwitchOn => PowerAction::SwitchOnAndReadBus { settle_ms: ON_SETTLE_MS },
            PowerStage::MeasureShunt { .. } => PowerAction::ReadShunt,
            PowerStage::Passed(report) => PowerAction::SwitchOffAndPass(report),
            PowerStage::Failed(fault) => PowerAction::Fail(fault),
        }
    }

    /// Takes a bus voltage reading in mV, or `Err` when it could not be read.
    pub fn record_bus(&mut self, reading: Result<u16, ()>)
        ensures
            final(self)@ == power_record_bus(old(self)@, reading),
    {
        let next = match self.stage {
            PowerStage::SwitchOff => match reading {
                Err(_) => PowerStage::Failed(PowerFault::BusUnreadable),
                Ok(mv) => if mv > MAX_OFF_BUS_MV {
                    PowerStage::Failed(PowerFault::StillPoweredWhenOff(mv))
                } else {
                    PowerStage::SwitchOn
                },
            },
            PowerStage::SwitchOn => match reading {
                Err(_) => PowerStage::Failed(PowerFault::BusUnreadable),
                Ok(mv) => if mv < MIN_ON_BUS_MV {
                    PowerStage::Failed(PowerFault::NoPowerWhenOn(mv))
                } else {
                    PowerStage::MeasureShunt { bus_mv: mv }
                },
            },
            other => other,
        };
        self.stage = next;
    }

    /// Takes a shunt voltage reading in the monitor's unit of 10 µV, or `Err`
    /// when it could not be read.
    pub fn record_shunt(&mut self, reading: Result<i16, ()>)
        ensures
            final(self)@ == power_record_shunt(old(self)@, reading),
    {
        let next = match self.stage {
            PowerStage::MeasureShunt { bus_mv } => match reading {
                Err(_) => PowerStage::Failed(PowerFault::ShuntUnreadable),
                Ok(ten_uv) => {
                    let uv = shunt_microvolts(ten_uv);
                    let size: i32 = if uv < 0 {
                        -uv
                    } else {
                        uv
                    };
                    if size > MAX_SHUNT_UV {
                        PowerStage::Failed(PowerFault::ShuntTooHigh(uv))
                    } else {
                        PowerStage::Passed(PowerReport { bus_mv, shunt_uv: uv })
                    }
                },
            },
            other => other,
        };
        self.stage = next;
    }
}

/// The action after a full run in which the readings were, in order, the bus
/// voltage with the port off, the bus voltage with the port on and the shunt
/// voltage. Readings that a stage does not wait for are ignored.
pub open spec fn power_run(off: Result<u16, ()>, on: Result<u16, ()>, shunt: Result<i16, ()>) -> PowerAction {
    power_action_of(
        power_record_shunt(power_record_bus(power_record_bus(PowerStage::SwitchOff, off), on), shunt),
    )
}

/// The order of the steps: switch off, wait 100 ms and read; then switch
/// on, wait 10 ms and read; then read the shunt.
pub proof fn law_power_check_order(off_mv: u16, on_mv: u16)
    requires
        off_mv <= 8,
        on_mv >= 4_700,
    ensures
        power_action_of(PowerStage::SwitchOff) == (PowerAction::SwitchOffAndReadBus {
            settle_ms: 100,
        }),
        power_action_of(power_record_bus(PowerStage::SwitchOff, Ok(off_mv))) == (
        PowerAction::SwitchOnAndReadBus { settle_ms: 10 }),
        power_action_of(power_record_bus(power_record_bus(PowerStage::SwitchOff, Ok(off_mv)), Ok(on_mv)))
            == PowerAction::ReadShunt,
{
}

/// The reading taken with the port switched off decides at once: a missing
/// reading or one above 8 mV fails the port with that fault, anything else
/// goes on to switching the port on.
pub proof fn law_power_after_off_reading(off: Result<u16, ()>)
    ensures
        power_action_of(power_record_bus(PowerStage::SwitchOff, off)) == (match off {
            Err(_) => PowerAction::Fail(PowerFault::BusUnreadable),
            Ok(mv) => if mv > 8 {
                PowerAction::Fail(PowerFault::StillPoweredWhenOff(mv))
            } else {
                PowerAction::SwitchOnAndReadBus { settle_ms: 10 }
            },
        }),
{
}

/// The reading taken with the port switched on decides at once: a missing
/// reading or one below 4700 mV fails the port with that fault, anything else
/// goes on to the shunt reading.
pub proof fn law_power_after_on_reading(off_mv: u16, on: Result<u16, ()>)
    requires
        off_mv <= 8,
    ensures
        power_action_of(power_record_bus(power_record_bus(PowerStage::SwitchOff, Ok(off_mv)), on)) == (
        match on {
            Err(_) => PowerAction::Fail(PowerFault::BusUnreadable),
            Ok(mv) => if mv < 4_700 {
                PowerAction::Fail(PowerFault::NoPowerWhenOn(mv))
            } else {
                PowerAction::ReadShunt
            },
        }),
{
}

/// The shunt reading decides: a missing reading, or a shunt voltage beyond
/// ±1000 µV, fails the port; otherwise the port passes with the on reading
/// and the shunt voltage in µV, and is switched off.
pub proof fn law_power_after_shunt_reading(bus_mv: u16, shunt: Result<i16, ()>)
    ensures
        power_action_of(power_record_shunt(PowerStage::MeasureShunt { bus_mv }, shunt)) == (
        match shunt {
            Err(_) => PowerAction::Fail(PowerFault::ShuntUnreadable),
            Ok(t) => if t * 10 > 1_000 || t * 10 < -1_000 {
                PowerAction::Fail(PowerFault::ShuntTooHigh((t * 10) as i32))
            } else {
                PowerAction::SwitchOffAndPass(PowerReport { bus_mv, shunt_uv: (t * 10) as i32 })
            },
        }),
{
}

/// A reading of the kind a stage does not wait for changes nothing, and a
/// check that has reached its verdict (pass or fail) keeps it, whatever is
/// reported afterwards.
pub proof fn law_power_check_ignores_other_readings(s: PowerStage, bus: Result<u16, ()>, shunt: Result<i16, ()>)
    ensures
        (s is SwitchOff || s is SwitchOn) ==> power_record_shunt(s, shunt) == s,
        s is MeasureShunt ==> power_record_bus(s, bus) == s,
        (power_action_of(s) is SwitchOffAndPass || power_action_of(s) is Fail) ==> (
        power_record_bus(s, bus) == s && power_record_shunt(s, shunt) == s),
{
}

/// A reading handed to a check.
#[derive(Clone, Copy, Debug, PartialEq, Eq)]
pub enum PowerEvent {
    /// A bus voltage reading, for `record_bus`.
    Bus(Result<u16, ()>),
    /// A shunt voltage reading in 10 µV, for `record_shunt`.
    Shunt(Result<i16, ()>),
}

/// The stage after one reading, handed to the matching `record_*`.
pub open spec fn power_apply(s: PowerStage, e: PowerEvent) -> PowerStage {
    match e {
        PowerEvent::Bus(r) => power_record_bus(s, r),
        PowerEvent::Shunt(r) => power_record_shunt(s, r),
    }
}

/// The stage of a new check after the given readings, in order.
pub open spec fn power_after_events(events: Seq<PowerEvent>) -> PowerStage
    decreases events.len(),
{
    if events.len() == 0 {
        PowerStage::SwitchOff
    } else {
        power_apply(power_after_events(events.drop_last()), events.last())
    }
}

/// A bus reading of at most 8 mV.
pub open spec fn off_reading_good(e: PowerEvent) -> bool {
    match e {
        PowerEvent::Bus(Ok(mv)) => mv <= 8,
        _ => false,
    }
}

/// A bus reading of `mv`, at least 4700 mV.
pub open spec fn on_reading_good(e: PowerEvent, mv: u16) -> bool {
    e == PowerEvent::Bus(Ok(mv)) && mv >= 4_700
}

/// A shunt reading within ±1000 µV, which is `uv` µV.
pub open spec fn shunt_reading_good(e: PowerEvent, uv: i32) -> bool {
    match e {
        PowerEvent::Shunt(Ok(t)) => -100 <= t <= 100 && uv == t * 10,
        _ => false,
    }
}

/// What the readings so far must have held for a check to be in its stage.
pub open spec fn power_history_backs(events: Seq<PowerEvent>, s: PowerStage) -> bool {
    match s {
        PowerStage::SwitchOn => exists|i: int| 0 <= i < events.len() && #[trigger] off_reading_good(events[i]),
        PowerStage::MeasureShunt { bus_mv } => exists|i: int, j: int|
            0 <= i < j < events.len() && #[trigger] off_reading_good(events[i]) && #[trigger] on_reading_good(
                events[j],
                bus_mv,
            ),
        PowerStage::Passed(r) => exists|i: int, j: int, k: int|
            0 <= i < j < k < events.len() && #[trigger] off_reading_good(events[i])
                && #[trigger] on_reading_good(events[j], r.bus_mv) && #[trigger] shunt_reading_good(
                events[k],
                r.shunt_uv,
            ),
        _ => true,
    }
}

proof fn lemma_power_history(events: Seq<PowerEvent>)
    ensures
        power_history_backs(events, power_after_events(events)),
    decreases events.len(),
{
    if events.len() > 0 {
        let prev = events.drop_last();
        let n = prev.len() as int;
        lemma_power_history(prev);
        assert forall|i: int| 0 <= i < n implies events[i] == prev[i] by {}
        let before = power_after_events(prev);
        let e = events.last();
        let after = power_after_events(events);
        assert(events[n] == e);
        assert(after == power_apply(before, e));
        match after {
            PowerStage::SwitchOn => {
                if before is SwitchOn {
                    let i = choose|i: int| 0 <= i < prev.len() && #[trigger] off_reading_good(prev[i]);
                    assert(off_reading_good(events[i]));
                } else {
                    assert(before is SwitchOff);
                    assert(off_reading_good(events[n]));
                }
            },
            PowerStage::MeasureShunt { bus_mv } => {
                if before is SwitchOn {
                    let i = choose|i: int| 0 <= i < prev.len() && #[trigger] off_reading_good(prev[i]);
                    assert(off_reading_good(events[i]));
                    assert(on_reading_good(events[n], bus_mv));
                } else {
                    assert(before == after);
                    let (i, j) = choose|i: int, j: int|
                        0 <= i < j < prev.len() && #[trigger] off_reading_good(prev[i])
                            && #[trigger] on_reading_good(prev[j], bus_mv);
                    assert(off_reading_good(events[i]));
                    assert(on_reading_good(events[j], bus_mv));
                }
            },
            PowerStage::Passed(r) => {
                if before is MeasureShunt {
                    let b = before->bus_mv;
                    assert(r.bus_mv == b);
                    let (i, j) = choose|i: int, j: int|
                        0 <= i < j < prev.len() && #[trigger] off_reading_good(prev[i])
                            && #[trigger] on_reading_good(prev[j], b);
                    assert(off_reading_good(events[i]));
                    assert(on_reading_good(events[j], b));
                    assert(shunt_reading_good(events[n], r.shunt_uv));
                } else {
                    assert(before == after);
                    let (i, j, k) = choose|i: int, j: int, k: int|
                        0 <= i < j < k < prev.len() && #[trigger] off_reading_good(prev[i])
                            && #[trigger] on_reading_good(prev[j], r.bus_mv)
                            && #[trigger] shunt_reading_good(prev[k], r.shunt_uv);
                    assert(off_reading_good(events[i]));
                    assert(on_reading_good(events[j], r.bus_mv));
                    assert(shunt_reading_good(events[k], r.shunt_uv));
                }
            },
            _ => {},
        }
    }
}

/// Whatever readings a check is handed, in whatever order, it asks to pass
/// the port only after an off reading of at most 8 mV, then an on reading of
/// at least 4700 mV, then a shunt reading within ±1000 µV; the report holds
/// that on reading and that shunt voltage.
pub proof fn law_power_pass_needs_all_readings(events: Seq<PowerEvent>)
    ensures
        power_action_of(power_after_events(events)) is SwitchOffAndPass ==> ({
            let r = power_action_of(power_after_events(events))->SwitchOffAndPass_0;
            exists|i: int, j: int, k: int|
                0 <= i < j < k < events.len() && #[trigger] off_reading_good(events[i])
                    && #[trigger] on_reading_good(events[j], r.bus_mv) && #[trigger] shunt_reading_good(
                    events[k],
                    r.shunt_uv,
                )
        }),
{
    lemma_power_history(events);
    match power_after_events(events) {
        PowerStage::Passed(r) => {
            assert(power_action_of(power_after_events(events)) == PowerAction::SwitchOffAndPass(r));
            let (i, j, k) = choose|i: int, j: int, k: int|
                0 <= i < j < k < events.len() && #[trigger] off_reading_good(events[i])
                    && #[trigger] on_reading_good(events[j], r.bus_mv) && #[trigger] shunt_reading_good(
                    events[k],
                    r.shunt_uv,
                );
            assert(off_reading_good(events[i]) && on_reading_good(events[j], r.bus_mv)
                && shunt_reading_good(events[k], r.shunt_uv));
            let q = power_action_of(power_after_events(events))->SwitchOffAndPass_0;
            assert(q == r);
            assert(exists|i: int, j: int, k: int|
                0 <= i < j < k < events.len() && #[trigger] off_reading_good(events[i])
                    && #[trigger] on_reading_good(events[j], q.bus_mv) && #[trigger] shunt_reading_good(
                    events[k],
                    q.shunt_uv,
                ));
        },
        _ => {},
    }
}

/// A port passes exactly when all three readings succeed, the bus is at most
/// 8 mV when off, at least 4700 mV when on, and the shunt is within ±1000 µV;
/// a port that passes is switched off again. Otherwise the first reading that
/// is missing or out of bounds names the fault.
pub proof fn law_power_check_verdict(off: Result<u16, ()>, on: Result<u16, ()>, shunt: Result<i16, ()>)
    ensures
        power_run(off, on, shunt) == (match off {
            Err(_) => PowerAction::Fail(PowerFault::BusUnreadable),
            Ok(off_mv) => if off_mv > 8 {
                PowerAction::Fail(PowerFault::StillPoweredWhenOff(off_mv))
            } else {
                match on {
                    Err(_) => PowerAction::Fail(PowerFault::BusUnreadable),
                    Ok(on_mv) => if on_mv < 4_700 {
                        PowerAction::Fail(PowerFault::NoPowerWhenOn(on_mv))
                    } else {
                        match shunt {
                            Err(_) => PowerAction::Fail(PowerFault::ShuntUnreadable),
                            Ok(t) => if t * 10 > 1_000 || t * 10 < -1_000 {
                                PowerAction::Fail(PowerFault::ShuntTooHigh((t * 10) as i32))
                            } else {
                                PowerAction::SwitchOffAndPass(
                                    PowerReport { bus_mv: on_mv, shunt_uv: (t * 10) as i32 },
                                )
                            },
                        }
                    },
                }
            },
        }),
        power_run(off, on, shunt) is SwitchOffAndPass <==> ({
            &&& off is Ok && off->Ok_0 <= 8
            &&& on is Ok && on->Ok_0 >= 4_700
            &&& shunt is Ok && -100 <= shunt->Ok_0 <= 100
        }),
{
}

/// A failed check stays failed, whatever is reported afterwards.
pub proof fn law_power_check_failure_is_final(fault: PowerFault, bus: Result<u16, ()>, shunt: Result<i16, ()>)
    ensures
        power_record_bus(PowerStage::Failed(fault), bus) == PowerStage::Failed(fault),
        power_record_shunt(PowerStage::Failed(fault), shunt) == PowerStage::Failed(fault),
{
}

} // verus!
