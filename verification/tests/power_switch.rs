use shield_bsp::monitor::shunt_microvolts;
use shield_bsp::power_check::{PowerAction, PowerFault, PowerReport, PowerSwitchCheck};

/// Runs a check with the given readings; returns the actions asked for.
fn run_check(off: Result<u16, ()>, on: Result<u16, ()>, shunt: Result<i16, ()>) -> Vec<PowerAction> {
    let mut check = PowerSwitchCheck::new();
    let mut actions = Vec::new();
    let mut bus_reads = 0;
    loop {
        let a = check.action();
        actions.push(a);
        match a {
            PowerAction::SwitchOffAndReadBus { .. } | PowerAction::SwitchOnAndReadBus { .. } => {
                check.record_bus(if bus_reads == 0 { off } else { on });
                bus_reads += 1;
            }
            PowerAction::ReadShunt => check.record_shunt(shunt),
            PowerAction::SwitchOffAndPass(_) | PowerAction::Fail(_) => return actions,
        }
    }
}

#[test]
fn working_port_passes_and_is_switched_off() {
    let actions = run_check(Ok(0), Ok(5_040), Ok(-12));
    assert_eq!(
        actions,
        vec![
            PowerAction::SwitchOffAndReadBus { settle_ms: 100 },
            PowerAction::SwitchOnAndReadBus { settle_ms: 10 },
            PowerAction::ReadShunt,
            PowerAction::SwitchOffAndPass(PowerReport { bus_mv: 5_040, shunt_uv: -120 }),
        ]
    );
}

#[test]
fn boundaries_are_inclusive() {
    let actions = run_check(Ok(8), Ok(4_700), Ok(100));
    assert_eq!(
        actions.last(),
        Some(&PowerAction::SwitchOffAndPass(PowerReport { bus_mv: 4_700, shunt_uv: 1_000 }))
    );
    let actions = run_check(Ok(8), Ok(4_700), Ok(-100));
    assert_eq!(
        actions.last(),
        Some(&PowerAction::SwitchOffAndPass(PowerReport { bus_mv: 4_700, shunt_uv: -1_000 }))
    );
}

#[test]
fn unreadable_bus_when_off_fails_at_once() {
    let actions = run_check(Err(()), Ok(5_000), Ok(0));
    assert_eq!(actions.len(), 2);
    assert_eq!(actions[1], PowerAction::Fail(PowerFault::BusUnreadable));
}

#[test]
fn voltage_with_switch_off_fails() {
    let actions = run_check(Ok(12), Ok(5_000), Ok(0));
    assert_eq!(actions, vec![
        PowerAction::SwitchOffAndReadBus { settle_ms: 100 },
        PowerAction::Fail(PowerFault::StillPoweredWhenOff(12)),
    ]);
}

#[test]
fn unreadable_bus_when_on_fails() {
    let actions = run_check(Ok(0), Err(()), Ok(0));
    assert_eq!(actions.last(), Some(&PowerAction::Fail(PowerFault::BusUnreadable)));
    assert_eq!(actions.len(), 3);
}

#[test]
fn low_voltage_with_switch_on_fails() {
    let actions = run_check(Ok(0), Ok(4_699), Ok(0));
    assert_eq!(actions.last(), Some(&PowerAction::Fail(PowerFault::NoPowerWhenOn(4_699))));
}

#[test]
fn unreadable_shunt_fails() {
    let actions = run_check(Ok(0), Ok(5_000), Err(()));
    assert_eq!(actions.last(), Some(&PowerAction::Fail(PowerFault::ShuntUnreadable)));
}

#[test]
fn shunt_voltage_too_high_fails_either_sign() {
    let actions = run_check(Ok(0), Ok(5_000), Ok(101));
    assert_eq!(actions.last(), Some(&PowerAction::Fail(PowerFault::ShuntTooHigh(1_010))));
    let actions = run_check(Ok(0), Ok(5_000), Ok(-101));
    assert_eq!(actions.last(), Some(&PowerAction::Fail(PowerFault::ShuntTooHigh(-1_010))));
    let actions = run_check(Ok(0), Ok(5_000), Ok(i16::MIN));
    assert_eq!(actions.last(), Some(&PowerAction::Fail(PowerFault::ShuntTooHigh(-327_680))));
}

#[test]
fn failed_check_ignores_later_readings() {
    let mut check = PowerSwitchCheck::new();
    check.record_bus(Ok(20));
    check.record_bus(Ok(5_000));
    check.record_shunt(Ok(0));
    assert_eq!(check.action(), PowerAction::Fail(PowerFault::StillPoweredWhenOff(20)));
}

#[test]
fn reading_of_the_wrong_kind_is_ignored() {
    let mut check = PowerSwitchCheck::new();
    check.record_shunt(Ok(0));
    assert_eq!(check.action(), PowerAction::SwitchOffAndReadBus { settle_ms: 100 });
}

#[test]
fn shunt_units_are_ten_microvolts() {
    assert_eq!(shunt_microvolts(0), 0);
    assert_eq!(shunt_microvolts(7), 70);
    assert_eq!(shunt_microvolts(-32_000), -320_000);
    assert_eq!(shunt_microvolts(i16::MAX), 327_670);
}
