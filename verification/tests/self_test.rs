use shield_bsp::selftest::{
    shield_selftest_gpios, stuck_settle_us, SelfTest, SelfTestAction, INTERCONNECT_PIN_COUNT,
};

/// GPIO numbers of the device-under-test pins in the order the shield checks
/// them: A0..A6, D00..D15, then the alternative routes of D10..D13.
fn shield_gpios() -> Vec<u8> {
    shield_selftest_gpios()
}

#[test]
fn shield_pin_list() {
    let mut expected: Vec<u8> = (40..=46).collect();
    expected.extend(0..=15u8);
    expected.extend([25, 24, 27, 26]);
    assert_eq!(shield_selftest_gpios(), expected);
    // The scanned prefix ends with D14; D15 and the alternative routes follow.
    assert_eq!(shield_selftest_gpios()[INTERCONNECT_PIN_COUNT - 1], 14);
    assert_eq!(shield_selftest_gpios()[INTERCONNECT_PIN_COUNT], 15);
}

fn run(outcome: impl Fn(&SelfTestAction) -> bool) -> Vec<SelfTestAction> {
    let mut t = SelfTest::new(shield_gpios());
    let mut actions = Vec::new();
    loop {
        let a = t.action();
        actions.push(a);
        if let SelfTestAction::Finish(_) = a {
            return actions;
        }
        t.record(outcome(&a));
    }
}

#[test]
fn all_checks_in_order_and_pass() {
    let gpios = shield_gpios();
    let actions = run(|_| true);
    assert_eq!(actions.len(), gpios.len() + 4);
    for (k, g) in gpios.iter().enumerate() {
        assert_eq!(actions[k], SelfTestAction::CheckStuck { position: k, settle_us: stuck_settle_us(*g) });
    }
    assert_eq!(actions[0], SelfTestAction::CheckStuck { position: 0, settle_us: 10_000 });
    assert_eq!(actions[7], SelfTestAction::CheckStuck { position: 7, settle_us: 10 });
    let n = gpios.len();
    assert_eq!(actions[n], SelfTestAction::CheckShorts { count: INTERCONNECT_PIN_COUNT, settle_us: 10_000 });
    assert_eq!(actions[n + 1], SelfTestAction::CheckUsbPort(0));
    assert_eq!(actions[n + 2], SelfTestAction::CheckUsbPort(1));
    assert_eq!(actions[n + 3], SelfTestAction::Finish(Ok(())));
}

#[test]
fn one_stuck_pin_fails_but_everything_runs() {
    let actions = run(|a| !matches!(a, SelfTestAction::CheckStuck { position: 3, .. }));
    assert_eq!(actions.len(), shield_gpios().len() + 4);
    assert_eq!(actions.last(), Some(&SelfTestAction::Finish(Err(()))));
}

#[test]
fn shorts_fail_the_self_test() {
    let actions = run(|a| !matches!(a, SelfTestAction::CheckShorts { .. }));
    assert_eq!(actions.last(), Some(&SelfTestAction::Finish(Err(()))));
}

#[test]
fn broken_usb_port_fails_the_self_test() {
    let actions = run(|a| *a != SelfTestAction::CheckUsbPort(1));
    assert_eq!(actions.last(), Some(&SelfTestAction::Finish(Err(()))));
}

#[test]
fn settle_times() {
    assert_eq!(stuck_settle_us(0), 10);
    assert_eq!(stuck_settle_us(39), 10);
    assert_eq!(stuck_settle_us(40), 10_000);
    assert_eq!(stuck_settle_us(46), 10_000);
}

#[test]
fn finished_self_test_ignores_reports() {
    let mut t = SelfTest::new(shield_gpios());
    for _ in 0..shield_gpios().len() + 3 {
        t.record(true);
    }
    assert_eq!(t.action(), SelfTestAction::Finish(Ok(())));
    t.record(false);
    assert_eq!(t.action(), SelfTestAction::Finish(Ok(())));
}
