use shield_bsp::stuck::{stuck_verdict, StuckAction, StuckFault, StuckProbe, STUCK_SAMPLES};

/// Feeds the probe one reading per requested sample and returns the actions
/// it asked for, the last one being its verdict.
fn run_probe(readings: &[bool]) -> Vec<StuckAction> {
    let mut probe = StuckProbe::new();
    let mut actions = Vec::new();
    let mut next = 0;
    loop {
        let action = probe.action();
        actions.push(action);
        match action {
            StuckAction::Finish(_) => return actions,
            _ => {
                probe.record(readings[next]);
                next += 1;
            }
        }
    }
}

#[test]
fn free_pin_passes_after_ten_alternating_samples() {
    // A free pin reads low under pull-down and high under pull-up.
    let readings = [false, true, false, true, false, true, false, true, false, true];
    let actions = run_probe(&readings);
    assert_eq!(actions.len(), STUCK_SAMPLES as usize + 1);
    for (i, a) in actions.iter().take(10).enumerate() {
        if i % 2 == 0 {
            assert_eq!(*a, StuckAction::PullDown);
        } else {
            assert_eq!(*a, StuckAction::PullUp);
        }
    }
    assert_eq!(actions[10], StuckAction::Finish(Ok(())));
}

#[test]
fn pin_always_high_gives_stuck_low() {
    let readings = [true; 10];
    let actions = run_probe(&readings);
    assert_eq!(actions[10], StuckAction::Finish(Err(StuckFault::StuckLow)));
}

#[test]
fn pin_always_low_gives_stuck_high() {
    let readings = [false; 10];
    let actions = run_probe(&readings);
    assert_eq!(actions[10], StuckAction::Finish(Err(StuckFault::StuckHigh)));
}

#[test]
fn pin_that_follows_the_wrong_way_is_weirdly_sticky() {
    let readings = [true, false, true, false, true, false, true, false, true, false];
    let actions = run_probe(&readings);
    assert_eq!(actions[10], StuckAction::Finish(Err(StuckFault::WeirdlySticky)));
}

#[test]
fn a_single_bad_sample_in_the_last_round_fails_the_pin() {
    let readings = [false, true, false, true, false, true, false, true, false, false];
    let actions = run_probe(&readings);
    assert_eq!(actions[10], StuckAction::Finish(Err(StuckFault::StuckHigh)));
}

#[test]
fn finished_probe_ignores_further_samples() {
    let mut probe = StuckProbe::new();
    for i in 0..10 {
        probe.record(i % 2 == 1);
    }
    assert_eq!(probe.action(), StuckAction::Finish(Ok(())));
    probe.record(true);
    probe.record(false);
    assert_eq!(probe.action(), StuckAction::Finish(Ok(())));
}

#[test]
fn verdict_table() {
    assert_eq!(stuck_verdict(true, true), Err(StuckFault::WeirdlySticky));
    assert_eq!(stuck_verdict(true, false), Err(StuckFault::StuckHigh));
    assert_eq!(stuck_verdict(false, true), Err(StuckFault::StuckLow));
    assert_eq!(stuck_verdict(false, false), Ok(()));
}

#[test]
fn fault_messages() {
    assert_eq!(StuckFault::WeirdlySticky.message(), "Weirdly sticky");
    assert_eq!(StuckFault::StuckHigh.message(), "Stuck high");
    assert_eq!(StuckFault::StuckLow.message(), "Stuck low");
}
