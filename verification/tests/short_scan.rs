use shield_bsp::shorts::{ScanAction, ShortScan};

/// Runs a scan over `n` pins where `connected(i, j)` tells whether pin `j`
/// reads high while pin `i` is driven. Returns the reported pairs and the
/// verdict.
fn run_scan(n: usize, connected: impl Fn(usize, usize) -> bool) -> (Vec<(usize, usize)>, Result<(), ()>) {
    let mut scan = ShortScan::new(n);
    let mut pairs = Vec::new();
    let mut driven_order = Vec::new();
    loop {
        match scan.action() {
            ScanAction::Drive(i) => {
                driven_order.push(i);
                let levels: Vec<bool> = (0..n).map(|j| connected(i, j)).collect();
                for j in scan.record_row(&levels) {
                    pairs.push((i, j));
                }
            }
            ScanAction::Finish(r) => {
                assert_eq!(driven_order, (0..n).collect::<Vec<_>>());
                return (pairs, r);
            }
        }
    }
}

#[test]
fn no_shorts_passes() {
    let (pairs, r) = run_scan(22, |_, _| false);
    assert!(pairs.is_empty());
    assert_eq!(r, Ok(()));
}

#[test]
fn driven_pin_reading_high_is_not_a_short() {
    // The driven pin itself reads high; that is expected.
    let (pairs, r) = run_scan(5, |i, j| i == j);
    assert!(pairs.is_empty());
    assert_eq!(r, Ok(()));
}

#[test]
fn short_is_reported_from_both_sides() {
    let (pairs, r) = run_scan(6, |i, j| i == j || (i == 1 && j == 4) || (i == 4 && j == 1));
    assert_eq!(pairs, vec![(1, 4), (4, 1)]);
    assert_eq!(r, Err(()));
}

#[test]
fn partners_come_in_increasing_order() {
    let mut scan = ShortScan::new(5);
    assert_eq!(scan.action(), ScanAction::Drive(0));
    let partners = scan.record_row(&vec![true, false, true, true, false]);
    assert_eq!(partners, vec![2, 3]);
    assert_eq!(scan.action(), ScanAction::Drive(1));
}

#[test]
fn empty_pin_set_finishes_at_once() {
    let scan = ShortScan::new(0);
    assert_eq!(scan.action(), ScanAction::Finish(Ok(())));
}

#[test]
fn more_connections_never_pass() {
    let (_, fewer) = run_scan(4, |i, j| (i == 0 && j == 2));
    let (_, more) = run_scan(4, |i, j| (i == 0 && j == 2) || (i == 3 && j == 1));
    assert_eq!(fewer, Err(()));
    assert_eq!(more, Err(()));
}

#[test]
fn pin_order_does_not_matter() {
    // Pins 1 and 3 connected; the same board scanned in reverse pin order.
    let connected = |i: usize, j: usize| (i == 1 && j == 3) || (i == 3 && j == 1);
    let (pairs, r) = run_scan(5, connected);
    let (rev_pairs, rev_r) = run_scan(5, |i, j| connected(4 - i, 4 - j));
    assert_eq!(r, rev_r);
    assert_eq!(pairs, vec![(1, 3), (3, 1)]);
    assert_eq!(rev_pairs, vec![(1, 3), (3, 1)]);
}
