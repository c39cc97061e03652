//! Scan for pins that are connected to each other.
//!
//! All pins start as inputs with pull-down. One pin after the other is driven
//! high; every other pin that then reads high is connected to the driven one.

use vstd::prelude::*;

verus! {

/// What the pin driver has to do next.
#[derive(Clone, Copy, Debug, PartialEq, Eq)]
pub enum ScanAction {
    /// Drive the pin at this position high, wait, report the levels of all
    /// pins with `record_row`, wait again and release the pin to input.
    Drive(usize),
    /// Every pin has been driven; `Err` if some pair was connected.
    Finish(Result<(), ()>),
}

/// Abstract state of a [`ShortScan`].
pub struct ScanState {
    /// Number of pins under test.
    pub pin_count: nat,
    /// Number of pins driven so far (pins are driven in order from 0).
    pub driven: nat,
    /// Some pin read high while another one was driven.
    pub has_short: bool,
}

/// State of a scan over `pin_count` pins before any pin was driven.
pub open spec fn scan_initial(pin_count: nat) -> ScanState {
    ScanState { pin_count, driven: 0, has_short: false }
}

/// While `driven` was driven high, some other pin read high.
pub open spec fn row_has_short(levels: Seq<bool>, driven: int) -> bool {
    exists|j: int| 0 <= j < levels.len() && j != driven && #[trigger] levels[j]
}

/// The positions below `k`, other than `driven`, that read high, in
/// increasing order.
pub open spec fn partners_below(levels: Seq<bool>, driven: int, k: int) -> Seq<usize>
    decreases k,
{
    if k <= 0 {
        Seq::empty()
    } else if k - 1 != driven && levels[k - 1] {
        partners_below(levels, driven, k - 1).push((k - 1) as usize)
    } else {
        partners_below(levels, driven, k - 1)
    }
}

/// The positions of all pins other than `driven` that read high.
pub open spec fn short_partners(levels: Seq<bool>, driven: int) -> Seq<usize> {
    partners_below(levels, driven, levels.len() as int)
}

/// The state after the levels read while the next pin was driven.
pub open spec fn scan_record(s: ScanState, levels: Seq<bool>) -> ScanState {
    ScanState {
        pin_count: s.pin_count,
        driven: s.driven + 1,
        has_short: s.has_short || row_has_short(levels, s.driven as int),
    }
}

/// The action that a scan in state `s` asks for.
pub open spec fn scan_action_of(s: ScanState) -> ScanAction {
    if s.driven < s.pin_count {
        ScanAction::Drive(s.driven as usize)
    } else if s.has_short {
        ScanAction::Finish(Err(()))
    } else {
        ScanAction::Finish(Ok(()))
    }
}

/// The state of a scan over `pin_count` pins after the given rows of levels;
/// row `i` was read while pin `i` was driven.
pub open spec fn scan_after(pin_count: nat, rows: Seq<Seq<bool>>) -> ScanState
    decreases rows.len(),
{
    if rows.len() == 0 {
        scan_initial(pin_count)
    } else {
        scan_record(scan_after(pin_count, rows.drop_last()), rows.last())
    }
}

/// Some pin `j` read high in row `i` with `i != j`.
pub open spec fn any_short(rows: Seq<Seq<bool>>) -> bool {
    exists|i: int, j: int|
        0 <= i < rows.len() && 0 <= j < rows[i].len() && i != j && #[trigger] rows[i][j]
}

/// Scan over a fixed set of pins.
pub struct ShortScan {
    pin_count: usize,
    driven: usize,
    has_short: bool,
}

impl View for ShortScan {
    type V = ScanState;

    closed spec fn view(&self) -> ScanState {
        ScanState {
            pin_count: self.pin_count as nat,
            driven: self.driven as nat,
            has_short: self.has_short,
        }
    }
}

proof fn lemma_partners_below_empty(levels: Seq<bool>, driven: int, k: int)
    requires
        0 <= k <= levels.len(),
    ensures
        partners_below(levels, driven, k).len() == 0 <==> !(exists|j: int|
            0 <= j < k && j != driven && #[trigger] levels[j]),
    decreases k,
{
    if k > 0 {
        lemma_partners_below_empty(levels, driven, k - 1);
        if exists|j: int| 0 <= j < k && j != driven && #[trigger] levels[j] {
            let j = choose|j: int| 0 <= j < k && j != driven && #[trigger] levels[j];
            if j < k - 1 {
                assert(levels[j]);
            }
        }
    }
}

impl ShortScan {
    #[verifier::type_invariant]
    spec fn driven_bounded(self) -> bool {
        self.driven <= self.pin_count
    }

    /// A scan over `pin_count` pins that has not driven any pin yet.
    pub fn new(pin_count: usize) -> (s: Self)
        ensures
            s@ == scan_initial(pin_count as nat),
    {
        ShortScan { pin_count, driven: 0, has_short: false }
    }

    /// What the pin driver has to do next.
    pub fn action(&self) -> (a: ScanAction)
        ensures
            a == scan_action_of(self@),
    {
        if self.driven < self.pin_count {
            ScanAction::Drive(self.driven)
        } else if self.has_short {
            ScanAction::Finish(Err(()))
        } else {
            ScanAction::Finish(Ok(()))
        }
    }

    /// Takes the levels of all pins, by position, read while the requested
    /// pin was driven high. Returns the positions of the pins found connected
    /// to it, in increasing order.
    pub fn record_row(&mut self, levels: &Vec<bool>) -> (partners: Vec<usize>)
        requires
            old(self)@.driven < old(self)@.pin_count,
            levels.len() == old(self)@.pin_count,
        ensures
            partners@ == short_partners(levels@, old(self)@.driven as int),
            final(self)@ == scan_record(old(self)@, levels@),
    {
        proof {
            use_type_invariant(&*self);
        }
        let driven = self.driven;
        let mut partners: Vec<usize> = Vec::new();
        let mut idx: usize = 0;
        while idx < levels.len()
            invariant
                idx <= levels.len(),
                partners@ == partners_below(levels@, driven as int, idx as int),
            decreases levels.len() - idx,
        {
            if idx != driven && levels[idx] {
                partners.push(idx);
            }
            idx += 1;
        }
        proof {
            lemma_partners_below_empty(levels@, driven as int, levels@.len() as int);
        }
        let found = partners.len() > 0;
        *self = ShortScan {
            pin_count: self.pin_count,
            driven: driven + 1,
            has_short: self.has_short || found,
        };
        partners
    }
}

/// Exactly the other pins that read high are reported, each once, in
/// increasing order; the driven pin itself never is.
pub proof fn law_partners_exact(levels: Seq<bool>, driven: int)
    requires
        levels.len() <= usize::MAX,
    ensures
        forall|j: usize|
            #[trigger] short_partners(levels, driven).contains(j) <==> (j < levels.len() && j != driven
                && levels[j as int]),
        forall|a: int, b: int|
            0 <= a < b < short_partners(levels, driven).len() ==> short_partners(
                levels,
                driven,
            )[a] < short_partners(levels, driven)[b],
{
    lemma_partners_below_exact(levels, driven, levels.len() as int);
}

proof fn lemma_partners_below_exact(levels: Seq<bool>, driven: int, k: int)
    requires
        0 <= k <= levels.len(),
        levels.len() <= usize::MAX,
    ensures
        forall|j: usize|
            #[trigger] partners_below(levels, driven, k).contains(j) <==> (j < k && j != driven
                && levels[j as int]),
        forall|a: int, b: int|
            0 <= a < b < partners_below(levels, driven, k).len() ==> partners_below(
                levels,
                driven,
                k,
            )[a] < partners_below(levels, driven, k)[b],
        forall|a: int|
            0 <= a < partners_below(levels, driven, k).len() ==> partners_below(
                levels,
                driven,
                k,
            )[a] < k,
    decreases k,
{
    if k > 0 {
        lemma_partners_below_exact(levels, driven, k - 1);
        let prev = partners_below(levels, driven, k - 1);
        let cur = partners_below(levels, driven, k);
        if k - 1 != driven && levels[k - 1] {
            assert(cur == prev.push((k - 1) as usize));
            assert forall|j: usize| cur.contains(j) implies (j < k && j != driven && levels[j as int]) by {
                let a = choose|a: int| 0 <= a < cur.len() && cur[a] == j;
                if a < prev.len() {
                    assert(cur[a] == prev[a]);
                    assert(prev.contains(j));
                } else {
                    assert(cur[a] == (k - 1) as usize);
                    assert(j as int == k - 1);
                }
            }
            assert forall|j: usize| (j < k && j != driven && levels[j as int]) implies cur.contains(j) by {
                if j == k - 1 {
                    assert(cur[prev.len() as int] == j);
                } else {
                    assert(prev.contains(j));
                    let a = choose|a: int| 0 <= a < prev.len() && prev[a] == j;
                    assert(cur[a] == j);
                }
            }
        } else {
            assert(cur == prev);
            assert forall|j: usize| (j < k && j != driven && levels[j as int]) implies cur.contains(j) by {
                assert(prev.contains(j));
            }
        }
    }
}

/// A scan over `pin_count` pins that was told `rows.len() <= pin_count` rows:
/// it has driven that many pins and has found a short exactly when some row
/// shows another pin high.
pub proof fn lemma_scan_after(pin_count: nat, rows: Seq<Seq<bool>>)
    requires
        rows.len() <= pin_count,
    ensures
        scan_after(pin_count, rows) == (ScanState {
            pin_count,
            driven: rows.len(),
            has_short: any_short(rows),
        }),
    decreases rows.len(),
{
    if rows.len() > 0 {
        let prev = rows.drop_last();
        let last = rows.len() - 1;
        lemma_scan_after(pin_count, prev);
        assert forall|i: int| 0 <= i < prev.len() implies prev[i] == rows[i] by {}
        if any_short(prev) {
            let (i, j) = choose|i: int, j: int|
                0 <= i < prev.len() && 0 <= j < prev[i].len() && i != j && #[trigger] prev[i][j];
            assert(rows[i][j]);
        }
        if row_has_short(rows.last(), last) {
            let j = choose|j: int| 0 <= j < rows.last().len() && j != last && #[trigger] rows.last()[j];
            assert(rows[last][j]);
        }
        if any_short(rows) {
            let (i, j) = choose|i: int, j: int|
                0 <= i < rows.len() && 0 <= j < rows[i].len() && i != j && #[trigger] rows[i][j];
            if i < last {
                assert(prev[i][j]);
            } else {
                assert(rows.last()[j]);
            }
        }
    }
}

/// The pins are driven one after the other, in order of position.
pub proof fn law_scan_drives_in_order(pin_count: nat, rows: Seq<Seq<bool>>)
    requires
        rows.len() < pin_count,
    ensures
        scan_action_of(scan_after(pin_count, rows)) == ScanAction::Drive(rows.len() as usize),
{
    lemma_scan_after(pin_count, rows);
}

/// Once every pin has been driven, the scan fails exactly when some pin read
/// high while a different pin was driven.
pub proof fn law_scan_verdict(pin_count: nat, rows: Seq<Seq<bool>>)
    requires
        rows.len() == pin_count,
    ensures
        scan_action_of(scan_after(pin_count, rows)) == ScanAction::Finish(
            if any_short(rows) {
                Err(())
            } else {
                Ok(())
            },
        ),
{
    lemma_scan_after(pin_count, rows);
}

/// Rows of `pin_count` levels each, one row per pin.
pub open spec fn square_rows(pin_count: nat, rows: Seq<Seq<bool>>) -> bool {
    &&& rows.len() == pin_count
    &&& forall|i: int| 0 <= i < rows.len() ==> (#[trigger] rows[i]).len() == pin_count
}

/// More connections never pass: if every pair that reads high in `rows`
/// also reads high in `more`, and the scan over `rows` fails, so does the
/// scan over `more`.
pub proof fn law_scan_monotone(pin_count: nat, rows: Seq<Seq<bool>>, more: Seq<Seq<bool>>)
    requires
        square_rows(pin_count, rows),
        square_rows(pin_count, more),
        forall|i: int, j: int|
            0 <= i < pin_count && 0 <= j < pin_count && i != j && #[trigger] rows[i][j] ==> more[i][j],
    ensures
        scan_action_of(scan_after(pin_count, rows)) == ScanAction::Finish(Err(()))
            ==> scan_action_of(scan_after(pin_count, more)) == ScanAction::Finish(Err(())),
{
    lemma_scan_after(pin_count, rows);
    lemma_scan_after(pin_count, more);
    if any_short(rows) {
        let (i, j) = choose|i: int, j: int|
            0 <= i < rows.len() && 0 <= j < rows[i].len() && i != j && #[trigger] rows[i][j];
        assert(more[i][j]);
    }
}

/// The verdict does not depend on the order of the pins: scanning the pins
/// in the order `perm` (with inverse `inv`), so that row `i` of `permuted`
/// is row `perm[i]` of `rows` with its entries reordered the same way, gives
/// the same verdict.
pub proof fn law_scan_order_independent(
    pin_count: nat,
    rows: Seq<Seq<bool>>,
    permuted: Seq<Seq<bool>>,
    perm: Seq<int>,
    inv: Seq<int>,
)
    requires
        square_rows(pin_count, rows),
        square_rows(pin_count, permuted),
        perm.len() == pin_count,
        inv.len() == pin_count,
        forall|i: int| 0 <= i < pin_count ==> 0 <= #[trigger] perm[i] < pin_count && inv[perm[i]] == i,
        forall|k: int| 0 <= k < pin_count ==> 0 <= #[trigger] inv[k] < pin_count && perm[inv[k]] == k,
        forall|i: int, j: int|
            0 <= i < pin_count && 0 <= j < pin_count ==> #[trigger] permuted[i][j] == rows[perm[i]][perm[j]],
    ensures
        scan_action_of(scan_after(pin_count, permuted)) == scan_action_of(scan_after(pin_count, rows)),
{
    lemma_scan_after(pin_count, rows);
    lemma_scan_after(pin_count, permuted);
    if any_short(permuted) {
        let (i, j) = choose|i: int, j: int|
            0 <= i < permuted.len() && 0 <= j < permuted[i].len() && i != j && #[trigger] permuted[i][j];
        let a = perm[i];
        let b = perm[j];
        assert(inv[a] == i && inv[b] == j);
        assert(rows[a][b]);
    }
    if any_short(rows) {
        let (a, b) = choose|a: int, b: int|
            0 <= a < rows.len() && 0 <= b < rows[a].len() && a != b && #[trigger] rows[a][b];
        let i = inv[a];
        let j = inv[b];
        assert(perm[i] == a && perm[j] == b);
        assert(permuted[i][j]);
    }
}

} // verus!
