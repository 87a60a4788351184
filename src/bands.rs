//! Layout of the frequency-boundary table: which band, spacing and step each
//! of the `num_bars + 1` boundaries of a bar count belongs to. The frequency a
//! point stands for is `low + (step/steps) * (high - low)` for linear spacing,
//! `low * (high/low)^(step/steps)` for geometric spacing, and
//! `exp(ln low + step * (ln high - ln low) / steps)` for logarithmic spacing.
use vstd::prelude::*;

verus! {

/// Lowest boundary of every table, in Hz.
pub const MIN_FREQ_HZ: u32 = 20;

/// Highest boundary of every table, in Hz.
pub const MAX_FREQ_HZ: u32 = 20000;

/// How the boundaries inside one band are spread.
#[derive(Clone, Copy, Debug, PartialEq, Eq)]
pub enum Spacing {
    Linear,
    Geometric,
    Logarithmic,
}

/// One boundary of the table: step `step` of `steps` from `low_hz` to
/// `high_hz` under `spacing`.
#[derive(Clone, Copy, Debug, PartialEq, Eq)]
pub struct BoundaryPoint {
    pub low_hz: u32,
    pub high_hz: u32,
    pub step: usize,
    pub steps: usize,
    pub spacing: Spacing,
}

/// Bars per band (sub-bass 20-100 Hz, bass 100-500 Hz, mid 500-4000 Hz,
/// high 4000-20000 Hz) for the bar counts with a curated layout.
pub open spec fn spec_curated_counts(num_bars: nat) -> Option<(nat, nat, nat, nat)> {
    if num_bars == 64 {
        Some((4, 20, 24, 16))
    } else if num_bars == 32 {
        Some((2, 10, 12, 8))
    } else if num_bars == 16 {
        Some((1, 5, 6, 4))
    } else {
        None
    }
}

pub open spec fn point(low: u32, high: u32, step: nat, steps: nat, spacing: Spacing) -> BoundaryPoint {
    BoundaryPoint { low_hz: low, high_hz: high, step: step as usize, steps: steps as usize, spacing }
}

/// Boundary `j` (`0 <= j <= num_bars`) of the table for `num_bars` bars.
pub open spec fn spec_boundary_point(num_bars: nat, j: nat) -> BoundaryPoint {
    match spec_curated_counts(num_bars) {
        Some((c0, c1, c2, c3)) => {
            if j <= c0 {
                point(20, 100, j, c0, Spacing::Linear)
            } else if j <= c0 + c1 {
                point(100, 500, (j - c0) as nat, c1, Spacing::Geometric)
            } else if j <= c0 + c1 + c2 {
                point(500, 4000, (j - c0 - c1) as nat, c2, Spacing::Geometric)
            } else {
                point(4000, 20000, (j - c0 - c1 - c2) as nat, c3, Spacing::Geometric)
            }
        },
        None => point(MIN_FREQ_HZ, MAX_FREQ_HZ, j, num_bars, Spacing::Logarithmic),
    }
}

/// `b` lies one step above `a`: the next step of the same band, or the first
/// step of the band that starts where `a`'s band ends.
pub open spec fn advances(a: BoundaryPoint, b: BoundaryPoint) -> bool {
    ||| (b.low_hz == a.low_hz && b.high_hz == a.high_hz && b.steps == a.steps && b.spacing
        == a.spacing && b.step == a.step + 1)
    ||| (a.step == a.steps && b.step == 1 && b.low_hz == a.high_hz)
}

/// Every point of a table is a step within a band of positive width.
pub open spec fn well_placed(p: BoundaryPoint) -> bool {
    &&& p.low_hz < p.high_hz
    &&& p.step <= p.steps
}

/// The table for `num_bars` bars starts at 20 Hz, ends at 20000 Hz and climbs
/// one step at a time in between, so its frequencies strictly increase; the
/// curated layouts spread exactly `num_bars` bars over their four bands.
pub proof fn lemma_table_shape(num_bars: nat)
    requires
        num_bars < usize::MAX,
    ensures
        spec_boundary_point(num_bars, 0).step == 0,
        spec_boundary_point(num_bars, 0).low_hz == MIN_FREQ_HZ,
        spec_boundary_point(num_bars, num_bars).step == spec_boundary_point(num_bars, num_bars).steps,
        spec_boundary_point(num_bars, num_bars).high_hz == MAX_FREQ_HZ,
        forall|j: nat| j <= num_bars ==> well_placed(#[trigger] spec_boundary_point(num_bars, j)),
        forall|j: nat|
            j < num_bars ==> advances(
                #[trigger] spec_boundary_point(num_bars, j),
                spec_boundary_point(num_bars, j + 1),
            ),
        spec_curated_counts(num_bars) matches Some((c0, c1, c2, c3)) ==> c0 + c1 + c2 + c3
            == num_bars && c0 >= 1 && c1 >= 1 && c2 >= 1 && c3 >= 1,
{
    assert forall|j: nat| j <= num_bars implies well_placed(
        #[trigger] spec_boundary_point(num_bars, j),
    ) by {}
    assert forall|j: nat| j < num_bars implies advances(
        #[trigger] spec_boundary_point(num_bars, j),
        spec_boundary_point(num_bars, j + 1),
    ) by {}
}

/// The band counts of a curated layout, if `num_bars` has one.
fn curated_counts(num_bars: usize) -> (r: Option<(usize, usize, usize, usize)>)
    ensures
        match spec_curated_counts(num_bars as nat) {
            Some((c0, c1, c2, c3)) => r == Some((c0 as usize, c1 as usize, c2 as usize, c3 as usize)),
            None => r is None,
        },
{
    if num_bars == 64 {
        Some((4, 20, 24, 16))
    } else if num_bars == 32 {
        Some((2, 10, 12, 8))
    } else if num_bars == 16 {
        Some((1, 5, 6, 4))
    } else {
        None
    }
}

/// Boundary `j` of the table for `num_bars` bars.
pub fn boundary_point(num_bars: usize, j: usize) -> (r: BoundaryPoint)
    requires
        j <= num_bars,
    ensures
        r == spec_boundary_point(num_bars as nat, j as nat),
{
    match curated_counts(num_bars) {
        Some((c0, c1, c2, c3)) => {
            if j <= c0 {
                BoundaryPoint { low_hz: 20, high_hz: 100, step: j, steps: c0, spacing: Spacing::Linear }
            } else if j <= c0 + c1 {
                BoundaryPoint { low_hz: 100, high_hz: 500, step: j - c0, steps: c1, spacing: Spacing::Geometric }
            } else if j <= c0 + c1 + c2 {
                BoundaryPoint {
                    low_hz: 500,
                    high_hz: 4000,
                    step: j - c0 - c1,
                    steps: c2,
                    spacing: Spacing::Geometric,
                }
            } else {
                BoundaryPoint {
                    low_hz: 4000,
                    high_hz: 20000,
                    step: j - c0 - c1 - c2,
                    steps: c3,
                    spacing: Spacing::Geometric,
                }
            }
        },
        None => BoundaryPoint {
            low_hz: MIN_FREQ_HZ,
            high_hz: MAX_FREQ_HZ,
            step: j,
            steps: num_bars,
            spacing: Spacing::Logarithmic,
        },
    }
}

/// The whole table for `num_bars` bars: `num_bars + 1` boundaries.
pub fn boundary_points(num_bars: usize) -> (r: Vec<BoundaryPoint>)
    requires
        num_bars < usize::MAX,
    ensures
        r.len() == num_bars + 1,
        forall|j: int| 0 <= j <= num_bars ==> #[trigger] r[j] == spec_boundary_point(num_bars as nat, j as nat),
{
    let mut r: Vec<BoundaryPoint> = Vec::with_capacity(num_bars + 1);
    let mut j: usize = 0;
    while j <= num_bars
        invariant
            num_bars < usize::MAX,
            j <= num_bars + 1,
            r.len() == j,
            forall|k: int| 0 <= k < j ==> #[trigger] r[k] == spec_boundary_point(num_bars as nat, k as nat),
        decreases num_bars + 1 - j,
    {
        r.push(boundary_point(num_bars, j));
        j += 1;
    }
    r
}

} // verus!
