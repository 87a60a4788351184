//! Ranks of the percentile thresholds of the dynamic-range scaler.
use vstd::prelude::*;

verus! {

/// Positions, in the ascending order of one frame's raw bar values, of the
/// 25th, 75th and 90th percentile thresholds.
#[derive(Clone, Copy, Debug, PartialEq, Eq)]
pub struct PercentileRanks {
    pub p25: usize,
    pub p75: usize,
    pub p90: usize,
}

/// `floor(n * 0.25)`, `floor(n * 0.75)` and `floor(n * 0.90)`.
pub open spec fn spec_ranks(n: nat) -> (nat, nat, nat) {
    (n / 4, (3 * n) / 4, (9 * n) / 10)
}

/// The ranks for `num_bars` values, without overflow.
pub fn percentile_ranks(num_bars: usize) -> (r: PercentileRanks)
    ensures
        (r.p25 as nat, r.p75 as nat, r.p90 as nat) == spec_ranks(num_bars as nat),
{
    let n = num_bars;
    proof {
        let a = n as int;
        assert((3 * a) / 4 == (a / 4) * 3 + ((a % 4) * 3) / 4) by (nonlinear_arith)
            requires
                a >= 0,
        ;
        assert((9 * a) / 10 == (a / 10) * 9 + ((a % 10) * 9) / 10) by (nonlinear_arith)
            requires
                a >= 0,
        ;
        assert((a / 4) * 3 <= a) by (nonlinear_arith)
            requires
                a >= 0,
        ;
        assert((a / 10) * 9 <= a) by (nonlinear_arith)
            requires
                a >= 0,
        ;
    }
    PercentileRanks {
        p25: n / 4,
        p75: (n / 4) * 3 + ((n % 4) * 3) / 4,
        p90: (n / 10) * 9 + ((n % 10) * 9) / 10,
    }
}

/// The threshold values of one frame and its largest value.
#[derive(Clone, Copy, Debug, PartialEq, Eq)]
pub struct Thresholds<T> {
    pub p25: T,
    pub p75: T,
    pub p90: T,
    pub max: T,
}

/// Element `i` of `s`, or `zero` past its end.
pub open spec fn at_or<T>(s: Seq<T>, i: nat, zero: T) -> T {
    if i < s.len() {
        s[i as int]
    } else {
        zero
    }
}

/// The thresholds read from one frame's raw values sorted ascending: the
/// values at the three ranks and the last value, each `zero` where the frame
/// is too short to hold it.
pub fn thresholds<T: Copy>(sorted: &Vec<T>, zero: T) -> (r: Thresholds<T>)
    ensures
        ({
            let (a, b, c) = spec_ranks(sorted@.len());
            &&& r.p25 == at_or(sorted@, a, zero)
            &&& r.p75 == at_or(sorted@, b, zero)
            &&& r.p90 == at_or(sorted@, c, zero)
            &&& r.max == if sorted@.len() > 0 { sorted@.last() } else { zero }
        }),
{
    let n = sorted.len();
    let ranks = percentile_ranks(n);
    let p25 = if ranks.p25 < n { sorted[ranks.p25] } else { zero };
    let p75 = if ranks.p75 < n { sorted[ranks.p75] } else { zero };
    let p90 = if ranks.p90 < n { sorted[ranks.p90] } else { zero };
    let max = if n > 0 { sorted[n - 1] } else { zero };
    Thresholds { p25, p75, p90, max }
}

/// The thresholds come in order and, for a non-empty frame, all lie inside
/// it, so each is read from the sorted values and none falls back to zero.
pub proof fn lemma_ranks_ordered(n: nat)
    ensures
        spec_ranks(n).0 <= spec_ranks(n).1,
        spec_ranks(n).1 <= spec_ranks(n).2,
        n >= 1 ==> spec_ranks(n).2 < n,
{
    assert(n / 4 <= (3 * n) / 4) by (nonlinear_arith);
    assert((3 * n) / 4 <= (9 * n) / 10) by (nonlinear_arith);
    if n >= 1 {
        assert((9 * n) / 10 < n) by (nonlinear_arith)
            requires
                n >= 1,
        ;
    }
}

} // verus!
