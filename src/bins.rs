//! Which spectral bins are averaged into each bar.
use vstd::prelude::*;

verus! {

/// Bins below this index are kept; the upper half of the transform mirrors
/// the lower one for real input.
pub const NYQUIST_BIN: usize = 512;

/// The half-open range `[start, end)` of spectral bins averaged into one bar;
/// an empty range gives the bar the value zero.
#[derive(Clone, Copy, Debug, PartialEq, Eq)]
pub struct BinRange {
    pub start: usize,
    pub end: usize,
}

pub open spec fn min_nat(a: nat, b: nat) -> nat {
    if a <= b {
        a
    } else {
        b
    }
}

/// First bin of a bar whose lower boundary falls in bin `raw_start`.
pub open spec fn spec_first_bin(raw_start: nat) -> nat {
    min_nat(raw_start, NYQUIST_BIN as nat)
}

/// Last bin (inclusive) of a bar whose boundaries fall in bins `raw_start`
/// and `raw_end`; never below the first.
pub open spec fn spec_last_bin(raw_start: nat, raw_end: nat) -> nat {
    let first = spec_first_bin(raw_start);
    let last = min_nat(raw_end, NYQUIST_BIN as nat);
    if last >= first {
        last
    } else {
        first
    }
}

/// Bin `k` is averaged into the bar: it lies between the bar's first and last
/// bin and is a valid bin of a spectrum of `spectrum_len` magnitudes.
pub open spec fn bin_counted(raw_start: nat, raw_end: nat, spectrum_len: nat, k: nat) -> bool {
    &&& spec_first_bin(raw_start) <= k <= spec_last_bin(raw_start, raw_end)
    &&& k < NYQUIST_BIN as nat
    &&& k < spectrum_len
}

/// `r` holds exactly the bins averaged into a bar with raw boundary bins
/// `raw_start` and `raw_end`.
pub open spec fn selects(r: BinRange, raw_start: nat, raw_end: nat, spectrum_len: nat) -> bool {
    &&& r.start <= r.end
    &&& forall|k: nat| (r.start <= k < r.end) <==> #[trigger] bin_counted(raw_start, raw_end, spectrum_len, k)
}

/// The bins of a bar whose boundaries fall in bins `raw_start` and `raw_end`
/// (the boundary frequency over the bin width, rounded down).
pub fn bar_bins(raw_start: usize, raw_end: usize, spectrum_len: usize) -> (r: BinRange)
    ensures
        selects(r, raw_start as nat, raw_end as nat, spectrum_len as nat),
{
    let first: usize = if raw_start <= NYQUIST_BIN { raw_start } else { NYQUIST_BIN };
    let capped: usize = if raw_end <= NYQUIST_BIN { raw_end } else { NYQUIST_BIN };
    let last: usize = if capped >= first { capped } else { first };
    let limit: usize = if spectrum_len <= NYQUIST_BIN { spectrum_len } else { NYQUIST_BIN };
    let end: usize = if last + 1 <= limit { last + 1 } else { limit };
    if end <= first {
        BinRange { start: first, end: first }
    } else {
        BinRange { start: first, end }
    }
}

/// The bin ranges of `num_bars` bars from the bin indices of the table's
/// boundaries; all empty where the table holds fewer than `num_bars + 1`
/// boundaries.
pub fn bar_bin_ranges(raw_bins: &Vec<usize>, num_bars: usize, spectrum_len: usize) -> (r: Vec<
    BinRange,
>)
    ensures
        r.len() == num_bars,
        raw_bins.len() > num_bars ==> forall|b: int|
            0 <= b < num_bars ==> selects(
                #[trigger] r[b],
                raw_bins[b] as nat,
                raw_bins[b + 1] as nat,
                spectrum_len as nat,
            ),
        raw_bins.len() <= num_bars ==> forall|b: int|
            0 <= b < num_bars ==> (#[trigger] r[b]).start == r[b].end,
{
    let enough = raw_bins.len() > num_bars;
    let mut r: Vec<BinRange> = Vec::with_capacity(num_bars);
    let mut b: usize = 0;
    while b < num_bars
        invariant
            enough == (raw_bins.len() > num_bars),
            b <= num_bars,
            r.len() == b,
            enough ==> forall|i: int|
                0 <= i < b ==> selects(
                    #[trigger] r[i],
                    raw_bins[i] as nat,
                    raw_bins[i + 1] as nat,
                    spectrum_len as nat,
                ),
            !enough ==> forall|i: int| 0 <= i < b ==> (#[trigger] r[i]).start == r[i].end,
        decreases num_bars - b,
    {
        if enough {
            r.push(bar_bins(raw_bins[b], raw_bins[b + 1], spectrum_len));
        } else {
            r.push(BinRange { start: 0, end: 0 });
        }
        b += 1;
    }
    r
}

} // verus!
