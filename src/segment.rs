//! Slicing a mono sample buffer into fixed-length, overlapping analysis frames
//! whose count follows the display frame rate.
use vstd::prelude::*;

verus! {

/// Length of one analysis frame, in samples.
pub const FRAME_SIZE: usize = 1024;

/// Display frame rate the frame count is synchronized to.
pub const TARGET_FPS: usize = 120;

/// Sample rate assumed when converting a buffer length into a duration.
pub const TIMING_SAMPLE_RATE: usize = 44100;

/// `floor(duration * fps)` with `duration = len / 44100`, computed exactly.
pub open spec fn spec_target_frames(len: nat) -> nat {
    (len * TARGET_FPS as nat) / TIMING_SAMPLE_RATE as nat
}

/// Distance between the starts of consecutive frames.
pub open spec fn spec_hop_size(len: nat) -> nat {
    if spec_target_frames(len) > 0 {
        len / spec_target_frames(len)
    } else {
        FRAME_SIZE as nat
    }
}

/// Number of whole frames that fit in a buffer of `len` samples.
pub open spec fn spec_frame_count(len: nat) -> nat {
    if len < FRAME_SIZE as nat {
        0
    } else {
        ((len - FRAME_SIZE as nat) as nat) / spec_hop_size(len) + 1
    }
}

/// First sample of frame `i`.
pub open spec fn spec_frame_start(len: nat, i: nat) -> nat {
    i * spec_hop_size(len)
}

/// The samples of frame `i` of `samples`.
pub open spec fn spec_frame(samples: Seq<i16>, i: nat) -> Seq<i16> {
    let start = spec_frame_start(samples.len(), i) as int;
    samples.subrange(start, start + FRAME_SIZE as int)
}

proof fn lemma_target_frames_bounded(len: nat)
    ensures
        spec_target_frames(len) <= len,
{
    assert(len * 120 / 44100 <= len) by (nonlinear_arith);
}

/// The hop size is never zero, so frame starts always advance.
pub proof fn lemma_hop_positive(len: nat)
    ensures
        spec_hop_size(len) >= 1,
{
    lemma_target_frames_bounded(len);
    let t = spec_target_frames(len);
    if t > 0 {
        assert(len / t >= 1) by (nonlinear_arith)
            requires
                t > 0,
                t <= len,
        ;
    }
}

/// Every counted frame lies inside the buffer, and the frame after the last
/// counted one would run past its end: no frame is dropped that fits.
pub proof fn lemma_frames_fit(len: nat)
    ensures
        spec_hop_size(len) >= 1,
        forall|i: nat|
            i < spec_frame_count(len) ==> #[trigger] spec_frame_start(len, i) + FRAME_SIZE as nat
                <= len,
        spec_frame_start(len, spec_frame_count(len)) + FRAME_SIZE as nat > len,
{
    lemma_hop_positive(len);
    let h = spec_hop_size(len);
    let c = spec_frame_count(len);
    if len >= FRAME_SIZE as nat {
        let d = (len - FRAME_SIZE as nat) as nat;
        assert(c * h > d) by (nonlinear_arith)
            requires
                h >= 1,
                c == d / h + 1,
        ;
        assert forall|i: nat| i < c implies #[trigger] spec_frame_start(len, i) + FRAME_SIZE as nat
            <= len by {
            assert(i * h <= d) by (nonlinear_arith)
                requires
                    h >= 1,
                    c == d / h + 1,
                    i < c,
            ;
        }
    }
}

/// `floor(len * 120 / 44100)` without overflow.
pub fn target_frames(len: usize) -> (r: usize)
    ensures
        r == spec_target_frames(len as nat),
{
    let q: usize = len / TIMING_SAMPLE_RATE;
    let rem: usize = len % TIMING_SAMPLE_RATE;
    proof {
        let l = len as int;
        assert(l == q * 44100 + rem);
        assert((l * 120) / 44100 == q * 120 + (rem * 120) / 44100) by (nonlinear_arith)
            requires
                l == q * 44100 + rem,
                0 <= rem < 44100,
        ;
        assert(q * 120 <= l) by (nonlinear_arith)
            requires
                l == q * 44100 + rem,
                q >= 0,
                rem >= 0,
        ;
        lemma_target_frames_bounded(len as nat);
    }
    q * TARGET_FPS + (rem * TARGET_FPS) / TIMING_SAMPLE_RATE
}

/// The hop size for a buffer of `len` samples.
pub fn hop_size(len: usize) -> (r: usize)
    ensures
        r == spec_hop_size(len as nat),
        r >= 1,
{
    proof {
        lemma_hop_positive(len as nat);
    }
    let t = target_frames(len);
    if t > 0 {
        len / t
    } else {
        FRAME_SIZE
    }
}

/// The number of frames cut from a buffer of `len` samples.
pub fn frame_count(len: usize) -> (r: usize)
    ensures
        r == spec_frame_count(len as nat),
{
    let h = hop_size(len);
    if len >= FRAME_SIZE {
        (len - FRAME_SIZE) / h + 1
    } else {
        0
    }
}

/// Cuts `samples` into `frame_count(len)` frames of `FRAME_SIZE` samples,
/// frame `i` starting at `i * hop_size(len)`.
pub fn segment_frames(samples: &Vec<i16>) -> (frames: Vec<Vec<i16>>)
    ensures
        frames.len() == spec_frame_count(samples@.len()),
        forall|i: int|
            0 <= i < frames.len() ==> #[trigger] frames[i]@ == spec_frame(samples@, i as nat),
{
    let len = samples.len();
    let hop = hop_size(len);
    let count = frame_count(len);
    proof {
        lemma_frames_fit(len as nat);
    }
    let mut frames: Vec<Vec<i16>> = Vec::new();
    let mut f: usize = 0;
    while f < count
        invariant
            len == samples@.len(),
            hop == spec_hop_size(len as nat),
            count == spec_frame_count(len as nat),
            f <= count,
            frames.len() == f,
            forall|i: nat|
                i < spec_frame_count(len as nat) ==> #[trigger] spec_frame_start(len as nat, i)
                    + FRAME_SIZE as nat <= len,
            forall|i: int| 0 <= i < f ==> #[trigger] frames[i]@ == spec_frame(samples@, i as nat),
        decreases count - f,
    {
        assert(spec_frame_start(len as nat, f as nat) + FRAME_SIZE as nat <= len);
        let start: usize = f * hop;
        let mut frame: Vec<i16> = Vec::with_capacity(FRAME_SIZE);
        let mut k: usize = 0;
        while k < FRAME_SIZE
            invariant
                len == samples@.len(),
                start + FRAME_SIZE <= len,
                k <= FRAME_SIZE,
                frame@ == samples@.subrange(start as int, start + k),
            decreases FRAME_SIZE - k,
        {
            frame.push(samples[start + k]);
            k += 1;
            assert(frame@ =~= samples@.subrange(start as int, start + k));
        }
        frames.push(frame);
        f += 1;
    }
    frames
}

} // verus!
