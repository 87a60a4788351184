//! The analysis state one visualizer owns: the bar frames of the last
//! successful load, the configured bar count, and the smoothing state carried
//! from one render call to the next. Bar values are of any copyable type; the
//! zero value is fixed at construction.
use vstd::prelude::*;
use crate::audio::{load_pcm_frames, loaded_from, spec_mono, wav_decoding, DecodeError, PcmFrames};
use crate::segment::spec_frame_count;

verus! {

/// Bar count before any is configured.
pub const DEFAULT_BIN_SIZE: usize = 64;

/// `n` copies of `zero`.
pub open spec fn zeros<T>(zero: T, n: nat) -> Seq<T> {
    Seq::new(n, |i: int| zero)
}

/// What the smoother produces from the previous output, a target frame and a
/// blend of one previous value with one target value: blended values where
/// both exist, zero in the remaining slots of the configured length.
pub open spec fn smoothed<T, F: Fn(T, T) -> T>(
    previous: Seq<T>,
    target: Seq<T>,
    bin_size: nat,
    zero: T,
    blend: F,
    out: Seq<T>,
) -> bool {
    &&& out.len() == bin_size
    &&& forall|i: int|
        0 <= i < bin_size ==> if i < target.len() {
            blend.ensures((previous[i], target[i]), #[trigger] out[i])
        } else {
            out[i] == zero
        }
}

/// With a blend that takes the target value (a smoothing factor of one), the
/// smoother's output is the target frame itself.
pub proof fn lemma_full_factor_follows_target<T, F: Fn(T, T) -> T>(
    previous: Seq<T>,
    target: Seq<T>,
    zero: T,
    blend: F,
    out: Seq<T>,
)
    requires
        forall|p: T, t: T, v: T| blend.ensures((p, t), v) ==> v == t,
        smoothed(previous, target, target.len(), zero, blend, out),
    ensures
        out == target,
{
    assert forall|i: int| 0 <= i < target.len() implies out[i] == target[i] by {
        assert(blend.ensures((previous[i], target[i]), out[i]));
    }
    assert(out =~= target);
}

/// With a blend that keeps the previous value (a smoothing factor of zero),
/// the smoother's output is its previous output.
pub proof fn lemma_zero_factor_holds_previous<T, F: Fn(T, T) -> T>(
    previous: Seq<T>,
    target: Seq<T>,
    zero: T,
    blend: F,
    out: Seq<T>,
)
    requires
        forall|p: T, t: T, v: T| blend.ensures((p, t), v) ==> v == p,
        target.len() == previous.len(),
        smoothed(previous, target, previous.len(), zero, blend, out),
    ensures
        out == previous,
{
    assert forall|i: int| 0 <= i < previous.len() implies out[i] == previous[i] by {
        assert(blend.ensures((previous[i], target[i]), out[i]));
    }
    assert(out =~= previous);
}

pub struct AnalysisState<T> {
    frames: Vec<Vec<T>>,
    previous: Vec<T>,
    ready: bool,
    bin_size: usize,
    zero: T,
}

fn copy_bars<T: Copy>(v: &Vec<T>) -> (r: Vec<T>)
    ensures
        r@ == v@,
{
    let mut r: Vec<T> = Vec::with_capacity(v.len());
    let mut i: usize = 0;
    while i < v.len()
        invariant
            i <= v.len(),
            r@ == v@.subrange(0, i as int),
        decreases v.len() - i,
    {
        r.push(v[i]);
        i += 1;
        assert(r@ =~= v@.subrange(0, i as int));
    }
    assert(v@.subrange(0, v.len() as int) =~= v@);
    r
}

fn zero_bars<T: Copy>(zero: T, n: usize) -> (r: Vec<T>)
    ensures
        r@ == zeros(zero, n as nat),
{
    let mut r: Vec<T> = Vec::with_capacity(n);
    let mut i: usize = 0;
    while i < n
        invariant
            i <= n,
            r@ == zeros(zero, i as nat),
        decreases n - i,
    {
        r.push(zero);
        i += 1;
        assert(r@ =~= zeros(zero, i as nat));
    }
    r
}

impl<T: Copy> AnalysisState<T> {
    /// The bar frames of the last successful load, each as a sequence.
    pub closed spec fn frames_view(&self) -> Seq<Seq<T>> {
        Seq::new(self.frames@.len(), |i: int| self.frames@[i]@)
    }

    /// The smoother's previous output.
    pub closed spec fn previous_view(&self) -> Seq<T> {
        self.previous@
    }

    /// A load has completed.
    pub closed spec fn is_ready(&self) -> bool {
        self.ready
    }

    pub closed spec fn spec_bin_size(&self) -> nat {
        self.bin_size as nat
    }

    pub closed spec fn spec_zero(&self) -> T {
        self.zero
    }

    /// The smoothing state always has the configured length.
    pub open spec fn wf(&self) -> bool {
        self.previous_view().len() == self.spec_bin_size()
    }

    /// A state with no audio loaded, the default bar count and a zero
    /// smoothing state.
    pub fn new(zero: T) -> (s: Self)
        ensures
            s.wf(),
            !s.is_ready(),
            s.frames_view().len() == 0,
            s.spec_bin_size() == DEFAULT_BIN_SIZE,
            s.spec_zero() == zero,
            s.previous_view() == zeros(zero, DEFAULT_BIN_SIZE as nat),
    {
        AnalysisState {
            frames: Vec::new(),
            previous: zero_bars(zero, DEFAULT_BIN_SIZE),
            ready: false,
            bin_size: DEFAULT_BIN_SIZE,
            zero,
        }
    }

    pub fn bin_size(&self) -> (r: usize)
        ensures
            r == self.spec_bin_size(),
    {
        self.bin_size
    }

    /// Sets the bar count. Where it changes, the smoothing state is reset to
    /// zeros of the new length; where it stays, the smoothing state is kept.
    /// The loaded frames stay as they are.
    pub fn set_bin_size(&mut self, bin_size: usize)
        requires
            old(self).wf(),
        ensures
            final(self).wf(),
            final(self).spec_bin_size() == bin_size,
            bin_size != old(self).spec_bin_size() ==> final(self).previous_view() == zeros(
                old(self).spec_zero(),
                bin_size as nat,
            ),
            bin_size == old(self).spec_bin_size() ==> final(self).previous_view() == old(
                self,
            ).previous_view(),
            final(self).frames_view() == old(self).frames_view(),
            final(self).is_ready() == old(self).is_ready(),
            final(self).spec_zero() == old(self).spec_zero(),
    {
        if bin_size != self.bin_size {
            self.previous = zero_bars(self.zero, bin_size);
        }
        self.bin_size = bin_size;
    }

    /// Replaces the loaded frames by `frames` in one step and marks the state
    /// ready; the bar count and the smoothing state are kept.
    pub fn publish(&mut self, frames: Vec<Vec<T>>)
        requires
            old(self).wf(),
        ensures
            final(self).wf(),
            final(self).is_ready(),
            final(self).frames_view() == Seq::new(frames@.len(), |i: int| frames@[i]@),
            final(self).spec_bin_size() == old(self).spec_bin_size(),
            final(self).previous_view() == old(self).previous_view(),
            final(self).spec_zero() == old(self).spec_zero(),
    {
        self.frames = frames;
        self.ready = true;
    }

    /// The number of loaded frames; zero before the first load.
    pub fn get_total_frames(&self) -> (r: usize)
        ensures
            r == if self.is_ready() { self.frames_view().len() } else { 0 },
    {
        if self.ready {
            self.frames.len()
        } else {
            0
        }
    }

    /// Loads a WAV file: decodes it, cuts its (left or only) channel into
    /// analysis frames, turns each frame into one bar frame with
    /// `analyze_frame` (given the frame, the file's sample rate and the
    /// configured bar count), and publishes the bar frames in one step. Where
    /// the file is refused, nothing changes and the earlier load stays.
    pub fn process_audio_file<F: Fn(&Vec<i16>, u32, usize) -> Vec<T>>(
        &mut self,
        data: &[u8],
        analyze_frame: F,
    ) -> (r: Result<(), DecodeError>)
        requires
            old(self).wf(),
            forall|f: &Vec<i16>, rate: u32, n: usize| analyze_frame.requires((f, rate, n)),
        ensures
            final(self).wf(),
            r is Ok <==> wav_decoding(data@) is Some,
            r is Err ==> final(self).frames_view() == old(self).frames_view(),
            r is Err ==> final(self).is_ready() == old(self).is_ready(),
            r is Ok ==> final(self).is_ready(),
            r is Ok ==> ({
                let (channels, rate, samples) = wav_decoding(data@)->Some_0;
                final(self).frames_view().len() == spec_frame_count(
                    spec_mono(samples, channels).len(),
                )
            }),
            r is Ok ==> exists|p: PcmFrames, bars: Vec<Vec<T>>|
                {
                    &&& loaded_from(data@, p)
                    &&& bars.len() == p.frames.len()
                    &&& final(self).frames_view() == Seq::new(bars@.len(), |i: int| bars@[i]@)
                    &&& forall|i: int|
                        0 <= i < p.frames.len() ==> analyze_frame.ensures(
                            (&p.frames[i], p.sample_rate, old(self).spec_bin_size() as usize),
                            #[trigger] bars[i],
                        )
                },
            final(self).spec_bin_size() == old(self).spec_bin_size(),
            final(self).previous_view() == old(self).previous_view(),
            final(self).spec_zero() == old(self).spec_zero(),
    {
        match load_pcm_frames(data) {
            Ok(p) => {
                let mut bars: Vec<Vec<T>> = Vec::with_capacity(p.frames.len());
                let mut i: usize = 0;
                while i < p.frames.len()
                    invariant
                        self.wf(),
                        i <= p.frames.len(),
                        bars.len() == i,
                        forall|f: &Vec<i16>, rate: u32, n: usize| analyze_frame.requires((f, rate, n)),
                        forall|k: int|
                            0 <= k < i ==> analyze_frame.ensures(
                                (&p.frames[k], p.sample_rate, self.bin_size),
                                #[trigger] bars[k],
                            ),
                    decreases p.frames.len() - i,
                {
                    let b = analyze_frame(&p.frames[i], p.sample_rate, self.bin_size);
                    bars.push(b);
                    i += 1;
                }
                let ghost gp = p;
                let ghost gbars = bars;
                self.publish(bars);
                assert(loaded_from(data@, gp));
                assert(self.frames_view().len() == gbars.len());
                Ok(())
            },
            Err(e) => Err(e),
        }
    }

    /// The stored bars of frame `frame_index`, or zeros of the configured
    /// length where that frame does not exist or nothing is loaded.
    pub fn get_frequency_bars(&self, frame_index: usize) -> (r: Vec<T>)
        ensures
            r@ == if self.is_ready() && frame_index < self.frames_view().len() {
                self.frames_view()[frame_index as int]
            } else {
                zeros(self.spec_zero(), self.spec_bin_size())
            },
    {
        if self.ready && frame_index < self.frames.len() {
            copy_bars(&self.frames[frame_index])
        } else {
            zero_bars(self.zero, self.bin_size)
        }
    }

    /// One step of the smoother: blends the previous output toward `target`
    /// bar by bar, keeps the result as the new previous output and returns it.
    pub fn smooth_interpolate<F: Fn(T, T) -> T>(&mut self, target: &Vec<T>, blend: F) -> (r: Vec<T>)
        requires
            old(self).wf(),
            forall|p: T, t: T| blend.requires((p, t)),
        ensures
            final(self).wf(),
            smoothed(
                old(self).previous_view(),
                target@,
                old(self).spec_bin_size(),
                old(self).spec_zero(),
                blend,
                r@,
            ),
            final(self).previous_view() == r@,
            final(self).frames_view() == old(self).frames_view(),
            final(self).is_ready() == old(self).is_ready(),
            final(self).spec_bin_size() == old(self).spec_bin_size(),
            final(self).spec_zero() == old(self).spec_zero(),
    {
        let n = self.bin_size;
        let actual: usize = if target.len() < n { target.len() } else { n };
        let mut out: Vec<T> = Vec::with_capacity(n);
        let mut i: usize = 0;
        while i < n
            invariant
                self.wf(),
                n == self.bin_size,
                actual as int == if target@.len() < n { target@.len() as int } else { n as int },
                i <= n,
                out@.len() == i,
                forall|p: T, t: T| blend.requires((p, t)),
                forall|k: int|
                    0 <= k < i ==> if k < target@.len() {
                        blend.ensures((self.previous@[k], target@[k]), #[trigger] out@[k])
                    } else {
                        out@[k] == self.zero
                    },
            decreases n - i,
        {
            if i < actual {
                let v = blend(self.previous[i], target[i]);
                out.push(v);
            } else {
                out.push(self.zero);
            }
            i += 1;
        }
        self.previous = copy_bars(&out);
        out
    }

    /// The bars to draw for playback frame `frame_index`: with audio loaded,
    /// one smoother step toward that frame's bars (zeros past the end);
    /// without, zeros, and the smoothing state is left alone.
    pub fn render_bars<F: Fn(T, T) -> T>(&mut self, frame_index: usize, blend: F) -> (r: Vec<T>)
        requires
            old(self).wf(),
            forall|p: T, t: T| blend.requires((p, t)),
        ensures
            final(self).wf(),
            final(self).frames_view() == old(self).frames_view(),
            final(self).is_ready() == old(self).is_ready(),
            final(self).spec_bin_size() == old(self).spec_bin_size(),
            final(self).spec_zero() == old(self).spec_zero(),
            old(self).is_ready() ==> {
                let target = if frame_index < old(self).frames_view().len() {
                    old(self).frames_view()[frame_index as int]
                } else {
                    zeros(old(self).spec_zero(), old(self).spec_bin_size())
                };
                &&& smoothed(
                    old(self).previous_view(),
                    target,
                    old(self).spec_bin_size(),
                    old(self).spec_zero(),
                    blend,
                    r@,
                )
                &&& final(self).previous_view() == r@
            },
            !old(self).is_ready() ==> r@ == zeros(old(self).spec_zero(), old(self).spec_bin_size())
                && final(self).previous_view() == old(self).previous_view(),
    {
        if self.ready {
            let target = self.get_frequency_bars(frame_index);
            self.smooth_interpolate(&target, blend)
        } else {
            zero_bars(self.zero, self.bin_size)
        }
    }
}

} // verus!
