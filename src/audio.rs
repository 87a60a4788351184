//! Decoded PCM input: WAV decoding through hound, reduction to one channel,
//! and the cut into analysis frames.
use vstd::prelude::*;
use crate::segment::{segment_frames, spec_frame, spec_frame_count};

verus! {

/// PCM data as the WAV decoder hands it over: interleaved 16-bit samples.
pub struct DecodedWav {
    pub channels: u16,
    pub sample_rate: u32,
    pub samples: Vec<i16>,
}

/// Why a WAV file could not be decoded; each carries the decoder's message.
#[derive(Debug)]
pub enum DecodeError {
    /// The header or the chunk layout was refused.
    Header(String),
    /// A sample could not be read as a 16-bit integer.
    Samples(String),
}

/// Mono samples of one load, already cut into analysis frames.
pub struct PcmFrames {
    pub sample_rate: u32,
    pub frames: Vec<Vec<i16>>,
}

/// What hound decodes from the bytes of a WAV file: channel count, sample
/// rate and the interleaved samples, or nothing where it refuses the file.
pub uninterp spec fn wav_decoding(data: Seq<u8>) -> Option<(u16, u32, Seq<i16>)>;

/// Relies on hound's `WavReader::new` (reads the header), `WavReader::spec`
/// and `WavReader::into_samples::<i16>` (reads every sample): the outcome is a
/// function of the bytes alone.
#[verifier::external_body]
fn decode_wav(data: &[u8]) -> (r: Result<DecodedWav, DecodeError>)
    ensures
        match r {
            Ok(d) => wav_decoding(data@) == Some((d.channels, d.sample_rate, d.samples@)),
            Err(_) => wav_decoding(data@) is None,
        },
{
    match hound::WavReader::new(std::io::Cursor::new(data)) {
        Ok(reader) => {
            let spec = reader.spec();
            match reader.into_samples::<i16>().collect::<Result<Vec<i16>, hound::Error>>() {
                Ok(samples) => Ok(DecodedWav { channels: spec.channels, sample_rate: spec.sample_rate, samples }),
                Err(e) => Err(DecodeError::Samples(format!("{:?}", e))),
            }
        },
        Err(e) => Err(DecodeError::Header(format!("{:?}", e))),
    }
}

/// The left channel of a two-channel interleaved buffer: every other sample,
/// starting with the first.
pub open spec fn spec_left_channel(samples: Seq<i16>) -> Seq<i16> {
    Seq::new(((samples.len() + 1) / 2) as nat, |i: int| samples[2 * i])
}

/// The single channel that is analysed: the left one of a stereo buffer, the
/// buffer itself for any other channel count.
pub open spec fn spec_mono(samples: Seq<i16>, channels: u16) -> Seq<i16> {
    if channels == 2 {
        spec_left_channel(samples)
    } else {
        samples
    }
}

/// Reduces interleaved samples to one channel; the right channel of a stereo
/// buffer is discarded, not mixed in.
pub fn downmix_to_mono(samples: &Vec<i16>, channels: u16) -> (r: Vec<i16>)
    ensures
        r@ == spec_mono(samples@, channels),
{
    if channels != 2 {
        return samples.clone();
    }
    let n = samples.len();
    let half: usize = n / 2 + n % 2;
    let mut out: Vec<i16> = Vec::with_capacity(half);
    let mut k: usize = 0;
    while k < half
        invariant
            n == samples@.len(),
            half == (n + 1) / 2,
            k <= half,
            out@.len() == k,
            forall|j: int| 0 <= j < k ==> #[trigger] out@[j] == samples@[2 * j],
        decreases half - k,
    {
        out.push(samples[2 * k]);
        k += 1;
    }
    assert(out@ =~= spec_left_channel(samples@));
    out
}

/// The analysis frames of decoded interleaved samples.
pub fn frames_from_pcm(samples: &Vec<i16>, channels: u16) -> (frames: Vec<Vec<i16>>)
    ensures
        frames.len() == spec_frame_count(spec_mono(samples@, channels).len()),
        forall|i: int|
            0 <= i < frames.len() ==> #[trigger] frames[i]@ == spec_frame(
                spec_mono(samples@, channels),
                i as nat,
            ),
{
    let mono = downmix_to_mono(samples, channels);
    segment_frames(&mono)
}

/// `p` holds what loading the WAV file `data` gives: its sample rate and the
/// analysis frames of its (left or only) channel.
pub open spec fn loaded_from(data: Seq<u8>, p: PcmFrames) -> bool {
    &&& wav_decoding(data) is Some
    &&& {
        let (channels, rate, samples) = wav_decoding(data)->Some_0;
        &&& p.sample_rate == rate
        &&& p.frames.len() == spec_frame_count(spec_mono(samples, channels).len())
        &&& forall|i: int|
            0 <= i < p.frames.len() ==> #[trigger] p.frames[i]@ == spec_frame(
                spec_mono(samples, channels),
                i as nat,
            )
    }
}

/// Decodes a WAV file and cuts its (left or only) channel into analysis
/// frames. Fails exactly when the decoder refuses the file.
pub fn load_pcm_frames(data: &[u8]) -> (r: Result<PcmFrames, DecodeError>)
    ensures
        r is Ok <==> wav_decoding(data@) is Some,
        r matches Ok(p) ==> loaded_from(data@, p),
{
    match decode_wav(data) {
        Ok(d) => {
            let frames = frames_from_pcm(&d.samples, d.channels);
            Ok(PcmFrames { sample_rate: d.sample_rate, frames })
        },
        Err(e) => Err(e),
    }
}

} // verus!
