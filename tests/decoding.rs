use music_visualizer::audio::{downmix_to_mono, frames_from_pcm, load_pcm_frames, DecodeError};

fn wav_bytes(channels: u16, bits: u16, samples: &[i32]) -> Vec<u8> {
    let spec = hound::WavSpec {
        channels,
        sample_rate: 44100,
        bits_per_sample: bits,
        sample_format: hound::SampleFormat::Int,
    };
    let mut buf: Vec<u8> = Vec::new();
    {
        let mut w = hound::WavWriter::new(std::io::Cursor::new(&mut buf), spec).unwrap();
        for &s in samples {
            w.write_sample(s).unwrap();
        }
        w.finalize().unwrap();
    }
    buf
}

fn tone(n: usize) -> Vec<i16> {
    (0..n)
        .map(|i| ((i as f64 * 2.0 * std::f64::consts::PI * 1000.0 / 44100.0).sin() * 20000.0) as i16)
        .collect()
}

#[test]
fn stereo_keeps_the_left_channel_only() {
    let interleaved: Vec<i16> = vec![1, 100, 2, 200, 3, 300, 4];
    assert_eq!(downmix_to_mono(&interleaved, 2), vec![1, 2, 3, 4]);
    assert_eq!(downmix_to_mono(&interleaved, 1), interleaved);
    assert_eq!(downmix_to_mono(&interleaved, 3), interleaved);
    assert_eq!(downmix_to_mono(&Vec::new(), 2), Vec::<i16>::new());
}

#[test]
fn silent_left_channel_gives_silent_frames() {
    let right = tone(44100);
    let mut interleaved = Vec::new();
    for &r in &right {
        interleaved.push(0i16);
        interleaved.push(r);
    }
    let frames = frames_from_pcm(&interleaved, 2);
    assert_eq!(frames.len(), 118);
    assert!(frames.iter().all(|f| f.iter().all(|&s| s == 0)));
}

#[test]
fn a_mono_file_is_decoded_and_framed() {
    let samples = tone(2048);
    let as_i32: Vec<i32> = samples.iter().map(|&s| s as i32).collect();
    let loaded = load_pcm_frames(&wav_bytes(1, 16, &as_i32)).unwrap();
    assert_eq!(loaded.sample_rate, 44100);
    // 2048 samples: 5 target frames, hop 409, frames at 0, 409 and 818.
    assert_eq!(loaded.frames.len(), 3);
    assert_eq!(loaded.frames[1][..], samples[409..409 + 1024]);
}

#[test]
fn a_stereo_file_with_silent_left_channel() {
    let right = tone(44100);
    let mut interleaved = Vec::new();
    for &r in &right {
        interleaved.push(0i32);
        interleaved.push(r as i32);
    }
    let loaded = load_pcm_frames(&wav_bytes(2, 16, &interleaved)).unwrap();
    assert_eq!(loaded.frames.len(), 118);
    assert!(loaded.frames.iter().all(|f| f.iter().all(|&s| s == 0)));
}

#[test]
fn bytes_that_are_no_wav_file_are_refused() {
    let r = load_pcm_frames(b"this is not a wave file at all");
    assert!(matches!(r, Err(DecodeError::Header(_))));
    assert!(matches!(load_pcm_frames(&[]), Err(DecodeError::Header(_))));
}

#[test]
fn samples_wider_than_sixteen_bits_are_refused() {
    let r = load_pcm_frames(&wav_bytes(1, 32, &[1, 2, 3, 4]));
    assert!(matches!(r, Err(DecodeError::Samples(_))));
}
