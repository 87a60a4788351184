use music_visualizer::audio::DecodeError;
use music_visualizer::state::AnalysisState;

fn loaded() -> AnalysisState<f32> {
    let mut s = AnalysisState::new(0.0f32);
    s.set_bin_size(4);
    s.publish(vec![vec![0.4, 0.8, 0.0, 1.0], vec![1.0, 1.0, 1.0, 1.0]]);
    s
}

#[test]
fn nothing_loaded() {
    let s = AnalysisState::new(0.0f32);
    assert_eq!(s.bin_size(), 64);
    assert_eq!(s.get_total_frames(), 0);
    assert_eq!(s.get_frequency_bars(0), vec![0.0f32; 64]);
}

#[test]
fn frames_past_the_end_are_zero() {
    let s = loaded();
    assert_eq!(s.get_total_frames(), 2);
    assert_eq!(s.get_frequency_bars(1), vec![1.0f32; 4]);
    assert_eq!(s.get_frequency_bars(2), vec![0.0f32; 4]);
    assert_eq!(s.get_frequency_bars(usize::MAX), vec![0.0f32; 4]);
}

#[test]
fn full_factor_reaches_the_target() {
    let mut s = loaded();
    let out = s.render_bars(0, |p: f32, t: f32| p * (1.0 - 1.0) + t * 1.0);
    assert_eq!(out, vec![0.4, 0.8, 0.0, 1.0]);
}

#[test]
fn zero_factor_keeps_the_previous_output() {
    let mut s = loaded();
    let first = s.render_bars(0, |p: f32, t: f32| p * 0.5 + t * 0.5);
    assert_eq!(first, vec![0.2, 0.4, 0.0, 0.5]);
    let second = s.render_bars(1, |p: f32, t: f32| p * (1.0 - 0.0) + t * 0.0);
    assert_eq!(second, first);
}

#[test]
fn smoothing_carries_across_calls() {
    let mut s = loaded();
    let half = |p: f32, t: f32| p * 0.5 + t * 0.5;
    assert_eq!(s.render_bars(1, half), vec![0.5; 4]);
    assert_eq!(s.render_bars(1, half), vec![0.75; 4]);
    assert_eq!(s.render_bars(7, half), vec![0.375; 4]);
}

#[test]
fn without_audio_render_gives_zeros_and_keeps_state() {
    let mut s = AnalysisState::new(0.0f32);
    s.set_bin_size(3);
    assert_eq!(s.render_bars(0, |_p: f32, _t: f32| 1.0), vec![0.0; 3]);
    s.publish(vec![vec![1.0, 1.0, 1.0]]);
    assert_eq!(s.render_bars(0, |p: f32, t: f32| p * 0.5 + t * 0.5), vec![0.5; 3]);
}

#[test]
fn changing_the_bar_count_resets_smoothing() {
    let mut s = loaded();
    s.render_bars(1, |p: f32, t: f32| p * 0.5 + t * 0.5);
    s.set_bin_size(6);
    // The stored frames keep their length; the extra slots stay zero.
    let out = s.render_bars(1, |p: f32, t: f32| p * 0.5 + t * 0.5);
    assert_eq!(out, vec![0.5, 0.5, 0.5, 0.5, 0.0, 0.0]);
    s.set_bin_size(2);
    let out = s.render_bars(1, |p: f32, t: f32| p * 0.5 + t * 0.5);
    assert_eq!(out, vec![0.5, 0.5]);
    assert_eq!(s.get_total_frames(), 2);
}

#[test]
fn smoothing_a_target_directly() {
    let mut s = AnalysisState::new(0u32);
    s.set_bin_size(3);
    let out = s.smooth_interpolate(&vec![9, 9], |p: u32, t: u32| p + t);
    assert_eq!(out, vec![9, 9, 0]);
    let out = s.smooth_interpolate(&vec![1, 1, 1, 1], |p: u32, t: u32| p + t);
    assert_eq!(out, vec![10, 10, 1]);
}

fn wav(channels: u16, sample_rate: u32, samples: &[i16]) -> Vec<u8> {
    let spec = hound::WavSpec {
        channels,
        sample_rate,
        bits_per_sample: 16,
        sample_format: hound::SampleFormat::Int,
    };
    let mut buf: Vec<u8> = Vec::new();
    {
        let mut w = hound::WavWriter::new(std::io::Cursor::new(&mut buf), spec).unwrap();
        for &x in samples {
            w.write_sample(x).unwrap();
        }
        w.finalize().unwrap();
    }
    buf
}

fn silent_wav(len: usize) -> Vec<u8> {
    wav(1, 44100, &vec![0i16; len])
}

fn frame_sum(f: &Vec<i16>, _rate: u32, n: usize) -> Vec<f32> {
    vec![f.iter().map(|&x| (x as f32).abs()).sum::<f32>(); n]
}

#[test]
fn a_load_publishes_what_the_analysis_returns() {
    let mut s = AnalysisState::new(0.0f32);
    s.set_bin_size(8);
    let r = s.process_audio_file(&silent_wav(44100), |f: &Vec<i16>, rate: u32, n: usize| {
        assert_eq!(rate, 44100);
        assert_eq!(f.len(), 1024);
        vec![f.iter().map(|&x| x as f32).sum::<f32>(); n]
    });
    assert!(r.is_ok());
    assert_eq!(s.get_total_frames(), 118);
    assert_eq!(s.get_frequency_bars(117), vec![0.0f32; 8]);
}

#[test]
fn a_refused_file_keeps_the_earlier_load() {
    let mut s = loaded();
    let r = s.process_audio_file(b"RIFF but not really", |_f: &Vec<i16>, _rate: u32, n: usize| vec![7.0f32; n]);
    assert!(matches!(r, Err(DecodeError::Header(_))));
    assert_eq!(s.get_total_frames(), 2);
    assert_eq!(s.get_frequency_bars(0), vec![0.4, 0.8, 0.0, 1.0]);
}

#[test]
fn a_refused_first_file_leaves_nothing_loaded() {
    let mut s = AnalysisState::new(0.0f32);
    let r = s.process_audio_file(&[], |_f: &Vec<i16>, _rate: u32, n: usize| vec![7.0f32; n]);
    assert!(r.is_err());
    assert_eq!(s.get_total_frames(), 0);
    assert_eq!(s.get_frequency_bars(0), vec![0.0f32; 64]);
}

#[test]
fn a_stereo_load_keeps_one_frame_per_cut() {
    let mut interleaved = Vec::new();
    for n in 0..44100 {
        let right = (16384.0 * (2.0 * std::f64::consts::PI * 1000.0 * n as f64 / 44100.0).sin()).round();
        interleaved.push(0i16);
        interleaved.push(right as i16);
    }
    let mut s = AnalysisState::new(0.0f32);
    assert!(s.process_audio_file(&wav(2, 44100, &interleaved), frame_sum).is_ok());
    assert_eq!(s.get_total_frames(), 118);
    for j in 0..118 {
        assert_eq!(s.get_frequency_bars(j), vec![0.0f32; 64]);
    }
}

#[test]
fn the_frame_count_ignores_the_declared_rate() {
    let samples: Vec<i16> = (0..44100).map(|i| (i % 200) as i16).collect();
    let mut a = AnalysisState::new(0.0f32);
    let mut b = AnalysisState::new(0.0f32);
    let mut rates = Vec::new();
    assert!(a.process_audio_file(&wav(1, 44100, &samples), frame_sum).is_ok());
    assert!(b
        .process_audio_file(&wav(1, 22050, &samples), |f: &Vec<i16>, rate: u32, n: usize| {
            assert_eq!(rate, 22050);
            frame_sum(f, rate, n)
        })
        .is_ok());
    rates.push(a.get_total_frames());
    rates.push(b.get_total_frames());
    assert_eq!(rates, vec![118, 118]);
    assert_eq!(a.get_frequency_bars(3), b.get_frequency_bars(3));
}

#[test]
fn keeping_the_bar_count_keeps_the_smoothing_state() {
    let mut s = loaded();
    let half = |p: f32, t: f32| p * 0.5 + t * 0.5;
    assert_eq!(s.render_bars(1, half), vec![0.5; 4]);
    s.set_bin_size(4);
    assert_eq!(s.render_bars(1, half), vec![0.75; 4]);
    s.set_bin_size(5);
    assert_eq!(s.render_bars(1, half), vec![0.5, 0.5, 0.5, 0.5, 0.0]);
}
