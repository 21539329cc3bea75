use moonlit::audio::{
    accept_format, apply_gains, device_label, linked_count, AudioCapture, AudioRegistry,
    SampleFormat, SharedAudio,
};
use moonlit::stem::{
    convert, is_convertible, mix_stems, silent, to_stereo_48k, GainedStem, Stem, STEM_CHANNELS,
    STEM_RATE,
};

fn bits(v: &[f32]) -> Vec<u32> {
    v.iter().map(|s| s.to_bits()).collect()
}

fn floats(v: &[u32]) -> Vec<f32> {
    v.iter().map(|b| f32::from_bits(*b)).collect()
}

fn mean(v: &[f32], frame: usize, channels: usize) -> f32 {
    v[frame * channels..(frame + 1) * channels].iter().sum::<f32>() / channels as f32
}

/// Evaluates what a stem is made of.
fn evaluate(stem: Stem, v: &[f32]) -> Vec<f32> {
    match stem {
        Stem::Exact(s) => floats(&s),
        Stem::Mean { frames, channels } => (0..frames)
            .flat_map(|f| {
                let m = mean(v, f, channels);
                [m, m]
            })
            .collect(),
        Stem::Blend { frames, channels, taps } => {
            let total = taps.len();
            let mut out = Vec::new();
            for (i, tap) in taps.iter().enumerate() {
                let pos = i as f64 * frames as f64 / total as f64;
                assert_eq!(tap.i0, pos as usize);
                let t = (pos - tap.i0 as f64) as f32;
                for c in 0..2 {
                    let (a, b) = if channels == 2 {
                        (v[tap.i0 * 2 + c], v[tap.i1 * 2 + c])
                    } else {
                        (mean(v, tap.i0, channels), mean(v, tap.i1, channels))
                    };
                    out.push(a + (b - a) * t);
                }
            }
            out
        }
    }
}

fn stereo(v: &[f32], channels: u16, rate: u32) -> Vec<f32> {
    assert!(is_convertible(v.len(), channels, rate));
    evaluate(to_stereo_48k(&bits(v), channels, rate), v)
}

/// Evaluates a stem after gain.
fn evaluate_gained(stem: GainedStem, v: &[f32]) -> Vec<f32> {
    match stem {
        GainedStem::Exact(s) => floats(&s),
        GainedStem::Computed { stem, percent: 100 } => evaluate(stem, v),
        GainedStem::Computed { stem, percent } => {
            let k = percent as f32 / 100.0;
            evaluate(stem, v).into_iter().map(|s| s * k).collect()
        }
    }
}

fn gained(v: &[f32], channels: u16, rate: u32, percent: u32, muted: bool) -> Vec<f32> {
    evaluate_gained(convert(&bits(v), channels, rate, percent, muted), v)
}

fn push_game(s: &mut SharedAudio, v: &[f32]) {
    let stem = evaluate_gained(s.convert_game(&bits(v), 2, STEM_RATE), v);
    s.push_game_quantum(&bits(&stem));
}

fn push_mic(s: &mut SharedAudio, v: &[f32]) {
    let stem = evaluate_gained(s.convert_mic(&bits(v), 2, STEM_RATE), v);
    s.push_mic_quantum(&bits(&stem));
}

fn peaks(s: &SharedAudio) -> (f32, f32) {
    let (g, m) = s.peak_levels();
    (f32::from_bits(g), f32::from_bits(m))
}

#[test]
fn passthrough_48k_stereo() {
    let v = vec![0.1, 0.2, 0.3, 0.4];
    assert_eq!(stereo(&v, 2, 48_000), v);
}

#[test]
fn mono_dup() {
    assert_eq!(stereo(&[0.5], 1, 48_000), vec![0.5, 0.5]);
}

#[test]
fn resample_441k_length() {
    // 1 s of 44.1 kHz mono -> ~1 s of 48 kHz stereo.
    let v = vec![0.25; 44_100];
    let out = stereo(&v, 1, 44_100);
    assert_eq!(out.len(), 48_000 * STEM_CHANNELS);
    assert!(out.iter().all(|&s| (s - 0.25).abs() < 1e-5));
}

#[test]
fn gain_and_mute() {
    let v = vec![0.5, -0.5];
    assert_eq!(gained(&v, 2, STEM_RATE, 200, false), vec![1.0, -1.0]);
    assert_eq!(gained(&v, 2, STEM_RATE, 50, false), vec![0.25, -0.25]);
    assert_eq!(gained(&v, 2, STEM_RATE, 200, true), vec![0.0, 0.0]);
}

#[test]
fn peak_meter_tracks_max() {
    let mut s = SharedAudio::new(10, 100, 100, false, false);
    assert_eq!(peaks(&s), (0.0, 0.0));
    push_game(&mut s, &[0.1, -0.2, 0.05, 0.0]);
    push_mic(&mut s, &[0.0; 4]);
    let (g, m) = peaks(&s);
    assert!((g - 0.2).abs() < 1e-6, "{g}");
    assert_eq!(m, 0.0);
    // Meters never go down within a session.
    push_game(&mut s, &[0.01; 2]);
    assert!((peaks(&s).0 - 0.2).abs() < 1e-6);
}

#[test]
fn ring_trims() {
    let mut s = SharedAudio::new(1, 100, 100, false, false);
    let cap = s.capacity();
    assert_eq!(cap, STEM_RATE as usize * STEM_CHANNELS);
    s.push_game_quantum(&bits(&vec![1.0; cap + 5000]));
    let len = s.snapshot().game.len();
    assert!(len <= cap + cap / 10 + 5000 && len >= cap);
}

#[test]
fn mix_sums_aligned_tails() {
    let mix = |game: &[f32], mic: &[f32]| -> Vec<f32> {
        mix_stems(&bits(game), &bits(mic))
            .into_iter()
            .map(|(g, m)| f32::from_bits(g) + f32::from_bits(m))
            .collect()
    };
    assert_eq!(mix(&[0.5, -0.5], &[0.25, 0.25]), vec![0.75, -0.25]);
    // Shorter side decides; tails share the "now" edge.
    assert_eq!(mix(&[1.0, 2.0, 3.0], &[10.0]), vec![11.0]);
    assert!(mix(&[], &[1.0]).is_empty());
}

#[test]
fn odd_layouts_come_to_the_grid() {
    // A frame that is not whole is left out.
    assert_eq!(stereo(&[0.1, 0.2, 0.3], 2, 48_000), vec![0.1, 0.2]);
    assert!(stereo(&[0.1], 2, 48_000).is_empty());
    assert!(stereo(&[], 0, 0).is_empty());
    // No channels count as one.
    assert_eq!(stereo(&[0.5, 0.25], 0, 48_000), vec![0.5, 0.5, 0.25, 0.25]);
    // More than two are averaged.
    assert_eq!(stereo(&[1.0, 0.0, 0.5, 0.5], 4, 48_000), vec![0.5, 0.5]);
    assert!(matches!(
        to_stereo_48k(&[1, 2, 3, 4, 5, 6, 7], 3, 48_000),
        Stem::Mean { frames: 2, channels: 3 }
    ));
}

#[test]
fn resampling_blends_neighbours() {
    // 24 kHz stereo: every frame twice, the second halfway to the next.
    assert_eq!(
        stereo(&[0.0, 1.0, 1.0, 0.0], 2, 24_000),
        vec![0.0, 1.0, 0.5, 0.5, 1.0, 0.0, 1.0, 0.0]
    );
    // 96 kHz mono: every other frame.
    assert_eq!(stereo(&[0.0, 0.5, 1.0, 0.5], 1, 96_000), vec![0.0, 0.0, 1.0, 1.0]);
    // Whole seconds stay whole seconds.
    assert_eq!(stereo(&vec![0.0; 3 * 22_050], 1, 22_050).len(), 3 * 48_000 * 2);
}

#[test]
fn unity_gain_is_untouched() {
    let v = vec![0x7fc0_0001u32, 0x8000_0000, 1, 2];
    assert!(matches!(convert(&v, 2, 48_000, 100, false), GainedStem::Exact(s) if s == v));
    assert!(matches!(
        convert(&v, 2, 48_000, 99, false),
        GainedStem::Computed { stem: Stem::Exact(s), percent: 99 } if s == v
    ));
    assert!(matches!(
        convert(&v, 4, 48_000, 100, false),
        GainedStem::Computed { stem: Stem::Mean { frames: 1, channels: 4 }, percent: 100 }
    ));
    assert_eq!(silent(3), vec![0, 0, 0]);
}

#[test]
fn muted_tracks_keep_their_time() {
    for (channels, rate) in [(1, 48_000), (2, 48_000), (6, 48_000), (1, 44_100), (2, 96_000)] {
        let v: Vec<f32> = (0..1200).map(|i| i as f32 / 1200.0).collect();
        let heard = gained(&v, channels, rate, 70, false);
        let muted = gained(&v, channels, rate, 70, true);
        assert_eq!(heard.len(), muted.len());
        assert!(muted.iter().all(|s| s.to_bits() == 0));
    }
}

#[test]
fn streams_without_a_rate_cannot_be_converted() {
    assert!(is_convertible(0, 2, 0));
    assert!(is_convertible(1, 2, 0));
    assert!(!is_convertible(2, 2, 0));
    assert!(is_convertible(2, 2, 1));
    assert!(!is_convertible(usize::MAX, 1, 48_000));
}

#[test]
fn peaks_order_like_numbers() {
    let mut s = SharedAudio::new(10, 100, 100, false, false);
    for v in [0.0f32, -0.0, 1e-40, 0.5, -1.0, 3.0e38] {
        s.push_mic_quantum(&bits(&[v]));
        assert_eq!(peaks(&s).1, v.abs());
    }
    // What is not a number does not count; infinity does.
    s.push_mic_quantum(&bits(&[f32::NAN, -f32::NAN]));
    assert_eq!(peaks(&s).1, 3.0e38);
    s.push_mic_quantum(&bits(&[f32::NEG_INFINITY]));
    assert_eq!(peaks(&s).1, f32::INFINITY);
    assert_eq!(peaks(&s).0, 0.0);
}

#[test]
fn stem_rings_keep_the_latest() {
    let mut s = SharedAudio::new(1, 100, 100, false, false);
    let cap = s.capacity();
    s.push_game_quantum(&vec![7; cap]);
    let tenth: Vec<u32> = (0..(cap / 10) as u32).collect();
    s.push_game_quantum(&tenth);
    // A tenth more is still kept whole.
    assert_eq!(s.snapshot().game.len(), cap + cap / 10);
    s.push_game_quantum(&[99]);
    let game = s.snapshot().game;
    assert_eq!(game.len(), cap);
    assert_eq!(game[cap - 1], 99);
    assert_eq!(&game[cap - 1 - tenth.len()..cap - 1], &tenth[..]);
    // The other track was not touched.
    assert!(s.snapshot().mic.is_empty());
    s.push_game_quantum(&[]);
    assert_eq!(s.snapshot().game.len(), cap);
}

#[test]
fn gains_are_capped_and_live() {
    let mut s = SharedAudio::new(10, 500, 40, false, true);
    assert_eq!(s.game_gain(), (200, false));
    assert_eq!(s.mic_gain(), (40, true));
    push_game(&mut s, &[0.25, 0.5]);
    push_mic(&mut s, &[0.25, 0.5]);
    assert_eq!(floats(&s.snapshot().game), vec![0.5, 1.0]);
    assert_eq!(floats(&s.snapshot().mic), vec![0.0, 0.0]);
    assert_eq!(s.link(true, true), Ok(2));
    assert_eq!(apply_gains(Some(&mut s), 100, 201, true, false), Ok(2));
    assert_eq!(s.game_gain(), (100, true));
    assert_eq!(s.mic_gain(), (200, false));
    // What was captured before stays as it was.
    assert_eq!(floats(&s.snapshot().game), vec![0.5, 1.0]);
    assert_eq!(
        apply_gains(None, 1, 2, true, false),
        Err("no Windows audio streams linked (buffer not running)".to_string())
    );
}

#[test]
fn captures_register_and_leave() {
    let mut reg = AudioRegistry { current: None };
    let mut old = AudioCapture::new(1, 3, 100, 100, false, false);
    // Ten seconds are kept at least.
    assert_eq!(old.shared.capacity(), 10 * 48_000 * 2);
    assert_eq!(
        old.start(false, false, &mut reg),
        Err("no audio stream could be started (game and mic both failed)".to_string())
    );
    assert_eq!(reg.current, None);
    assert_eq!(old.start(true, false, &mut reg), Ok(1));
    assert_eq!(reg.current, Some(1));
    let mut new = AudioCapture::new(2, 12, 100, 100, false, false);
    assert_eq!(new.shared.capacity(), 12 * 48_000 * 2);
    assert_eq!(new.start(true, true, &mut reg), Ok(2));
    old.close(&mut reg);
    assert_eq!(reg.current, Some(2));
    new.close(&mut reg);
    assert_eq!(reg.current, None);
    assert_eq!(new.live_count(), 2);
    assert_eq!(new.peak_levels(), (0, 0));
    assert!(new.snapshot().game.is_empty());
    assert_eq!(linked_count(Some(&new.shared)), 2);
    assert_eq!(linked_count(None), 0);
}

#[test]
fn labels_and_formats() {
    assert_eq!(device_label(Some("Speakers".to_string())), "Speakers");
    assert_eq!(device_label(Some(" \t".to_string())), "<none>");
    assert_eq!(device_label(None), "<none>");
    assert_eq!(accept_format("mic", &SampleFormat::F32), Ok(()));
    assert_eq!(accept_format("mic", &SampleFormat::I16), Ok(()));
    assert_eq!(accept_format("mic", &SampleFormat::U16), Ok(()));
    assert_eq!(
        accept_format("loopback", &SampleFormat::Other("F64".to_string())),
        Err("unsupported loopback sample format: F64".to_string())
    );
}
