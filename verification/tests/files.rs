use std::path::{Path, PathBuf};

use moonlit::mux::{
    clip_stems, mux_args, mux_outcome, preview_outcome, preview_track, stem_file_names, FileArg,
};
use moonlit::names::{
    extension, file_stem, numbered_name, replay_filename, resolve_clip_src, thumb_name, LocalTime,
};
use moonlit::wav::write_wav;

fn time(year: u16, month: u16, day: u16, hour: u16, minute: u16, second: u16) -> LocalTime {
    LocalTime { year, month, day, hour, minute, second }
}

fn pcm(samples: &[f32]) -> Vec<i16> {
    samples.iter().map(|s| (s.clamp(-1.0, 1.0) * 32767.0) as i16).collect()
}

fn words(args: &[FileArg], inputs: &[&str], output: &str) -> String {
    let words: Vec<String> = args
        .iter()
        .map(|a| match a {
            FileArg::Text(t) => t.clone(),
            FileArg::Input(n) => inputs[*n].to_string(),
            FileArg::Output => output.to_string(),
        })
        .collect();
    words.join(" ")
}

#[test]
fn filename_shape() {
    let n = replay_filename(time(2026, 3, 9, 7, 5, 1));
    assert!(n.starts_with("replay_"), "{n}");
    assert!(n.ends_with(".mp4"), "{n}");
    assert_eq!(n.len(), "replay_YYYY-MM-DD_HH-MM-SS.mp4".len(), "{n}");
    assert!(PathBuf::from(&n).extension().unwrap() == "mp4");
    assert_eq!(n, "replay_2026-03-09_07-05-01.mp4");
}

#[test]
fn names_sort_like_times() {
    let times = [
        time(999, 12, 31, 23, 59, 59),
        time(2025, 9, 30, 0, 0, 0),
        time(2025, 10, 1, 0, 0, 0),
        time(2025, 10, 1, 0, 0, 9),
        time(2025, 10, 1, 0, 0, 10),
        time(2025, 10, 1, 0, 9, 0),
        time(2025, 10, 1, 9, 0, 0),
        time(2025, 10, 2, 0, 0, 0),
        time(2026, 1, 1, 0, 0, 0),
    ];
    for w in times.windows(2) {
        assert!(replay_filename(w[0]) < replay_filename(w[1]));
    }
    // A year of more digits makes a longer name.
    assert_eq!(replay_filename(time(10000, 1, 1, 1, 1, 1)).len(), 31);
}

#[test]
fn names_part_like_paths() {
    for n in ["a.mp4", "a", ".a", "..", ".a.b", "a.", "a.b.c", "...", "..a", "é.ñ", "."] {
        let p = Path::new(n);
        if p.file_name().is_none() {
            // A folder, not a file.
            assert_eq!((file_stem(n), extension(n)), (n, None));
            continue;
        }
        assert_eq!(Some(file_stem(n)), p.file_stem().map(|s| s.to_str().unwrap()), "{n}");
        assert_eq!(extension(n), p.extension().map(|s| s.to_str().unwrap()), "{n}");
    }
    assert_eq!((file_stem(""), extension("")), ("", None));
}

#[test]
fn names_beside_a_clip() {
    assert_eq!(numbered_name("replay_x.mp4", 2), "replay_x_2.mp4");
    assert_eq!(numbered_name("replay_x.mkv", 999), "replay_x_999.mkv");
    assert_eq!(numbered_name("replay_x", 10), "replay_x_10.mp4");
    assert_eq!(thumb_name("replay_x.mp4"), "thumb_replay_x.jpg");
    let (mix, game, mic) = stem_file_names("replay_x.mp4");
    let tmp = Path::new("replay_x.mp4").with_extension("mux.tmp");
    assert_eq!(Path::new(&mix), tmp.with_extension("mix0.wav"));
    assert_eq!(Path::new(&game), tmp.with_extension("game1.wav"));
    assert_eq!(Path::new(&mic), tmp.with_extension("mic2.wav"));
}

#[test]
fn names_that_lead_out_are_refused() {
    let refused = Err("invalid file name".to_string());
    for n in ["..", "a/../b", "x..y", "/etc", "\\srv", "../"] {
        assert_eq!(resolve_clip_src(n, Ok("never".to_string())), refused, "{n}");
        assert_eq!(resolve_clip_src(n, Err("no folder".to_string())), refused);
    }
    for n in ["a.mp4", "a.b.c", ".a", "sub/a.mp4", "a\\b", ""] {
        assert_eq!(resolve_clip_src(n, Ok(format!("/clips/{n}"))), Ok(format!("/clips/{n}")));
        let none = Err("no folder".to_string());
        assert_eq!(resolve_clip_src(n, none.clone()), none);
    }
}

#[test]
fn wav_exact_size_and_clamp() {
    // 1 s stereo + out-of-range clamp check.
    let mut samples = vec![0.0f32; 48_000 * 2];
    samples[0] = 2.0;
    samples[1] = -2.0;
    let bytes = write_wav(&pcm(&samples));
    assert_eq!(bytes.len(), 44 + 48_000 * 2 * 2);
    assert_eq!(&bytes[0..4], b"RIFF");
    assert_eq!(&bytes[36..40], b"data");
    assert_eq!(i16::from_le_bytes([bytes[44], bytes[45]]), 32767);
    assert_eq!(i16::from_le_bytes([bytes[46], bytes[47]]), -32767);
}

#[test]
fn wav_header_is_exact() {
    let bytes = write_wav(&[1, -1, i16::MIN, i16::MAX]);
    let mut want: Vec<u8> = Vec::new();
    want.extend_from_slice(b"RIFF");
    want.extend_from_slice(&44u32.to_le_bytes());
    want.extend_from_slice(b"WAVEfmt ");
    want.extend_from_slice(&16u32.to_le_bytes());
    want.extend_from_slice(&1u16.to_le_bytes());
    want.extend_from_slice(&2u16.to_le_bytes());
    want.extend_from_slice(&48_000u32.to_le_bytes());
    want.extend_from_slice(&192_000u32.to_le_bytes());
    want.extend_from_slice(&4u16.to_le_bytes());
    want.extend_from_slice(&16u16.to_le_bytes());
    want.extend_from_slice(b"data");
    want.extend_from_slice(&8u32.to_le_bytes());
    for s in [1i16, -1, i16::MIN, i16::MAX] {
        want.extend_from_slice(&s.to_le_bytes());
    }
    assert_eq!(bytes, want);
    assert_eq!(write_wav(&[]).len(), 44);
}

#[test]
fn mux_command_line() {
    assert_eq!(
        words(&mux_args(), &["v.ts", "mix.wav", "game.wav", "mic.wav"], "clip.mp4"),
        "-y -hide_banner -loglevel error -i v.ts -i mix.wav -i game.wav -i mic.wav \
         -map 0:v -map 1:a -map 2:a -map 3:a -c:v copy -c:a aac -b:a 160k \
         -filter:a:0 apad -filter:a:1 apad -filter:a:2 apad \
         -metadata:s:a:0 title=Mix -metadata:s:a:1 title=Game -metadata:s:a:2 title=Mic \
         -shortest clip.mp4"
    );
}

#[test]
fn preview_command_line() {
    for track in 1..=3u32 {
        assert_eq!(
            words(&preview_track(track).unwrap(), &["clip.mp4"], "out.m4a"),
            format!("-y -hide_banner -loglevel error -i clip.mp4 -map 0:{track} -c:a aac out.m4a")
        );
    }
    for track in [0, 4, u32::MAX] {
        assert_eq!(
            preview_track(track).unwrap_err(),
            "track must be 1 (mix), 2 (game) or 3 (mic)"
        );
    }
}

#[test]
fn command_outcomes() {
    assert_eq!(mux_outcome(Ok(true)), Ok(()));
    assert_eq!(mux_outcome(Ok(false)), Err("save mux failed (ffmpeg)".to_string()));
    assert_eq!(mux_outcome(Err("gone".to_string())), Err("save mux failed: gone".to_string()));
    assert_eq!(preview_outcome(Ok(true)), Ok(()));
    assert_eq!(preview_outcome(Ok(false)), Err("preview extract failed".to_string()));
    assert_eq!(
        preview_outcome(Err("gone".to_string())),
        Err("preview extract failed: gone".to_string())
    );
}

#[test]
fn missing_stems_are_silent() {
    let s = clip_stems(vec![], vec![5, 6], vec![], 2);
    assert_eq!(s.mix, vec![0; 2 * 48_000 * 2]);
    assert_eq!(s.game, vec![5, 6]);
    assert_eq!(s.mic.len(), 2 * 48_000 * 2);
    assert_eq!(clip_stems(vec![], vec![], vec![], 0).mic.len(), 48_000 * 2);
}
