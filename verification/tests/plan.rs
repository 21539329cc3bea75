use moonlit::options::{is_covered, video_codecs, video_options, LadderFigure};
use moonlit::plan::{capture_config, capture_targets, find_height, tallest_height, MonitorInfo};
use moonlit::settings::Settings;

fn settings(entries: &[(&str, &str)]) -> Settings {
    let mut s = Settings::new();
    for (k, v) in entries {
        s.set(k, v);
    }
    s
}

fn monitors() -> Vec<MonitorInfo> {
    let monitor = |name: &str, width, height| MonitorInfo { name: name.to_string(), width, height };
    vec![monitor("DP-1", 1920, 1080), monitor("DP-2", 2560, 1440), monitor("DP-1", 640, 480)]
}

#[test]
fn heights_of_monitors() {
    assert_eq!(tallest_height(&monitors()), 1440);
    assert_eq!(tallest_height(&vec![]), 0);
    assert_eq!(find_height(&monitors(), "DP-1"), Some(1080));
    assert_eq!(find_height(&monitors(), "HDMI-1"), None);
}

#[test]
fn smaller_clips_are_scaled_by_the_save() {
    let s = settings(&[("out_height", "720"), ("fps", "30"), ("video_codec", "hevc")]);
    let t = capture_targets(&s, &monitors());
    assert_eq!(t.codec, "hevc");
    assert_eq!(t.fps, 30);
    assert_eq!((t.out_height, t.source_height), (720, 1440));
    assert_eq!((t.ladder_height, t.buffer_ladder_height), (720, 1440));
    assert_eq!((t.capture_height, t.save_height), (0, 720));
    let c = capture_config(&s, t, "nvidia", 8000, 24000, Some("hevc_nvenc".to_string()));
    assert_eq!((c.bitrate_kbps, c.save_bitrate_kbps), (24000, 8000));
    assert_eq!((c.out_height, c.save_height), (0, 720));
    assert_eq!(c.save_encoder.as_deref(), Some("hevc_nvenc"));
    assert!(c.nvenc_hq);
    assert_eq!(c.duration_seconds, 30);
    assert_eq!(c.desktop_device, "default_output");
    assert_eq!(c.mic_device, "default_input");
}

#[test]
fn other_clips_are_captured_as_they_are() {
    // Source height.
    let s = settings(&[("monitor", " DP-1 "), ("buffer_seconds", "60"), ("mic_device", "usb")]);
    let t = capture_targets(&s, &monitors());
    assert_eq!(t.monitor, " DP-1 ");
    assert_eq!((t.codec.as_str(), t.fps), ("h264", 60));
    assert_eq!((t.source_height, t.ladder_height, t.buffer_ladder_height), (1080, 1080, 1080));
    assert_eq!((t.capture_height, t.save_height), (0, 0));
    let c = capture_config(&s, t, "amd", 20000, 1, None);
    assert_eq!((c.bitrate_kbps, c.save_bitrate_kbps, c.duration_seconds), (20000, 20000, 60));
    assert_eq!((c.source.as_str(), c.mic_device.as_str()), (" DP-1 ", "usb"));
    assert!(!c.nvenc_hq);
    // A height above the source's.
    let t = capture_targets(&settings(&[("out_height", "2160")]), &monitors());
    assert_eq!((t.capture_height, t.save_height, t.buffer_ladder_height), (2160, 0, 2160));
    // The source's own height.
    let t = capture_targets(&settings(&[("out_height", "1440")]), &monitors());
    assert_eq!((t.capture_height, t.save_height), (1440, 0));
    // Nothing known of the source.
    let t = capture_targets(&Settings::new(), &vec![]);
    assert_eq!((t.source_height, t.ladder_height), (0, 1080));
    // A monitor that is not there counts as the tallest one.
    let t = capture_targets(&settings(&[("monitor", "gone"), ("out_height", "720")]), &monitors());
    assert_eq!((t.source_height, t.capture_height, t.save_height), (1440, 0, 720));
    let t = capture_targets(&settings(&[("monitor", "gone"), ("out_height", "720")]), &vec![]);
    assert_eq!((t.source_height, t.capture_height, t.save_height), (0, 720, 0));
}

#[test]
fn odd_settings_fall_back() {
    let s = settings(&[("video_codec", "vp9"), ("out_height", "tall"), ("fps", "144")]);
    let t = capture_targets(&s, &monitors());
    assert_eq!((t.codec.as_str(), t.out_height, t.fps), ("h264", 0, 60));
    for codec in ["h264", "hevc", "av1", "x264"] {
        let s = settings(&[("video_codec", codec)]);
        let t = capture_targets(&s, &monitors());
        assert_eq!(t.codec, codec);
        let hq = capture_config(&s, t, "nvidia", 1, 1, None).nvenc_hq;
        assert_eq!(hq, codec == "h264" || codec == "hevc");
    }
}

#[test]
fn offered_codecs_are_known_and_distinct() {
    let offered = |ids: &[&str]| -> Vec<String> {
        let ids: Vec<String> = ids.iter().map(|s| s.to_string()).collect();
        video_codecs(&ids).into_iter().map(|c| c.id).collect()
    };
    assert_eq!(
        offered(&["vp8", "hevc", "h264", "hevc", "AV1", "x264", "av1", "h264"]),
        vec!["hevc", "h264", "x264", "av1"]
    );
    assert_eq!(offered(&[]), vec!["h264"]);
    assert_eq!(offered(&["vp9"]), vec!["h264"]);
}

#[test]
fn options_show_what_is_set() {
    let figure = |height, codec: &str, bitrate_kbps, ring_mb_60s| LadderFigure {
        height,
        codec: codec.to_string(),
        bitrate_kbps,
        ring_mb_60s,
    };
    let table = vec![
        figure(1080, "h264", 20000, 143),
        figure(720, "av1", 5000, 36),
        figure(1080, "av1", 12000, 86),
        figure(720, "h264", 8000, 57),
        figure(720, "h264", 1, 1),
    ];
    let heights = vec![720, 1080];
    let s = settings(&[("out_height", "720"), ("monitor", "DP-2"), ("video_codec", "odd")]);
    let codecs = video_codecs(&vec!["h264".to_string(), "av1".to_string()]);
    assert!(is_covered(&table, &heights, &codecs));
    assert!(!is_covered(&table, &vec![720, 1440], &codecs));
    assert!(!is_covered(&table, &heights, &video_codecs(&vec!["hevc".to_string()])));
    let o = video_options(&s, codecs, &monitors(), &heights, &table, "amd".to_string());
    assert_eq!(o.codecs[0].id, "h264");
    assert_eq!(o.heights.len(), 2);
    assert_eq!((o.heights[0].height, o.heights[0].label.as_str()), (720, "720p"));
    assert_eq!(o.heights[0].bitrates, vec![8000, 5000]);
    assert_eq!(o.heights[0].ring_mb_60s, vec![57, 36]);
    assert_eq!((o.heights[1].height, o.heights[1].label.as_str()), (1080, "1080p"));
    assert_eq!(o.heights[1].bitrates, vec![20000, 12000]);
    assert_eq!(o.heights[1].ring_mb_60s, vec![143, 86]);
    assert_eq!(o.monitors.len(), 3);
    assert_eq!(o.monitors[1].name, "DP-2");
    assert_eq!(o.monitors[1].label, "DP-2 (2560×1440)");
    assert_eq!(o.current_codec, "odd");
    assert_eq!((o.current_height, o.current_fps), (720, 60));
    assert_eq!(o.current_monitor, "DP-2");
    assert!(o.transcoding);
    assert_eq!((o.buffer_height, o.max_source_height), (1440, 1440));
    assert_eq!(o.vendor, "amd");
    // A monitor that is gone counts as the tallest one.
    let s = settings(&[("out_height", "720"), ("monitor", "gone")]);
    let o = video_options(&s, vec![], &monitors(), &vec![], &vec![], String::new());
    assert!(o.transcoding && o.buffer_height == 1440);
    let o = video_options(&Settings::new(), vec![], &vec![], &vec![], &vec![], String::new());
    assert!(!o.transcoding && o.buffer_height == 0 && o.max_source_height == 0);
    assert_eq!(o.current_codec, "h264");
}

#[test]
fn options_and_plan_agree() {
    for height in ["0", "480", "1080", "1440", "2160"] {
        for monitor in ["", "DP-1", " DP-2", "gone"] {
            let s = settings(&[("out_height", height), ("monitor", monitor)]);
            let t = capture_targets(&s, &monitors());
            let o = video_options(&s, vec![], &monitors(), &vec![], &vec![], String::new());
            assert_eq!(o.transcoding, t.save_height > 0);
            let runs_at = if o.transcoding { t.source_height } else { t.capture_height };
            assert_eq!(o.buffer_height, runs_at);
        }
    }
}
