use moonlit::settings::{
    audio_levels, buffer_seconds, check_track, is_spanish, notify, read_gains, set_setting,
    set_track_gain, set_track_mute, setting_str, SettingEffect, Settings, TrackGains,
};

fn settings(entries: &[(&str, &str)]) -> Settings {
    let mut s = Settings::new();
    for (k, v) in entries {
        s.set(k, v);
    }
    s
}

#[test]
fn later_values_win() {
    let mut s = settings(&[("a", "1"), ("b", "2"), ("a", "3")]);
    assert_eq!(s.get("a"), Some("3"));
    assert_eq!(s.get("b"), Some("2"));
    assert_eq!(s.get("c"), None);
    s.set("b", "");
    assert_eq!(s.get("b"), Some(""));
    assert_eq!(s.get("a"), Some("3"));
    assert_eq!(Settings::or_empty(Err("locked".to_string())).get("a"), None);
    assert_eq!(Settings::or_empty(Ok(s)).get("a"), Some("3"));
}

#[test]
fn blank_values_fall_back() {
    let s = settings(&[("mic_device", "  \t"), ("desktop_device", " hdmi ")]);
    assert_eq!(setting_str(&s, "mic_device", "default_input"), "default_input");
    assert_eq!(setting_str(&s, "desktop_device", "default_output"), " hdmi ");
    assert_eq!(setting_str(&s, "monitor", ""), "");
}

#[test]
fn buffer_length_is_kept_in_range() {
    for (set, want) in [
        (None, 30),
        (Some("60"), 60),
        (Some("0"), 5),
        (Some("-9223372036854775808"), 5),
        (Some("5"), 5),
        (Some("300"), 300),
        (Some("301"), 300),
        (Some("9223372036854775808"), 30),
        (Some(" 60"), 30),
        (Some(""), 30),
    ] {
        let mut s = Settings::new();
        if let Some(v) = set {
            s.set("buffer_seconds", v);
        }
        assert_eq!(buffer_seconds(&s), want, "{set:?}");
    }
}

#[test]
fn messages_follow_the_locale() {
    assert!(is_spanish(&Settings::new()));
    assert!(is_spanish(&settings(&[("locale", "es-MX")])));
    assert!(!is_spanish(&settings(&[("locale", "en")])));
    assert!(!is_spanish(&settings(&[("locale", "")])));
    assert_eq!(notify(&Settings::new(), "hola", "hello"), "hola");
    assert_eq!(notify(&settings(&[("locale", "en-US")]), "hola", "hello"), "hello");
}

#[test]
fn some_settings_restart_the_recorder() {
    for key in [
        "buffer_seconds",
        "mic_device",
        "desktop_device",
        "video_codec",
        "out_height",
        "fps",
        "monitor",
    ] {
        assert_eq!(set_setting(Ok(()), key, true), Ok(SettingEffect::Restart));
        assert_eq!(set_setting(Ok(()), key, false), Ok(SettingEffect::Stored));
        assert_eq!(
            set_setting(Err("disk full".to_string()), key, true),
            Err("disk full".to_string())
        );
    }
    assert_eq!(set_setting(Ok(()), "locale", true), Ok(SettingEffect::Stored));
    assert_eq!(set_setting(Ok(()), "FPS", true), Ok(SettingEffect::Stored));
}

#[test]
fn gains_are_read_within_range() {
    assert_eq!(
        read_gains(&Settings::new()),
        TrackGains { game: 100, mic: 100, mute_game: false, mute_mic: false }
    );
    let s = settings(&[
        ("gain_game", "250"),
        ("gain_mic", "-3"),
        ("mute_game", "true"),
        ("mute_mic", "yes"),
    ]);
    let want = TrackGains { game: 200, mic: 100, mute_game: true, mute_mic: false };
    assert_eq!(read_gains(&s), want);
    assert_eq!(audio_levels(&s), want);
}

#[test]
fn stored_gains_read_back() {
    for (track, percent, want) in [
        ("game", 0, TrackGains { game: 0, mic: 100, mute_game: false, mute_mic: false }),
        ("game", 137, TrackGains { game: 137, mic: 100, mute_game: false, mute_mic: false }),
        ("mic", 4000000000, TrackGains { game: 100, mic: 200, mute_game: false, mute_mic: false }),
    ] {
        let w = set_track_gain(track, percent).unwrap();
        assert_eq!(read_gains(&settings(&[(&w.key, &w.value)])), want);
    }
    for (track, muted, want) in [
        ("game", true, TrackGains { game: 100, mic: 100, mute_game: true, mute_mic: false }),
        ("mic", true, TrackGains { game: 100, mic: 100, mute_game: false, mute_mic: true }),
        ("mic", false, TrackGains { game: 100, mic: 100, mute_game: false, mute_mic: false }),
    ] {
        let w = set_track_mute(track, muted).unwrap();
        assert_eq!(w.value, if muted { "1" } else { "0" });
        assert_eq!(read_gains(&settings(&[(&w.key, &w.value)])), want);
    }
}

#[test]
fn unknown_tracks_are_refused() {
    let refusal = "track must be 'game' or 'mic'".to_string();
    assert_eq!(check_track("game"), Ok(()));
    assert_eq!(check_track("mic"), Ok(()));
    assert_eq!(check_track("Mic"), Err(refusal.clone()));
    assert_eq!(set_track_gain("mix", 10).unwrap_err(), refusal);
    assert_eq!(set_track_mute("", true).unwrap_err(), refusal);
}
