use moonlit::audio::AudioSnapshot;
use moonlit::engine::{
    is_countable, last_lines, recording_fps, EncoderExit, MonitorFound, StartEvent, StartStep,
    StopWork, WindowsCaptureEngine,
};
use moonlit::hotkey::{handle_hotkey, hotkey_saved, restart_notice, HotkeyAction};
use moonlit::plan::CaptureConfig;
use moonlit::ring::{last_of, ring_push};
use moonlit::screen::{FrameFate, FrameFilter, FRAME_QUEUE};
use moonlit::status::{
    audio_error_after, engine_status, fix_gsr_caps, gsr_info, start_buffer, stopped_status,
    FoundBinary,
};

fn config() -> CaptureConfig {
    CaptureConfig {
        duration_seconds: 10,
        fps: 60,
        source: String::new(),
        desktop_device: "spk".to_string(),
        mic_device: "usb".to_string(),
        codec: "h264".to_string(),
        out_height: 0,
        bitrate_kbps: 20000,
        save_height: 720,
        save_bitrate_kbps: 8000,
        save_encoder: Some("h264_nvenc".to_string()),
        nvenc_hq: true,
    }
}

/// The start of a recorder up to the step that `events` lead to.
fn start(engine: &mut WindowsCaptureEngine, events: Vec<StartEvent>) -> StartStep {
    let mut step = engine.start_buffer(config());
    assert!(matches!(step, StartStep::CreateDir));
    for event in events {
        assert!(engine.is_awaited(&event));
        step = engine.start_step(event);
    }
    step
}

fn encoder(name: Option<&str>) -> StartEvent {
    StartEvent::Encoder { vendor: "nvidia".to_string(), name: name.map(|n| n.to_string()) }
}

fn size(width: u32, height: u32) -> StartEvent {
    StartEvent::Monitor(MonitorFound::Size { width, height })
}

fn all() -> Vec<StartEvent> {
    vec![
        StartEvent::Dir(Ok(())),
        encoder(Some("h264_nvenc")),
        size(2560, 1440),
        StartEvent::Spawned(Ok(())),
        StartEvent::Proof(None),
        StartEvent::Screen(Ok(())),
        StartEvent::Audio(Ok(())),
    ]
}

fn running() -> WindowsCaptureEngine {
    let mut engine = WindowsCaptureEngine::new();
    assert!(matches!(start(&mut engine, all()), StartStep::Started));
    engine
}

fn failure(step: StartStep) -> String {
    match step {
        StartStep::Failed(e) => e,
        other => panic!("{other:?}"),
    }
}

#[test]
fn a_start_goes_through_its_steps() {
    let mut engine = WindowsCaptureEngine::new();
    assert_eq!(engine.backend_name(), "windows-capture");
    assert!(engine.audio_args().is_empty() && engine.save_plan().is_none());
    let mut steps = Vec::new();
    steps.push(engine.start_buffer(config()));
    for event in all() {
        assert!(!engine.is_running() || matches!(event, StartEvent::Audio(_)));
        steps.push(engine.start_step(event));
    }
    assert!(matches!(steps[0], StartStep::CreateDir));
    assert!(matches!(steps[1], StartStep::ChooseEncoder));
    assert!(matches!(steps[2], StartStep::FindMonitor));
    let StartStep::Spawn(args) = &steps[3] else { panic!() };
    assert_eq!(
        args.join(" "),
        "-hide_banner -loglevel error -thread_queue_size 32 -f rawvideo -pix_fmt bgra \
         -s 2560x1440 -framerate 60 -i pipe:0 -an -vf fps=60,format=yuv420p -c:v h264_nvenc \
         -preset p7 -tune hq -profile:v high -bf 2 -spatial-aq 1 -multipass disabled -rc cbr \
         -b:v 20000k -maxrate 20000k -bufsize 20000k -g 120 -f mpegts pipe:1"
    );
    assert!(matches!(steps[4], StartStep::AwaitProof(800)));
    assert!(matches!(steps[5], StartStep::OpenScreen { width: 2560, height: 1440 }));
    assert!(matches!(steps[6], StartStep::OpenAudio(18)));
    assert!(matches!(steps[7], StartStep::Started));
    assert!(engine.is_running());
    assert_eq!(engine.audio_args(), vec!["spk|usb", "spk", "usb"]);
    let plan = engine.save_plan().unwrap();
    assert_eq!((plan.height, plan.bitrate_kbps, plan.fps), (720, 8000, 60));
    assert_eq!((plan.codec.as_str(), plan.encoder.as_deref()), ("h264", Some("h264_nvenc")));
    assert_eq!(failure(engine.start_buffer(config())), "recorder already running");
    assert!(engine.is_running());
}

#[test]
fn a_start_that_fails_says_why() {
    let failed = |last: StartEvent, before: usize| -> String {
        let mut engine = WindowsCaptureEngine::new();
        let mut events = all();
        events.truncate(before);
        events.push(last);
        let why = failure(start(&mut engine, events));
        assert!(!engine.is_running());
        // It can be started again.
        assert!(matches!(start(&mut engine, all()), StartStep::Started));
        why
    };
    let e = || Err("denied".to_string());
    assert_eq!(failed(StartEvent::Dir(e()), 0), "cannot create clips dir: denied");
    assert_eq!(
        failed(encoder(None), 1),
        "codec 'h264' cannot encode on 'nvidia' (stale setting?)"
    );
    assert_eq!(
        failed(StartEvent::Monitor(MonitorFound::Missing), 2),
        "no monitor available (Windows 10 1903+ required)"
    );
    assert_eq!(
        failed(StartEvent::Monitor(MonitorFound::NoSize), 2),
        "cannot determine monitor size"
    );
    assert_eq!(failed(size(0, 1), 2), "cannot determine monitor size");
    assert_eq!(failed(size(1, 0), 2), "cannot determine monitor size");
    assert_eq!(failed(StartEvent::Spawned(e()), 3), "denied");
    let exit = EncoderExit {
        status: "exit code: 1".to_string(),
        stderr: "one\ntwo\r\nthree\nfour\nfive\nsix\n".to_string(),
    };
    assert_eq!(
        failed(StartEvent::Proof(Some(exit)), 4),
        "video encoder exited (exit code: 1): six | five | four | three | two"
    );
    assert_eq!(failed(StartEvent::Screen(e()), 5), "WGC start failed: denied");
}

#[test]
fn failed_audio_stops_all() {
    let mut engine = WindowsCaptureEngine::new();
    let mut events = all();
    events.pop();
    events.push(StartEvent::Audio(Err("no device".to_string())));
    let step = start(&mut engine, events);
    assert!(matches!(step, StartStep::StopAndFail(e) if e == "no device"));
    assert!(!engine.is_running());
    assert_eq!(engine.save_clip(None).unwrap_err(), "recorder not running");
}

#[test]
fn recordings_can_be_counted() {
    assert!(is_countable(20000, 10));
    assert!(is_countable(0, 0));
    assert!(!is_countable(1, u32::MAX - 7));
    assert_eq!((recording_fps(30), recording_fps(60), recording_fps(144)), (30, 60, 60));
}

#[test]
fn last_lines_come_first() {
    for text in ["", "a", "a\nb", "1\n2\n3\n4\n5", "1\n2\n3\n4\n5\n6\n\n", "x\r\n\r\ny"] {
        let want = text.lines().rev().take(5).collect::<Vec<_>>().join(" | ");
        assert_eq!(last_lines(text), want);
    }
}

#[test]
fn saves_need_footage() {
    let mut engine = WindowsCaptureEngine::new();
    assert_eq!(engine.save_clip(None).unwrap_err(), "recorder not running");
    engine = running();
    assert_eq!(engine.save_clip(None).unwrap_err(), "no video buffered yet");
    engine.encoder_ended();
    assert_eq!(
        engine.save_clip(None).unwrap_err(),
        "video encoder died and no footage is buffered"
    );
    // What a dead encoder left behind is still delivered.
    engine.push_video(&[1, 2, 3]);
    let job = engine.save_clip(None).unwrap();
    assert_eq!(job.video, vec![1, 2, 3]);
    assert!(job.game.is_empty() && job.mic.is_empty() && job.pairs.is_empty());
    assert_eq!(job.seconds, 10);
}

#[test]
fn saves_take_the_latest() {
    let mut engine = running();
    // 20000 kbps for 12 seconds, in whole kilobytes.
    let window = 20000 * 12 / 8 * 1024;
    let capacity = 20000 * 18 / 8 * 1024;
    let chunk: Vec<u8> = (0..1_000_000u32).map(|i| (i / 7 % 71) as u8).collect();
    let mut whole: Vec<u8> = Vec::new();
    while whole.len() <= capacity + 3 * 1024 * 1024 {
        engine.push_video(&chunk);
        whole.extend_from_slice(&chunk);
    }
    let tail = 10 * 48_000 * 2;
    let game: Vec<u32> = (0..tail as u32 + 7).collect();
    let mic: Vec<u32> = (0..100).collect();
    let snap = AudioSnapshot { game: game.clone(), mic: mic.clone() };
    let job = engine.save_clip(Some(snap)).unwrap();
    // No sync byte anywhere: the window is delivered whole.
    assert_eq!(job.video, whole[whole.len() - window..]);
    assert_eq!(job.game, game[7..]);
    assert_eq!(job.mic, mic);
    assert_eq!(job.pairs.len(), 100);
    assert_eq!(job.pairs[99], (106, 99));
    let work = engine.stop_buffer();
    assert_eq!(work, StopWork { screen: true, encoder: true });
    assert_eq!(engine.save_clip(None).unwrap_err(), "recorder not running");
    assert!(engine.audio_args().is_empty() && engine.save_plan().is_none());
    assert_eq!(engine.stop_buffer(), StopWork { screen: false, encoder: false });
}

#[test]
fn rings_forget_the_oldest() {
    let mut ring: Vec<u32> = Vec::new();
    ring_push(&mut ring, &[1, 2, 3, 4], 3, 2);
    assert_eq!(ring, vec![1, 2, 3, 4]);
    ring_push(&mut ring, &[5], 3, 2);
    assert_eq!(ring, vec![1, 2, 3, 4, 5]);
    ring_push(&mut ring, &[6], 3, 2);
    assert_eq!(ring, vec![4, 5, 6]);
    ring_push(&mut ring, &[7, 8, 9, 10, 11, 12], 3, 2);
    assert_eq!(ring, vec![10, 11, 12]);
    assert_eq!(last_of(vec![1, 2, 3], 2), vec![2, 3]);
    assert_eq!(last_of(vec![1, 2, 3], 9), vec![1, 2, 3]);
    assert_eq!(last_of(vec![1, 2, 3], 0), Vec::<i32>::new());
}

#[test]
fn frames_of_another_size_are_dropped() {
    let mut f = FrameFilter::new(1920, 1080);
    assert_eq!(FRAME_QUEUE, 4);
    assert_eq!(f.on_frame_arrived(false, 1920, 1080), FrameFate::Queued);
    assert_eq!(f.on_frame_arrived(true, 1, 1), FrameFate::Ignored);
    assert_eq!(f.on_frame_arrived(false, 1080, 1920), FrameFate::Dropped { warn: true });
    assert_eq!(f.on_frame_arrived(false, 1920, 1081), FrameFate::Dropped { warn: false });
    assert_eq!(f.on_frame_arrived(false, 1920, 1080), FrameFate::Queued);
}

#[test]
fn status_of_the_recorder() {
    let s = engine_status(true, "windows-capture", 2, Some("late".to_string()));
    assert!(s.running && s.tracks_linked == 2);
    assert_eq!((s.backend.as_str(), s.audio_error.as_deref()), ("windows-capture", Some("late")));
    let s = engine_status(false, "gsr", 2, None);
    assert!(!s.running && s.tracks_linked == 0);
    let s = stopped_status("gsr");
    assert!(!s.running && s.tracks_linked == 0 && s.audio_error.is_none() && s.backend == "gsr");
    assert_eq!(start_buffer(false), Ok(()));
    assert_eq!(start_buffer(true), Err("buffer already running".to_string()));
    assert_eq!(audio_error_after(Ok(2)), None);
    assert_eq!(audio_error_after(Err("x".to_string())), Some("x".to_string()));
}

#[test]
fn binary_of_the_backend() {
    let found = FoundBinary {
        path: "/opt/gsr".to_string(),
        source: "bundled".to_string(),
        caps_ok: true,
    };
    let i = gsr_info(Some(found));
    assert_eq!((i.path.as_str(), i.source.as_str()), ("/opt/gsr", "bundled"));
    assert!(i.caps_ok && i.present);
    let i = gsr_info(None);
    assert_eq!((i.path.as_str(), i.source.as_str()), ("", "missing"));
    assert!(!i.caps_ok && !i.present);
    assert_eq!(fix_gsr_caps("bundled"), Ok(()));
    assert_eq!(
        fix_gsr_caps("system"),
        Err("one-click fix applies to the bundled binary only".to_string())
    );
}

#[test]
fn the_hotkey_saves_or_tells() {
    assert!(matches!(handle_hotkey(true), HotkeyAction::Save));
    let HotkeyAction::Notify(n) = handle_hotkey(false) else { panic!() };
    assert_eq!(n.es, "Búfer detenido — pulsa Start para grabar");
    assert_eq!(n.en, "Buffer stopped — press Start to record");
    let n = hotkey_saved(&Ok("a.mp4".to_string()));
    assert_eq!((n.es.as_str(), n.en.as_str()), ("Clip guardado: a.mp4", "Clip saved: a.mp4"));
    let n = hotkey_saved(&Err("full".to_string()));
    assert_eq!((n.es.as_str(), n.en.as_str()), ("Error al guardar: full", "Save failed: full"));
    let n = restart_notice();
    assert_eq!(n.es, "Búfer reiniciado con la nueva configuración");
    assert_eq!(n.en, "Buffer restarted with new configuration");
}
