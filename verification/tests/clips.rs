use moonlit::clips::{
    backfill_duration, find_clip, launcher_answered, open_clip_external, opener_answered,
    purge_missing_clips, ClipRecord, OpenStep,
};
use moonlit::engine::SavePlan;
use moonlit::save::{SaveEvent, SavePipeline, SaveStep};

fn clip(id: &str, duration_ms: i64) -> ClipRecord {
    ClipRecord { id: id.to_string(), file_name: format!("{id}.mp4"), duration_ms }
}

fn plan(encoder: Option<&str>) -> SavePlan {
    SavePlan {
        height: 720,
        bitrate_kbps: 8000,
        codec: "h264".to_string(),
        fps: 60,
        encoder: encoder.map(|e| e.to_string()),
    }
}

fn failure(step: SaveStep) -> String {
    match step {
        SaveStep::Failed(e) => e,
        other => panic!("{other:?}"),
    }
}

/// A pipeline whose recorder wrote a file of this name, beside these.
fn flushed(name: Option<&str>, taken: &[&str]) -> (SavePipeline, SaveStep) {
    let (mut p, step) = SavePipeline::begin(true);
    assert!(matches!(step, SaveStep::Flush));
    let taken: Vec<String> = taken.iter().map(|t| t.to_string()).collect();
    let step = p.step(SaveEvent::Flushed(Ok((name.map(|n| n.to_string()), taken))));
    (p, step)
}

/// A pipeline that is about to measure `a.mp4`.
fn sized() -> SavePipeline {
    let (mut p, _) = flushed(Some("a.mp4"), &[]);
    p.step(SaveEvent::Prepared(Ok(None)));
    match p.step(SaveEvent::Sized(Ok(77))) {
        SaveStep::Measure { thumbnail, seek_ms } => {
            assert_eq!((thumbnail.as_str(), seek_ms), ("thumb_a.jpg", 1000));
        }
        other => panic!("{other:?}"),
    }
    p
}

fn measured(probe_ms: Option<i64>, thumbnail: Result<(), String>) -> SaveEvent {
    SaveEvent::Measured { probe_ms, thumbnail, buffer_secs: 30 }
}

fn inserted(step: SaveStep) -> (String, String, i64, i64) {
    match step {
        SaveStep::Insert { name, thumbnail, game, duration_ms, size } => {
            assert_eq!(game, "Unknown");
            (name, thumbnail, duration_ms, size)
        }
        other => panic!("{other:?}"),
    }
}

#[test]
fn a_save_goes_through_its_steps() {
    let (mut p, step) = flushed(Some("a.mp4"), &["b.mp4"]);
    assert!(matches!(step, SaveStep::Prepare));
    let step = p.step(SaveEvent::Prepared(Ok(Some(plan(Some("h264_nvenc"))))));
    match step {
        SaveStep::Scale { plan, encoder } => {
            assert_eq!((plan.height, plan.bitrate_kbps, plan.fps), (720, 8000, 60));
            assert_eq!(encoder, "h264_nvenc");
        }
        other => panic!("{other:?}"),
    }
    assert!(!p.is_awaited(&SaveEvent::Discarded));
    assert!(matches!(p.step(SaveEvent::Scaled(true)), SaveStep::Replace));
    assert!(matches!(p.step(SaveEvent::Replaced(true)), SaveStep::Size));
    assert!(matches!(p.step(SaveEvent::Sized(Ok(5))), SaveStep::Measure { .. }));
    let step = p.step(measured(Some(12_345), Ok(())));
    let want = ("a.mp4".to_string(), "thumb_a.jpg".to_string(), 12_345, 5);
    assert_eq!(inserted(step), want);
    assert!(matches!(p.step(SaveEvent::Inserted(Ok(()))), SaveStep::Announce));
    assert_eq!(p.file_name(), Some("a.mp4"));
    assert!(!p.is_awaited(&SaveEvent::Inserted(Ok(()))));
}

#[test]
fn taken_names_get_a_number() {
    let taken = ["a.mp4", "a_2.mp4", "a_4.mp4"];
    let (mut p, step) = flushed(Some("a.mp4"), &taken);
    assert!(matches!(step, SaveStep::Probe(n) if n == "a_3.mp4"));
    // 3 is on disk, 4 is in the index.
    assert!(matches!(p.step(SaveEvent::Probed(true)), SaveStep::Probe(n) if n == "a_5.mp4"));
    assert!(matches!(p.step(SaveEvent::Probed(false)), SaveStep::Rename(n) if n == "a_5.mp4"));
    assert_eq!(p.file_name(), Some("a.mp4"));
    assert!(matches!(p.step(SaveEvent::Renamed(Ok(()))), SaveStep::Prepare));
    assert_eq!(p.file_name(), Some("a_5.mp4"));
    p.step(SaveEvent::Prepared(Ok(None)));
    assert!(matches!(
        p.step(SaveEvent::Sized(Ok(1))),
        SaveStep::Measure { thumbnail, .. } if thumbnail == "thumb_a_5.jpg"
    ));
}

#[test]
fn names_run_out() {
    let (mut p, mut step) = flushed(Some("a.mp4"), &["a.mp4"]);
    let mut tried = 0;
    while let SaveStep::Probe(_) = step {
        tried += 1;
        step = p.step(SaveEvent::Probed(true));
    }
    assert_eq!(tried, 998);
    assert_eq!(failure(step), "cannot find a free clip name");
}

#[test]
fn a_save_that_fails_says_why() {
    let e = || Err("denied".to_string());
    let (_, step) = SavePipeline::begin(false);
    assert_eq!(failure(step), "buffer not running");
    let (mut p, _) = SavePipeline::begin(true);
    assert_eq!(failure(p.step(SaveEvent::Flushed(Err("no video".to_string())))), "no video");
    let (mut p, _) = flushed(Some("a.mp4"), &["a.mp4"]);
    p.step(SaveEvent::Probed(false));
    assert_eq!(failure(p.step(SaveEvent::Renamed(e()))), "cannot dedupe clip name: denied");
    let (mut p, _) = flushed(Some("a.mp4"), &[]);
    assert_eq!(failure(p.step(SaveEvent::Prepared(Err("no ffmpeg".to_string())))), "no ffmpeg");
    let (mut p, _) = flushed(Some("a.mp4"), &[]);
    p.step(SaveEvent::Prepared(Ok(None)));
    assert_eq!(failure(p.step(SaveEvent::Sized(Err("gone".to_string())))), "cannot stat clip: gone");
    // A name that is no text fails once the file was sized.
    let (mut p, step) = flushed(None, &["a.mp4"]);
    assert!(matches!(step, SaveStep::Prepare));
    p.step(SaveEvent::Prepared(Ok(None)));
    assert_eq!(failure(p.step(SaveEvent::Sized(Ok(1)))), "bad clip file name");
    let mut p = sized();
    p.step(measured(Some(2000), Ok(())));
    assert_eq!(failure(p.step(SaveEvent::Inserted(e()))), "denied");
}

#[test]
fn scaling_never_costs_the_clip() {
    for (events, encoder) in [
        (vec![SaveEvent::Scaled(false), SaveEvent::Discarded], Some("h264_qsv")),
        (
            vec![SaveEvent::Scaled(true), SaveEvent::Replaced(false), SaveEvent::Discarded],
            Some("h264_qsv"),
        ),
        (vec![SaveEvent::Discarded], None),
    ] {
        let (mut p, _) = flushed(Some("a.mp4"), &[]);
        let mut step = p.step(SaveEvent::Prepared(Ok(Some(plan(encoder)))));
        for event in events {
            step = p.step(event);
        }
        assert!(matches!(step, SaveStep::Size));
        assert_eq!(p.file_name(), Some("a.mp4"));
    }
}

#[test]
fn short_clips_get_a_second_thumbnail() {
    let e = || Err("no frame".to_string());
    let mut p = sized();
    match p.step(measured(Some(1499), e())) {
        SaveStep::Retry { thumbnail, seek_ms } => {
            assert_eq!((thumbnail.as_str(), seek_ms), ("thumb_a.jpg", 50));
        }
        other => panic!("{other:?}"),
    }
    assert_eq!(inserted(p.step(SaveEvent::Retried(Ok(())))).2, 1499);
    let mut p = sized();
    p.step(measured(Some(0), e()));
    assert_eq!(failure(p.step(SaveEvent::Retried(Err("still none".to_string())))), "still none");
    assert_eq!(failure(sized().step(measured(Some(1500), e()))), "no frame");
    // Without a measured duration the buffer length counts.
    assert_eq!(failure(sized().step(measured(None, e()))), "no frame");
    assert_eq!(inserted(sized().step(measured(None, Ok(())))).2, 30_000);
}

#[test]
fn purge_drops_what_is_gone() {
    let clips = vec![clip("a", 1), clip("b", 1), clip("c", 1)];
    let p = purge_missing_clips(&clips, &vec![false, true, false]);
    assert_eq!(p.ids, vec!["a", "c"]);
    assert_eq!(p.count, 2);
    // The rows that are left have files: a second purge drops nothing.
    let left: Vec<ClipRecord> =
        clips.into_iter().filter(|c| !p.ids.contains(&c.id)).collect();
    assert_eq!(left.len(), 1);
    assert_eq!((left[0].id.as_str(), left[0].file_name.as_str()), ("b", "b.mp4"));
    let p = purge_missing_clips(&left, &vec![true]);
    assert!(p.ids.is_empty() && p.count == 0);
    assert_eq!(purge_missing_clips(&vec![], &vec![]).count, 0);
}

#[test]
fn clips_are_found_by_id() {
    let mut clips = vec![clip("a", 1), clip("b", 2), clip("b", 3)];
    assert_eq!(find_clip(&clips, "b").unwrap().duration_ms, 2);
    assert_eq!(find_clip(&clips, "c").unwrap_err(), "clip not found");
    clips.clear();
    assert_eq!(find_clip(&clips, "a").unwrap_err(), "clip not found");
}

#[test]
fn clips_open_by_opener_or_launcher() {
    assert_eq!(open_clip_external("a.mp4", true), Ok(OpenStep::Opener));
    assert_eq!(
        open_clip_external("a.mp4", false),
        Err("file gone from disk: a.mp4".to_string())
    );
    assert_eq!(opener_answered(true), OpenStep::Opened);
    assert_eq!(opener_answered(false), OpenStep::Launcher);
    assert_eq!(launcher_answered(Ok(())), Ok(OpenStep::Opened));
    assert_eq!(
        launcher_answered(Err("no player".to_string())),
        Err("opener + OS launcher both failed (no player)".to_string())
    );
}

#[test]
fn durations_are_corrected_once() {
    let c = clip("a", 30_000);
    assert_eq!(backfill_duration(&c, true, Some(28_499)), Some(28_499));
    assert_eq!(backfill_duration(&c, true, Some(28_500)), None);
    assert_eq!(backfill_duration(&c, true, Some(31_500)), None);
    assert_eq!(backfill_duration(&c, true, Some(31_501)), Some(31_501));
    assert_eq!(backfill_duration(&c, false, Some(1)), None);
    assert_eq!(backfill_duration(&c, true, None), None);
    assert_eq!(backfill_duration(&clip("a", 28_499), true, Some(28_499)), None);
    assert_eq!(backfill_duration(&clip("a", i64::MIN), true, Some(i64::MAX)), Some(i64::MAX));
}
