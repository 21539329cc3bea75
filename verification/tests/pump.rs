use moonlit::pump::{pace_interval_ms, FramePump, PumpAction, PumpEvent};

/// A clock, a queue of frames with the times at which they come, and a writer
/// that takes some time for each frame.
struct World {
    now: u64,
    frames: Vec<(u64, Vec<u8>)>,
    halt_at: u64,
    write_ms: u64,
    fail_after: Option<usize>,
    out: Vec<Vec<u8>>,
    flushed: bool,
    dead: bool,
}

fn run(w: &mut World, interval: u64, fps: u32) -> (u64, u64) {
    let mut pump = FramePump::new(interval, fps);
    let mut action = pump.begin();
    loop {
        let event = match action {
            PumpAction::CheckHalt => PumpEvent::Halted(w.now >= w.halt_at),
            PumpAction::Receive(ms) => {
                if !w.frames.is_empty() && w.frames[0].0 <= w.now + ms {
                    let (at, frame) = w.frames.remove(0);
                    w.now = w.now.max(at);
                    PumpEvent::Frame(frame)
                } else {
                    w.now += ms;
                    PumpEvent::Timeout
                }
            }
            PumpAction::Write => {
                let frame = pump.latest().unwrap().clone();
                w.now += w.write_ms;
                if w.fail_after == Some(w.out.len()) {
                    PumpEvent::WriteFailed
                } else {
                    w.out.push(frame);
                    PumpEvent::Written
                }
            }
            PumpAction::ReadClock => PumpEvent::Clock(w.now),
            PumpAction::Flush => {
                w.flushed = true;
                break;
            }
            PumpAction::ReportDead => {
                w.dead = true;
                break;
            }
        };
        assert!(pump.is_awaited(&event));
        action = pump.step(event);
    }
    (pump.frames_in(), pump.frames_out())
}

fn world(frames: Vec<(u64, Vec<u8>)>, halt_at: u64) -> World {
    World {
        now: 0,
        frames,
        halt_at,
        write_ms: 0,
        fail_after: None,
        out: Vec::new(),
        flushed: false,
        dead: false,
    }
}

/// The pacer holds CFR on a stalled source: one frame in, the writer keeps
/// receiving re-emissions at cadence until halted.
#[test]
fn pacer_holds_cfr_without_input() {
    assert_eq!(pace_interval_ms(60), 16);
    assert_eq!(pace_interval_ms(30), 33);
    let mut w = world(vec![(0, vec![0xABu8; 64])], 75);
    let (fin, n) = run(&mut w, 10, 100);
    // 1 fresh + paced re-emissions (+ bounded catch-up) at 10 ms cadence.
    assert_eq!(fin, 1);
    assert!(n >= 4, "pacer stalled: only {n} frames in ~75 ms");
    let bytes: usize = w.out.iter().map(|f| f.len()).sum();
    assert!(bytes >= 64 * 4, "writer got {bytes} bytes");
    assert!(!w.dead);
    assert!(w.flushed);
    assert!(w.out.iter().all(|f| *f == vec![0xABu8; 64]));
}

#[test]
fn intervals() {
    assert_eq!(pace_interval_ms(0), 1000);
    assert_eq!(pace_interval_ms(1), 1000);
    assert_eq!(pace_interval_ms(1001), 0);
}

#[test]
fn nothing_is_written_before_a_frame_comes() {
    let mut w = world(vec![], 50);
    assert_eq!(run(&mut w, 10, 100), (0, 0));
    assert!(w.out.is_empty() && w.flushed);
}

#[test]
fn slow_writes_are_caught_up() {
    // A frame takes 2 ms to write and the wait for the next one 50 ms: the pump
    // owes the clock frames, and pays eight of them per round.
    let mut w = world(vec![(0, vec![1])], 1000);
    w.write_ms = 2;
    let (fin, fout) = run(&mut w, 50, 100);
    assert_eq!(fin, 1);
    let due = w.now * 100 / 1000;
    assert!(fout <= due + 1 && fout + 9 >= due, "{fout} of {due}");
    // A source that is far behind gets no more than nine in one round; the last
    // frame is repeated once more before the halt is seen.
    let mut w = world(vec![(0, vec![1]), (5000, vec![2])], 5001);
    let (fin, fout) = run(&mut w, 5000, 100);
    assert_eq!((fin, fout), (2, 1 + 9 + 1));
    assert_eq!(w.out[1], vec![2]);
}

#[test]
fn a_failed_write_reports_the_encoder_dead() {
    let mut w = world(vec![(0, vec![1])], 1000);
    w.fail_after = Some(3);
    let (fin, fout) = run(&mut w, 10, 100);
    assert_eq!((fin, fout), (1, 3));
    assert!(w.dead && !w.flushed);
}

#[test]
fn the_end_of_the_frames_ends_the_pump() {
    let mut pump = FramePump::new(10, 60);
    assert_eq!(pump.begin(), PumpAction::CheckHalt);
    assert_eq!(pump.step(PumpEvent::Halted(false)), PumpAction::Receive(10));
    assert!(!pump.is_awaited(&PumpEvent::Written));
    assert_eq!(pump.step(PumpEvent::Disconnected), PumpAction::Flush);
    assert!(!pump.is_awaited(&PumpEvent::Halted(false)));
    assert!(pump.latest().is_none());
}

#[test]
fn a_halt_stops_the_burst() {
    let mut pump = FramePump::new(10, 100);
    pump.step(PumpEvent::Halted(false));
    assert_eq!(pump.step(PumpEvent::Frame(vec![5])), PumpAction::Write);
    assert_eq!(pump.step(PumpEvent::Written), PumpAction::ReadClock);
    assert_eq!(pump.step(PumpEvent::Clock(1000)), PumpAction::CheckHalt);
    assert_eq!(pump.step(PumpEvent::Halted(false)), PumpAction::Write);
    assert_eq!(pump.step(PumpEvent::Written), PumpAction::CheckHalt);
    assert_eq!(pump.step(PumpEvent::Halted(true)), PumpAction::CheckHalt);
    assert_eq!(pump.step(PumpEvent::Halted(true)), PumpAction::Flush);
    assert_eq!(pump.frames_out(), 2);
}
