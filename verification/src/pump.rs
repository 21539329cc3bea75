//! The frame pump: a steady row of frames for the encoder.
//!
//! The screen delivers a frame only when something changes. The pump passes
//! fresh frames on at once, repeats the last one when none comes in time, and
//! catches up with the clock after slow writes, so that the encoded time line
//! keeps pace with the wall.

use vstd::prelude::*;

use crate::encoder::counted_fps;

verus! {

/// How many frames one round may write to catch up with the clock.
pub const BURST: u32 = 8;

/// The time between two frames in milliseconds.
pub open spec fn frame_interval(fps: u32) -> nat {
    1000nat / counted_fps(fps)
}

/// The time between two frames in milliseconds.
pub fn pace_interval_ms(fps: u32) -> (r: u64)
    ensures
        r == frame_interval(fps),
{
    let counted: u32 = if fps < 1 {
        1
    } else {
        fps
    };
    1000 / counted as u64
}

/// What the pump waits for.
#[derive(Debug, Clone, Copy, PartialEq, Eq, Structural)]
pub enum PumpPhase {
    /// Whether the recording was halted, at the head of a round.
    Start,
    /// A fresh frame.
    Receiving,
    /// The outcome of the round's write.
    Writing,
    /// The time since the recording began.
    Timing,
    /// Whether the recording was halted, before a write that catches up.
    CatchingUp,
    /// The outcome of a write that catches up.
    WritingCatchUp,
    /// Nothing: the pump has ended.
    Ended,
}

/// What happened.
#[derive(Debug)]
pub enum PumpEvent {
    /// The recording was halted, or not.
    Halted(bool),
    /// A fresh frame came.
    Frame(Vec<u8>),
    /// No frame came in time.
    Timeout,
    /// No frame will ever come again.
    Disconnected,
    /// The latest frame was written.
    Written,
    /// The latest frame could not be written.
    WriteFailed,
    /// The milliseconds since the recording began.
    Clock(u64),
}

/// What to do next.
#[derive(Debug, Clone, Copy, PartialEq, Eq, Structural)]
pub enum PumpAction {
    /// See whether the recording was halted.
    CheckHalt,
    /// Wait this many milliseconds for a fresh frame.
    Receive(u64),
    /// Write the latest frame.
    Write,
    /// Read the clock.
    ReadClock,
    /// Flush what was written, and end.
    Flush,
    /// Report the encoder dead, and end.
    ReportDead,
}

/// The state of a pump.
pub struct PumpModel {
    pub interval_ms: u64,
    pub fps: u32,
    pub phase: PumpPhase,
    pub latest: Option<Seq<u8>>,
    pub owed: nat,
    pub burst: nat,
    pub frames_in: u64,
    pub frames_out: u64,
}

/// The frame pump.
#[derive(Debug)]
pub struct FramePump {
    interval_ms: u64,
    fps: u32,
    phase: PumpPhase,
    latest: Option<Vec<u8>>,
    owed: u128,
    burst: u32,
    frames_in: u64,
    frames_out: u64,
}

impl View for FramePump {
    type V = PumpModel;

    closed spec fn view(&self) -> PumpModel {
        PumpModel {
            interval_ms: self.interval_ms,
            fps: self.fps,
            phase: self.phase,
            latest: match self.latest {
                Some(f) => Some(f@),
                None => None,
            },
            owed: self.owed as nat,
            burst: self.burst as nat,
            frames_in: self.frames_in,
            frames_out: self.frames_out,
        }
    }
}

/// Whether a pump in this phase waits for this event.
pub open spec fn awaits(phase: PumpPhase, event: PumpEvent) -> bool {
    match phase {
        PumpPhase::Start => event is Halted,
        PumpPhase::Receiving => event is Frame || event is Timeout || event is Disconnected,
        PumpPhase::Writing => event is Written || event is WriteFailed,
        PumpPhase::Timing => event is Clock,
        PumpPhase::CatchingUp => event is Halted,
        PumpPhase::WritingCatchUp => event is Written || event is WriteFailed,
        PumpPhase::Ended => false,
    }
}

/// A counter after one more.
pub open spec fn counted(n: u64) -> u64 {
    if n == u64::MAX {
        0
    } else {
        (n + 1) as u64
    }
}

/// The frames that should have been written after `ms` milliseconds.
pub open spec fn frames_due(ms: u64, fps: u32) -> nat {
    (ms as nat * counted_fps(fps)) / 1000
}

/// A pump in a new phase.
pub open spec fn in_phase(m: PumpModel, phase: PumpPhase) -> PumpModel {
    PumpModel { phase, ..m }
}

/// A pump that either catches up with a frame more or begins a new round: it
/// catches up while frames are due and the burst is not used up.
pub open spec fn paced(m: PumpModel) -> PumpModel {
    if m.frames_out < m.owed && m.burst < BURST {
        in_phase(m, PumpPhase::CatchingUp)
    } else {
        in_phase(m, PumpPhase::Start)
    }
}

/// The pump after an event that it waited for.
pub open spec fn pump_after(m: PumpModel, event: PumpEvent) -> PumpModel {
    match m.phase {
        PumpPhase::Start => match event {
            PumpEvent::Halted(true) => in_phase(m, PumpPhase::Ended),
            _ => in_phase(m, PumpPhase::Receiving),
        },
        PumpPhase::Receiving => match event {
            PumpEvent::Frame(f) => PumpModel {
                latest: Some(f@),
                frames_in: counted(m.frames_in),
                phase: PumpPhase::Writing,
                ..m
            },
            PumpEvent::Timeout => in_phase(
                m,
                if m.latest is Some {
                    PumpPhase::Writing
                } else {
                    PumpPhase::Start
                },
            ),
            _ => in_phase(m, PumpPhase::Ended),
        },
        PumpPhase::Writing => match event {
            PumpEvent::Written => PumpModel {
                frames_out: counted(m.frames_out),
                phase: PumpPhase::Timing,
                ..m
            },
            _ => in_phase(m, PumpPhase::Ended),
        },
        PumpPhase::Timing => match event {
            PumpEvent::Clock(ms) => paced(
                PumpModel { owed: frames_due(ms, m.fps), burst: 0, ..m },
            ),
            _ => m,
        },
        PumpPhase::CatchingUp => match event {
            PumpEvent::Halted(true) => in_phase(m, PumpPhase::Start),
            _ => in_phase(m, PumpPhase::WritingCatchUp),
        },
        PumpPhase::WritingCatchUp => match event {
            PumpEvent::Written => paced(
                PumpModel { frames_out: counted(m.frames_out), burst: m.burst + 1, ..m },
            ),
            _ => in_phase(m, PumpPhase::Ended),
        },
        PumpPhase::Ended => m,
    }
}

/// What a pump asks for when it comes to a phase.
pub open spec fn request(m: PumpModel) -> PumpAction {
    match m.phase {
        PumpPhase::Start => PumpAction::CheckHalt,
        PumpPhase::Receiving => PumpAction::Receive(m.interval_ms),
        PumpPhase::Writing => PumpAction::Write,
        PumpPhase::Timing => PumpAction::ReadClock,
        PumpPhase::CatchingUp => PumpAction::CheckHalt,
        PumpPhase::WritingCatchUp => PumpAction::Write,
        PumpPhase::Ended => PumpAction::Flush,
    }
}

/// What to do after an event: what the new phase asks for, but nothing is
/// flushed to an encoder that is dead.
pub open spec fn action_after(m: PumpModel, event: PumpEvent) -> PumpAction {
    if event is WriteFailed {
        PumpAction::ReportDead
    } else {
        request(pump_after(m, event))
    }
}

/// A pump that has not begun.
pub open spec fn idle_pump(interval_ms: u64, fps: u32) -> PumpModel {
    PumpModel {
        interval_ms,
        fps,
        phase: PumpPhase::Start,
        latest: None,
        owed: 0,
        burst: 0,
        frames_in: 0,
        frames_out: 0,
    }
}

/// Whether a state of a pump can occur.
pub open spec fn pump_ok(m: PumpModel) -> bool {
    &&& m.burst <= BURST
    &&& m.phase == PumpPhase::Writing || m.phase == PumpPhase::Timing || m.phase
        == PumpPhase::CatchingUp || m.phase == PumpPhase::WritingCatchUp ==> m.latest is Some
    &&& m.phase == PumpPhase::CatchingUp || m.phase == PumpPhase::WritingCatchUp ==> m.burst < BURST
        && m.frames_out < m.owed
}

impl FramePump {
    /// A pump that waits at most `interval_ms` for each frame.
    pub fn new(interval_ms: u64, fps: u32) -> (r: Self)
        ensures
            r@ == idle_pump(interval_ms, fps),
            pump_ok(r@),
    {
        FramePump {
            interval_ms,
            fps,
            phase: PumpPhase::Start,
            latest: None,
            owed: 0,
            burst: 0,
            frames_in: 0,
            frames_out: 0,
        }
    }

    /// What to do first.
    pub fn begin(&self) -> (r: PumpAction)
        requires
            self@.phase == PumpPhase::Start,
        ensures
            r == PumpAction::CheckHalt,
    {
        PumpAction::CheckHalt
    }

    /// Whether the pump waits for this event.
    pub fn is_awaited(&self, event: &PumpEvent) -> (r: bool)
        ensures
            r == awaits(self@.phase, *event),
    {
        match self.phase {
            PumpPhase::Start | PumpPhase::CatchingUp => match event {
                PumpEvent::Halted(_) => true,
                _ => false,
            },
            PumpPhase::Receiving => match event {
                PumpEvent::Frame(_) | PumpEvent::Timeout | PumpEvent::Disconnected => true,
                _ => false,
            },
            PumpPhase::Writing | PumpPhase::WritingCatchUp => match event {
                PumpEvent::Written | PumpEvent::WriteFailed => true,
                _ => false,
            },
            PumpPhase::Timing => match event {
                PumpEvent::Clock(_) => true,
                _ => false,
            },
            PumpPhase::Ended => false,
        }
    }

    /// The latest frame.
    pub fn latest(&self) -> (r: Option<&Vec<u8>>)
        ensures
            r is Some <==> self@.latest is Some,
            r matches Some(f) ==> self@.latest == Some(f@),
    {
        self.latest.as_ref()
    }

    /// How many frames came in.
    pub fn frames_in(&self) -> (r: u64)
        ensures
            r == self@.frames_in,
    {
        self.frames_in
    }

    /// How many frames were written.
    pub fn frames_out(&self) -> (r: u64)
        ensures
            r == self@.frames_out,
    {
        self.frames_out
    }

    fn pace(&mut self) -> (r: PumpAction)
        ensures
            final(self)@ == paced(old(self)@),
            r == PumpAction::CheckHalt,
    {
        if (self.frames_out as u128) < self.owed && self.burst < BURST {
            self.phase = PumpPhase::CatchingUp;
        } else {
            self.phase = PumpPhase::Start;
        }
        PumpAction::CheckHalt
    }

    fn fail(&mut self) -> (r: PumpAction)
        ensures
            final(self)@ == in_phase(old(self)@, PumpPhase::Ended),
            r == PumpAction::ReportDead,
    {
        self.phase = PumpPhase::Ended;
        PumpAction::ReportDead
    }

    /// One step: takes the event that the last action brought and gives the
    /// next action.
    pub fn step(&mut self, event: PumpEvent) -> (r: PumpAction)
        requires
            awaits(old(self)@.phase, event),
            pump_ok(old(self)@),
        ensures
            final(self)@ == pump_after(old(self)@, event),
            r == action_after(old(self)@, event),
            pump_ok(final(self)@),
    {
        match self.phase {
            PumpPhase::Start => match event {
                PumpEvent::Halted(true) => {
                    self.phase = PumpPhase::Ended;
                    PumpAction::Flush
                },
                _ => {
                    self.phase = PumpPhase::Receiving;
                    PumpAction::Receive(self.interval_ms)
                },
            },
            PumpPhase::Receiving => match event {
                PumpEvent::Frame(f) => {
                    self.latest = Some(f);
                    self.frames_in = self.frames_in.wrapping_add(1);
                    self.phase = PumpPhase::Writing;
                    PumpAction::Write
                },
                PumpEvent::Timeout => {
                    if self.latest.is_some() {
                        self.phase = PumpPhase::Writing;
                        PumpAction::Write
                    } else {
                        self.phase = PumpPhase::Start;
                        PumpAction::CheckHalt
                    }
                },
                _ => {
                    self.phase = PumpPhase::Ended;
                    PumpAction::Flush
                },
            },
            PumpPhase::Writing => match event {
                PumpEvent::Written => {
                    self.frames_out = self.frames_out.wrapping_add(1);
                    self.phase = PumpPhase::Timing;
                    PumpAction::ReadClock
                },
                _ => self.fail(),
            },
            PumpPhase::Timing => match event {
                PumpEvent::Clock(ms) => {
                    let counted: u32 = if self.fps < 1 {
                        1
                    } else {
                        self.fps
                    };
                    assert(ms * counted <= u64::MAX * u32::MAX) by (nonlinear_arith)
                        requires
                            ms <= u64::MAX,
                            counted <= u32::MAX,
                    ;
                    self.owed = ms as u128 * counted as u128 / 1000;
                    self.burst = 0;
                    self.pace()
                },
                _ => PumpAction::ReadClock,
            },
            PumpPhase::CatchingUp => match event {
                PumpEvent::Halted(true) => {
                    self.phase = PumpPhase::Start;
                    PumpAction::CheckHalt
                },
                _ => {
                    self.phase = PumpPhase::WritingCatchUp;
                    PumpAction::Write
                },
            },
            PumpPhase::WritingCatchUp => match event {
                PumpEvent::Written => {
                    self.frames_out = self.frames_out.wrapping_add(1);
                    self.burst = self.burst + 1;
                    self.pace()
                },
                _ => self.fail(),
            },
            PumpPhase::Ended => PumpAction::Flush,
        }
    }
}

/// What the pump writes is the frame that came in last; it asks for a write
/// only once a frame has come.
pub proof fn law_writes_the_latest_frame(m: PumpModel, event: PumpEvent)
    requires
        pump_ok(m),
        awaits(m.phase, event),
    ensures
        action_after(m, event) == PumpAction::Write ==> pump_after(m, event).latest is Some,
        pump_after(m, event).latest == (match event {
            PumpEvent::Frame(f) => Some(f@),
            _ => m.latest,
        }),
{
}

/// The counters count: frames in with each frame that comes, frames out with
/// each that was written, and neither otherwise.
pub proof fn law_counters_count(m: PumpModel, event: PumpEvent)
    requires
        awaits(m.phase, event),
        m.frames_in < u64::MAX,
        m.frames_out < u64::MAX,
    ensures
        pump_after(m, event).frames_in == m.frames_in + (if event is Frame {
            1int
        } else {
            0
        }),
        pump_after(m, event).frames_out == m.frames_out + (if event is Written {
            1int
        } else {
            0
        }),
{
}

/// A halt seen at the head of a round ends the pump with a flush; a failed write
/// ends it at once and reports the encoder dead. Nothing else does, but the end
/// of the frames.
pub proof fn law_what_ends_the_pump(m: PumpModel, event: PumpEvent)
    requires
        awaits(m.phase, event),
    ensures
        pump_after(m, event).phase == PumpPhase::Ended <==> {
            ||| m.phase == PumpPhase::Start && event == PumpEvent::Halted(true)
            ||| event is Disconnected
            ||| event is WriteFailed
        },
        action_after(m, event) == PumpAction::ReportDead <==> event is WriteFailed,
{
}

/// Catching up never writes more frames than the clock says are due, and a round
/// that was not halted is left only with all due frames written or the burst
/// used up.
pub proof fn law_catching_up_keeps_to_the_clock(m: PumpModel, event: PumpEvent)
    requires
        pump_ok(m),
        awaits(m.phase, event),
        m.phase == PumpPhase::WritingCatchUp || m.phase == PumpPhase::Timing,
        !(event is WriteFailed),
        m.frames_out < u64::MAX,
    ensures
        ({
            let n = pump_after(m, event);
            &&& m.phase == PumpPhase::WritingCatchUp ==> n.frames_out <= n.owed
            &&& n.phase == PumpPhase::Start ==> n.frames_out >= n.owed || n.burst == BURST
        }),
{
}

/// The pump after `n` more writes of one burst, none of them halted or failed.
pub open spec fn after_writes(m: PumpModel, n: nat) -> PumpModel
    decreases n,
{
    if n == 0 {
        m
    } else {
        after_writes(
            pump_after(pump_after(m, PumpEvent::Halted(false)), PumpEvent::Written),
            (n - 1) as nat,
        )
    }
}

proof fn lemma_burst(m: PumpModel, n: nat)
    requires
        pump_ok(m),
        m.owed <= u64::MAX,
        n > 0 ==> m.phase == PumpPhase::CatchingUp,
        n == 0 ==> m.phase == PumpPhase::Start,
        n == (if m.owed <= m.frames_out || m.burst >= BURST {
            0int
        } else if m.owed - m.frames_out < BURST - m.burst {
            m.owed - m.frames_out
        } else {
            BURST - m.burst
        }),
    ensures
        after_writes(m, n).phase == PumpPhase::Start,
        after_writes(m, n).frames_out == m.frames_out + n,
    decreases n,
{
    if n > 0 {
        let next = pump_after(pump_after(m, PumpEvent::Halted(false)), PumpEvent::Written);
        lemma_burst(next, (n - 1) as nat);
    }
}

/// The time line keeps pace with the wall: after a look at the clock, a burst
/// that nothing stops writes all the frames that are due, eight of them at most,
/// and the round ends there. A pump that was no more than eight frames behind is
/// then behind no more.
pub proof fn law_due_frames_are_written(m: PumpModel, ms: u64)
    requires
        pump_ok(m),
        m.phase == PumpPhase::Timing,
        frames_due(ms, m.fps) <= u64::MAX,
    ensures
        ({
            let due = frames_due(ms, m.fps);
            let missing = if due > m.frames_out {
                (due - m.frames_out) as nat
            } else {
                0
            };
            let n = if missing < BURST {
                missing
            } else {
                BURST as nat
            };
            let end = after_writes(pump_after(m, PumpEvent::Clock(ms)), n);
            &&& end.phase == PumpPhase::Start
            &&& end.frames_out == m.frames_out + n
            &&& due <= m.frames_out + BURST ==> end.frames_out >= due
        }),
{
    let next = pump_after(m, PumpEvent::Clock(ms));
    let missing = if frames_due(ms, m.fps) > m.frames_out {
        (frames_due(ms, m.fps) - m.frames_out) as nat
    } else {
        0
    };
    lemma_burst(
        next,
        if missing < BURST {
            missing
        } else {
            BURST as nat
        },
    );
}

/// The interval is the longest one in whole milliseconds with which a second holds
/// all its frames; a rate of zero counts as one frame per second.
pub proof fn law_interval_fits_the_rate(fps: u32)
    ensures
        fps > 0 ==> frame_interval(fps) * fps <= 1000 < (frame_interval(fps) + 1) * fps,
        fps == 0 ==> frame_interval(fps) == 1000,
{
    if fps > 0 {
        let f = fps as int;
        let q = 1000int / f;
        assert(q * f <= 1000 < (q + 1) * f) by (nonlinear_arith)
            requires
                f > 0,
                q == 1000int / f,
        ;
        assert(frame_interval(fps) == q);
    }
}

/// The frames that are due are those whose time has come: one at the end of each
/// frame's share of a second, and no other.
pub proof fn law_frames_fall_due_in_time(ms: u64, fps: u32)
    requires
        fps > 0,
    ensures
        frames_due(ms, fps) * 1000 <= ms * fps < (frames_due(ms, fps) + 1) * 1000,
{
    assert(ms as nat * counted_fps(fps) == ms * fps);
}

/// A burst of the pump writes the frames that are due and not written yet, eight at
/// most, and then a new round begins.
pub proof fn law_bursts_catch_up(m: PumpModel, ms: u64, n: nat)
    requires
        pump_ok(m),
        m.phase == PumpPhase::Timing,
        m.fps > 0,
        ms * m.fps < (m.frames_out + n + 1) * 1000,
        n > 0 ==> (m.frames_out + n) * 1000 <= ms * m.fps,
        m.frames_out + n <= u64::MAX,
    ensures
        n <= 8 ==> {
            let end = after_writes(pump_after(m, PumpEvent::Clock(ms)), n);
            end.phase == PumpPhase::Start && end.frames_out == m.frames_out + n
        },
        n > 8 ==> {
            let end = after_writes(pump_after(m, PumpEvent::Clock(ms)), 8);
            end.phase == PumpPhase::Start && end.frames_out == m.frames_out + 8
        },
{
    law_frames_fall_due_in_time(ms, m.fps);
    law_due_frames_are_written(m, ms);
}

/// One round: unless it was halted, the pump waits for a frame as long as it was
/// made to; a frame that comes is written at once, and so is the last one again
/// where none comes in time; after the write it looks at the clock. Before the first
/// frame there is nothing to write, and a halt between the writes of a burst ends
/// the burst.
pub proof fn law_rounds_of_the_pump(m: PumpModel, frame: Vec<u8>)
    ensures
        m.phase == PumpPhase::Start ==> {
            &&& action_after(m, PumpEvent::Halted(false)) == PumpAction::Receive(m.interval_ms)
            &&& action_after(m, PumpEvent::Halted(true)) == PumpAction::Flush
            &&& pump_after(m, PumpEvent::Halted(false)).phase == PumpPhase::Receiving
        },
        m.phase == PumpPhase::Receiving ==> {
            &&& action_after(m, PumpEvent::Frame(frame)) == PumpAction::Write
            &&& pump_after(m, PumpEvent::Frame(frame)).latest == Some(frame@)
            &&& m.latest is Some ==> action_after(m, PumpEvent::Timeout) == PumpAction::Write
            &&& m.latest is None ==> action_after(m, PumpEvent::Timeout) == PumpAction::CheckHalt
            &&& pump_after(m, PumpEvent::Timeout).latest == m.latest
            &&& action_after(m, PumpEvent::Disconnected) == PumpAction::Flush
        },
        m.phase == PumpPhase::Writing ==> {
            &&& action_after(m, PumpEvent::Written) == PumpAction::ReadClock
            &&& action_after(m, PumpEvent::WriteFailed) == PumpAction::ReportDead
        },
        m.phase == PumpPhase::CatchingUp ==> {
            &&& action_after(m, PumpEvent::Halted(false)) == PumpAction::Write
            &&& pump_after(m, PumpEvent::Halted(true)).phase == PumpPhase::Start
            &&& action_after(m, PumpEvent::Halted(true)) == PumpAction::CheckHalt
        },
        m.phase == PumpPhase::WritingCatchUp ==> action_after(m, PumpEvent::WriteFailed)
            == PumpAction::ReportDead,
{
}

/// A pump keeps the interval and the rate that it was made with.
pub proof fn law_pump_keeps_its_rate(m: PumpModel, event: PumpEvent, interval_ms: u64, fps: u32)
    ensures
        pump_after(m, event).interval_ms == m.interval_ms,
        pump_after(m, event).fps == m.fps,
        ({
            let fresh = idle_pump(interval_ms, fps);
            &&& fresh.interval_ms == interval_ms && fresh.fps == fps
            &&& fresh.phase == PumpPhase::Start && fresh.latest is None
            &&& fresh.frames_in == 0 && fresh.frames_out == 0
        }),
{
}

} // verus!
