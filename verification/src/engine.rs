//! The Windows recorder: how it starts, what a save takes out of its memory and
//! how it stops.

use vstd::prelude::*;
use vstd::slice::slice_to_vec;

use crate::audio::{kept_seconds, stem_capacity, AudioSnapshot};
use crate::encoder::{encoder_command, video_encoder_args};
use crate::plan::CaptureConfig;
use crate::ring::{
    is_end_of, last_items, last_of, law_empty_ring_replays, law_last_items, law_replay_is_exact,
    law_ring_replays_latest, replays, ring_after, ring_push,
};
use crate::stem::{mix_stems, paired};
use crate::text::{lines_of, opt_text, text_lines, texts};
use crate::ts::{
    cut_ts_window, law_cut_is_an_end, law_cut_starts_on_a_packet, resynced, sync_at,
};

verus! {

/// Seconds that the rings keep beyond the buffer length.
pub const MARGIN_SECS: u32 = 8;

/// How long a new encoder is watched before the screen is opened.
pub const PROOF_MS: u64 = 800;

/// The bytes that the video ring may run over its capacity.
pub const VIDEO_SLACK: usize = 1048576;

/// How a save scales a clip.
#[derive(Debug)]
pub struct SavePlan {
    pub height: u32,
    pub bitrate_kbps: u32,
    pub codec: String,
    pub fps: u32,
    /// The encoder to scale with, if this machine has one.
    pub encoder: Option<String>,
}

/// What a plan says.
pub struct PlanModel {
    pub height: u32,
    pub bitrate_kbps: u32,
    pub codec: Seq<char>,
    pub fps: u32,
    pub encoder: Option<Seq<char>>,
}

impl View for SavePlan {
    type V = PlanModel;

    open spec fn view(&self) -> PlanModel {
        PlanModel {
            height: self.height,
            bitrate_kbps: self.bitrate_kbps,
            codec: self.codec@,
            fps: self.fps,
            encoder: opt_text(self.encoder),
        }
    }
}

/// What an optional plan says.
pub open spec fn opt_plan(plan: Option<SavePlan>) -> Option<PlanModel> {
    match plan {
        Some(p) => Some(p@),
        None => None,
    }
}

fn same_plan(plan: &Option<SavePlan>) -> (r: Option<SavePlan>)
    ensures
        opt_plan(r) == opt_plan(*plan),
{
    match plan {
        Some(p) => {
            let encoder: Option<String> = match &p.encoder {
                Some(e) => Some(e.clone()),
                None => None,
            };
            Some(
                SavePlan {
                    height: p.height,
                    bitrate_kbps: p.bitrate_kbps,
                    codec: p.codec.clone(),
                    fps: p.fps,
                    encoder,
                },
            )
        },
        None => None,
    }
}

/// What a configuration says.
pub struct ConfigModel {
    pub duration_seconds: u32,
    pub fps: u32,
    pub source: Seq<char>,
    pub desktop_device: Seq<char>,
    pub mic_device: Seq<char>,
    pub codec: Seq<char>,
    pub out_height: u32,
    pub bitrate_kbps: u32,
    pub save_height: u32,
    pub save_bitrate_kbps: u32,
    pub save_encoder: Option<Seq<char>>,
    pub nvenc_hq: bool,
}

impl View for CaptureConfig {
    type V = ConfigModel;

    open spec fn view(&self) -> ConfigModel {
        ConfigModel {
            duration_seconds: self.duration_seconds,
            fps: self.fps,
            source: self.source@,
            desktop_device: self.desktop_device@,
            mic_device: self.mic_device@,
            codec: self.codec@,
            out_height: self.out_height,
            bitrate_kbps: self.bitrate_kbps,
            save_height: self.save_height,
            save_bitrate_kbps: self.save_bitrate_kbps,
            save_encoder: opt_text(self.save_encoder),
            nvenc_hq: self.nvenc_hq,
        }
    }
}

/// What an optional configuration says.
pub open spec fn opt_config(config: Option<CaptureConfig>) -> Option<ConfigModel> {
    match config {
        Some(c) => Some(c@),
        None => None,
    }
}

/// The bytes that a stream of that rate takes in that many seconds, in whole
/// kilobytes.
pub open spec fn stream_bytes(bitrate_kbps: u32, seconds: nat) -> nat {
    (bitrate_kbps as nat * seconds) / 8 * 1024
}

/// The capacity of the video ring: the buffer length and a margin, 16 megabytes
/// at least.
pub open spec fn video_capacity(bitrate_kbps: u32, duration: u32) -> nat {
    let bytes = stream_bytes(bitrate_kbps, duration as nat + MARGIN_SECS as nat);
    if bytes < 16777216 {
        16777216
    } else {
        bytes
    }
}

/// The bytes of video that a save takes: the buffer length and two seconds more,
/// one megabyte at least.
pub open spec fn video_window(bitrate_kbps: u32, duration: u32) -> nat {
    let bytes = stream_bytes(bitrate_kbps, duration as nat + 2);
    if bytes < 1048576 {
        1048576
    } else {
        bytes
    }
}

/// The samples of each stem that a save takes.
pub open spec fn stem_window(duration: u32) -> nat {
    duration as nat * 48_000 * 2
}

/// Whether memory of that size can be counted on this machine.
pub open spec fn countable(bitrate_kbps: u32, duration: u32) -> bool {
    &&& duration + MARGIN_SECS <= u32::MAX
    &&& video_capacity(bitrate_kbps, duration) + VIDEO_SLACK <= usize::MAX
    &&& ({
        let stem = stem_capacity(kept_seconds((duration + MARGIN_SECS) as u32));
        stem + stem / 10 <= usize::MAX
    })
}

/// Whether memory of that size can be counted on this machine.
pub fn is_countable(bitrate_kbps: u32, duration: u32) -> (r: bool)
    ensures
        r == countable(bitrate_kbps, duration),
{
    let seconds: u64 = duration as u64 + MARGIN_SECS as u64;
    if seconds > u32::MAX as u64 {
        return false;
    }
    let kept: u64 = if seconds < 10 {
        10
    } else {
        seconds
    };
    let stem: u128 = kept as u128 * 96_000;
    assert(bitrate_kbps * seconds <= u32::MAX * u32::MAX) by (nonlinear_arith)
        requires
            bitrate_kbps <= u32::MAX,
            0 <= seconds <= u32::MAX,
    ;
    let bytes: u128 = bitrate_kbps as u128 * seconds as u128 / 8 * 1024;
    let video: u128 = if bytes < 16777216 {
        16777216
    } else {
        bytes
    };
    assert(stem == stem_capacity(kept_seconds((duration + MARGIN_SECS) as u32)));
    video + VIDEO_SLACK as u128 <= usize::MAX as u128 && stem + stem / 10 <= usize::MAX as u128
}

/// The frame rate that a recorder runs at: 30 where that is asked for, else 60.
pub open spec fn engine_fps(fps: u32) -> u32 {
    if fps == 30 {
        30
    } else {
        60
    }
}

/// The frame rate that a recorder runs at.
pub fn recording_fps(fps: u32) -> (r: u32)
    ensures
        r == engine_fps(fps),
{
    if fps == 30 {
        30
    } else {
        60
    }
}

/// What a recorder that is being started waits for.
#[derive(Debug, Clone, Copy, PartialEq, Eq, Structural)]
pub enum StartPhase {
    /// Nothing: it is not being started.
    Idle,
    /// The clips folder.
    MakingDir,
    /// The name of the encoder.
    ChoosingEncoder,
    /// The monitor and its size.
    FindingMonitor,
    /// The encoder to be launched.
    Spawning,
    /// The encoder to prove that it is alive.
    Proving,
    /// The screen.
    OpeningScreen,
    /// The audio streams.
    OpeningAudio,
}

/// A monitor that was looked for.
#[derive(Debug, Clone, Copy, PartialEq, Eq, Structural)]
pub enum MonitorFound {
    /// There is none.
    Missing,
    /// Its size is not known.
    NoSize,
    Size { width: u32, height: u32 },
}

/// An encoder that ended before its time.
#[derive(Debug)]
pub struct EncoderExit {
    pub status: String,
    /// What it wrote about it.
    pub stderr: String,
}

/// What happened while a recorder was being started.
#[derive(Debug)]
pub enum StartEvent {
    Dir(Result<(), String>),
    /// The GPU vendor, and its encoder for the codec if there is one.
    Encoder { vendor: String, name: Option<String> },
    Monitor(MonitorFound),
    Spawned(Result<(), String>),
    /// The encoder ended, or it is still alive.
    Proof(Option<EncoderExit>),
    Screen(Result<(), String>),
    Audio(Result<(), String>),
}

/// What to do next to start a recorder.
#[derive(Debug)]
pub enum StartStep {
    /// Create the clips folder.
    CreateDir,
    /// Find the encoder for the codec.
    ChooseEncoder,
    /// Find the monitor.
    FindMonitor,
    /// Launch the encoder with these arguments.
    Spawn(Vec<String>),
    /// Wait this many milliseconds, then see whether the encoder is alive.
    AwaitProof(u64),
    /// Capture a screen of this size.
    OpenScreen { width: u32, height: u32 },
    /// Open the audio streams, with rings for this many seconds.
    OpenAudio(u32),
    /// The recorder runs.
    Started,
    /// The recorder could not be started.
    Failed(String),
    /// Stop all that was opened; the recorder could not be started.
    StopAndFail(String),
}

/// What a step says.
pub enum StepModel {
    CreateDir,
    ChooseEncoder,
    FindMonitor,
    Spawn(Seq<Seq<char>>),
    AwaitProof(u64),
    OpenScreen(u32, u32),
    OpenAudio(u32),
    Started,
    Failed(Seq<char>),
    StopAndFail(Seq<char>),
}

impl View for StartStep {
    type V = StepModel;

    open spec fn view(&self) -> StepModel {
        match self {
            StartStep::CreateDir => StepModel::CreateDir,
            StartStep::ChooseEncoder => StepModel::ChooseEncoder,
            StartStep::FindMonitor => StepModel::FindMonitor,
            StartStep::Spawn(args) => StepModel::Spawn(texts(args@)),
            StartStep::AwaitProof(ms) => StepModel::AwaitProof(*ms),
            StartStep::OpenScreen { width, height } => StepModel::OpenScreen(*width, *height),
            StartStep::OpenAudio(secs) => StepModel::OpenAudio(*secs),
            StartStep::Started => StepModel::Started,
            StartStep::Failed(e) => StepModel::Failed(e@),
            StartStep::StopAndFail(e) => StepModel::StopAndFail(e@),
        }
    }
}

/// The state of a recorder.
pub struct EngineModel {
    pub phase: StartPhase,
    pub pending: Option<ConfigModel>,
    pub encoder: Seq<char>,
    pub width: u32,
    pub height: u32,
    /// Whether the screen is captured.
    pub control: bool,
    /// Whether an encoder was launched.
    pub child: bool,
    /// Whether audio is captured.
    pub audio: bool,
    pub ring: Seq<u8>,
    pub ring_cap: nat,
    /// Whether the encoder has ended.
    pub dead: bool,
    pub audio_args: Seq<Seq<char>>,
    pub save_plan: Option<PlanModel>,
    pub duration: u32,
    pub bitrate_kbps: u32,
    pub fps: u32,
}

/// The Windows recorder.
#[derive(Debug)]
pub struct WindowsCaptureEngine {
    phase: StartPhase,
    pending: Option<CaptureConfig>,
    encoder: String,
    width: u32,
    height: u32,
    control: bool,
    video_child: bool,
    audio: bool,
    video_ring: Vec<u8>,
    ring_cap: usize,
    video_dead: bool,
    audio_args: Vec<String>,
    save_plan: Option<SavePlan>,
    duration_secs: u32,
    bitrate_kbps: u32,
    fps: u32,
}

impl View for WindowsCaptureEngine {
    type V = EngineModel;

    closed spec fn view(&self) -> EngineModel {
        EngineModel {
            phase: self.phase,
            pending: opt_config(self.pending),
            encoder: self.encoder@,
            width: self.width,
            height: self.height,
            control: self.control,
            child: self.video_child,
            audio: self.audio,
            ring: self.video_ring@,
            ring_cap: self.ring_cap as nat,
            dead: self.video_dead,
            audio_args: texts(self.audio_args@),
            save_plan: opt_plan(self.save_plan),
            duration: self.duration_secs,
            bitrate_kbps: self.bitrate_kbps,
            fps: self.fps,
        }
    }
}

/// A recorder that was never started.
pub open spec fn fresh_engine() -> EngineModel {
    EngineModel {
        phase: StartPhase::Idle,
        pending: None,
        encoder: Seq::empty(),
        width: 0,
        height: 0,
        control: false,
        child: false,
        audio: false,
        ring: Seq::empty(),
        ring_cap: 0,
        dead: false,
        audio_args: Seq::empty(),
        save_plan: None,
        duration: 0,
        bitrate_kbps: 0,
        fps: 60,
    }
}

/// Whether a state of a recorder can occur: one that runs has a screen, an
/// encoder and audio, and one whose start is under way has only what was opened
/// so far. One that does not run has neither stream names nor a plan for saves.
pub open spec fn engine_ok(m: EngineModel) -> bool {
    &&& m.phase != StartPhase::Idle <==> m.pending is Some
    &&& m.pending matches Some(c) ==> countable(c.bitrate_kbps, c.duration_seconds)
    &&& countable(m.bitrate_kbps, m.duration)
    &&& m.ring_cap + VIDEO_SLACK <= usize::MAX
    &&& m.phase == StartPhase::Idle ==> m.audio == m.control
    &&& m.phase == StartPhase::Idle && m.control ==> m.child && m.ring_cap >= video_window(
        m.bitrate_kbps,
        m.duration,
    )
    &&& m.phase != StartPhase::Idle || !m.control ==> m.audio_args.len() == 0 && m.save_plan is None
    &&& m.phase != StartPhase::Idle ==> !m.audio
    &&& m.phase != StartPhase::Idle && m.phase != StartPhase::OpeningAudio ==> !m.control
    &&& m.phase == StartPhase::Proving || m.phase == StartPhase::OpeningScreen || m.phase
        == StartPhase::OpeningAudio ==> m.child
    &&& m.phase == StartPhase::OpeningAudio ==> m.control
    &&& m.phase == StartPhase::Spawning || m.phase == StartPhase::Proving || m.phase
        == StartPhase::OpeningScreen || m.phase == StartPhase::OpeningAudio ==> m.width > 0
        && m.height > 0 && (m.pending matches Some(c) && m.ring_cap == video_capacity(
        c.bitrate_kbps,
        c.duration_seconds,
    ))
}

/// Whether a recorder in this phase waits for this event.
pub open spec fn start_awaits(phase: StartPhase, event: StartEvent) -> bool {
    match phase {
        StartPhase::Idle => false,
        StartPhase::MakingDir => event is Dir,
        StartPhase::ChoosingEncoder => event is Encoder,
        StartPhase::FindingMonitor => event is Monitor,
        StartPhase::Spawning => event is Spawned,
        StartPhase::Proving => event is Proof,
        StartPhase::OpeningScreen => event is Screen,
        StartPhase::OpeningAudio => event is Audio,
    }
}

/// A recorder whose start goes on.
pub open spec fn going_on(m: EngineModel, phase: StartPhase, step: StepModel) -> (
    EngineModel,
    StepModel,
) {
    (EngineModel { phase, ..m }, step)
}

/// A recorder whose start failed.
pub open spec fn giving_up(m: EngineModel, why: Seq<char>) -> (EngineModel, StepModel) {
    (EngineModel { phase: StartPhase::Idle, pending: None, ..m }, StepModel::Failed(why))
}

/// A recorder that was stopped.
pub open spec fn stopped(m: EngineModel) -> EngineModel {
    EngineModel {
        phase: StartPhase::Idle,
        pending: None,
        control: false,
        child: false,
        audio: false,
        ring: Seq::empty(),
        audio_args: Seq::empty(),
        save_plan: None,
        ..m
    }
}

/// Texts with `sep` between them.
pub open spec fn joined(v: Seq<Seq<char>>, sep: Seq<char>) -> Seq<char>
    decreases v.len(),
{
    if v.len() == 0 {
        Seq::empty()
    } else if v.len() == 1 {
        v[0]
    } else {
        joined(v.drop_last(), sep) + sep + v.last()
    }
}

/// The last five lines of a text, the last one first.
pub open spec fn last_words(text: Seq<char>) -> Seq<char> {
    let back = lines_of(text).reverse();
    joined(
        if back.len() > 5 {
            back.take(5)
        } else {
            back
        },
        " | "@,
    )
}

/// The stems as the recorder's streams are called: both together, then each.
pub open spec fn stream_names(desktop: Seq<char>, mic: Seq<char>) -> Seq<Seq<char>> {
    seq![desktop + "|"@ + mic, desktop, mic]
}

/// How saves scale under a configuration.
pub open spec fn plan_of(c: ConfigModel) -> Option<PlanModel> {
    if c.save_height > 0 {
        Some(
            PlanModel {
                height: c.save_height,
                bitrate_kbps: c.save_bitrate_kbps,
                codec: c.codec,
                fps: engine_fps(c.fps),
                encoder: c.save_encoder,
            },
        )
    } else {
        None
    }
}

/// The start of a recorder: `m` and what it does after an event that it waited
/// for.
pub open spec fn start_after(m: EngineModel, event: StartEvent) -> (EngineModel, StepModel) {
    let c = m.pending->0;
    match event {
        StartEvent::Dir(Ok(_)) => going_on(
            m,
            StartPhase::ChoosingEncoder,
            StepModel::ChooseEncoder,
        ),
        StartEvent::Dir(Err(e)) => giving_up(m, "cannot create clips dir: "@ + e@),
        StartEvent::Encoder { vendor, name: Some(name) } => going_on(
            EngineModel { encoder: name@, ..m },
            StartPhase::FindingMonitor,
            StepModel::FindMonitor,
        ),
        StartEvent::Encoder { vendor, name: None } => giving_up(
            m,
            "codec '"@ + c.codec + "' cannot encode on '"@ + vendor@ + "' (stale setting?)"@,
        ),
        StartEvent::Monitor(MonitorFound::Missing) => giving_up(
            m,
            "no monitor available (Windows 10 1903+ required)"@,
        ),
        StartEvent::Monitor(MonitorFound::NoSize) => giving_up(m, "cannot determine monitor size"@),
        StartEvent::Monitor(MonitorFound::Size { width, height }) => if width == 0 || height == 0 {
            giving_up(m, "cannot determine monitor size"@)
        } else {
            going_on(
                EngineModel {
                    width,
                    height,
                    ring_cap: video_capacity(c.bitrate_kbps, c.duration_seconds),
                    dead: false,
                    ring: Seq::empty(),
                    ..m
                },
                StartPhase::Spawning,
                StepModel::Spawn(
                    encoder_command(
                        m.encoder,
                        c.codec,
                        width,
                        height,
                        c.out_height,
                        c.bitrate_kbps,
                        engine_fps(c.fps),
                        c.nvenc_hq,
                    ),
                ),
            )
        },
        StartEvent::Spawned(Ok(_)) => going_on(
            EngineModel { child: true, ..m },
            StartPhase::Proving,
            StepModel::AwaitProof(PROOF_MS),
        ),
        StartEvent::Spawned(Err(e)) => giving_up(m, e@),
        StartEvent::Proof(None) => going_on(
            m,
            StartPhase::OpeningScreen,
            StepModel::OpenScreen(m.width, m.height),
        ),
        StartEvent::Proof(Some(exit)) => giving_up(
            EngineModel { child: false, ..m },
            "video encoder exited ("@ + exit.status@ + "): "@ + last_words(exit.stderr@),
        ),
        StartEvent::Screen(Ok(_)) => going_on(
            EngineModel { control: true, ..m },
            StartPhase::OpeningAudio,
            StepModel::OpenAudio((c.duration_seconds + MARGIN_SECS) as u32),
        ),
        StartEvent::Screen(Err(e)) => giving_up(m, "WGC start failed: "@ + e@),
        StartEvent::Audio(Ok(_)) => going_on(
            EngineModel {
                pending: None,
                audio: true,
                audio_args: stream_names(c.desktop_device, c.mic_device),
                save_plan: plan_of(c),
                duration: c.duration_seconds,
                bitrate_kbps: c.bitrate_kbps,
                fps: engine_fps(c.fps),
                ..m
            },
            StartPhase::Idle,
            StepModel::Started,
        ),
        StartEvent::Audio(Err(e)) => (stopped(m), StepModel::StopAndFail(e@)),
    }
}

/// What a save takes out of the recorder's memory.
#[derive(Debug)]
pub struct SaveJob {
    /// The end of the transport stream, cut where a packet starts.
    pub video: Vec<u8>,
    /// The end of each stem.
    pub game: Vec<u32>,
    pub mic: Vec<u32>,
    /// The pairs of samples that sum up to the mix.
    pub pairs: Vec<(u32, u32)>,
    /// The length of the clip.
    pub seconds: u32,
}

/// What has to be stopped in the system.
#[derive(Debug, Clone, Copy, PartialEq, Eq, Structural)]
pub struct StopWork {
    pub screen: bool,
    pub encoder: bool,
}

/// The recorder after a piece of the encoded stream came in.
pub open spec fn with_video(m: EngineModel, chunk: Seq<u8>) -> EngineModel {
    EngineModel { ring: ring_after(m.ring, chunk, m.ring_cap, VIDEO_SLACK as nat), ..m }
}

/// Whether `job` is what a save takes out of the recorder's memory and these stems.
pub open spec fn job_of(job: SaveJob, m: EngineModel, game: Seq<u32>, mic: Seq<u32>) -> bool {
    &&& job.video@ == resynced(last_items(m.ring, video_window(m.bitrate_kbps, m.duration)))
    &&& job.game@ == last_items(game, stem_window(m.duration))
    &&& job.mic@ == last_items(mic, stem_window(m.duration))
    &&& job.pairs@ == paired(job.game@, job.mic@)
    &&& job.seconds == m.duration
}

/// Why nothing can be saved, if so.
pub open spec fn save_refusal(m: EngineModel) -> Option<Seq<char>> {
    if !m.control {
        Some("recorder not running"@)
    } else if m.dead && m.ring.len() == 0 {
        Some("video encoder died and no footage is buffered"@)
    } else if m.ring.len() == 0 {
        Some("no video buffered yet"@)
    } else {
        None
    }
}

fn join_two(a: &str, b: &str) -> (r: String)
    ensures
        r@ == a@ + b@,
{
    let mut out: String = a.to_owned();
    out.append(b);
    out
}

/// The last five lines of a text, the last one first.
pub fn last_lines(text: &str) -> (r: String)
    ensures
        r@ == last_words(text@),
{
    let lines: Vec<&str> = text_lines(text);
    let n: usize = lines.len();
    let ghost back = lines_of(text@).reverse();
    let take: usize = if n > 5 {
        5
    } else {
        n
    };
    let ghost chosen = if back.len() > 5 {
        back.take(5)
    } else {
        back
    };
    let mut out: String = String::new();
    assert(out@ =~= joined(chosen.take(0), " | "@));
    for k in 0..take
        invariant
            n == lines@.len(),
            n == lines_of(text@).len(),
            take <= n,
            take == chosen.len(),
            back == lines_of(text@).reverse(),
            chosen == (if back.len() > 5 {
                back.take(5)
            } else {
                back
            }),
            forall|i: int| 0 <= i < lines@.len() ==> (#[trigger] lines@[i])@ == lines_of(text@)[i],
            out@ == joined(chosen.take(k as int), " | "@),
    {
        let line: &str = lines[n - 1 - k];
        assert(line@ == chosen[k as int]);
        let ghost before = out@;
        assert(chosen.take(k + 1).drop_last() =~= chosen.take(k as int));
        if k > 0 {
            out.append(" | ");
        }
        out.append(line);
        assert(out@ =~= joined(chosen.take(k + 1), " | "@));
    }
    assert(chosen.take(take as int) =~= chosen);
    out
}

impl WindowsCaptureEngine {
    /// A recorder that was never started.
    pub fn new() -> (r: Self)
        ensures
            r@ == fresh_engine(),
            engine_ok(r@),
    {
        let r: Self = WindowsCaptureEngine {
            phase: StartPhase::Idle,
            pending: None,
            encoder: String::new(),
            width: 0,
            height: 0,
            control: false,
            video_child: false,
            audio: false,
            video_ring: Vec::new(),
            ring_cap: 0,
            video_dead: false,
            audio_args: Vec::new(),
            save_plan: None,
            duration_secs: 0,
            bitrate_kbps: 0,
            fps: 60,
        };
        assert(texts(r.audio_args@) =~= Seq::<Seq<char>>::empty());
        r
    }

    /// Whether the recorder runs.
    pub fn is_running(&self) -> (r: bool)
        ensures
            r == self@.control,
    {
        self.control
    }

    /// Begins to start the recorder.
    pub fn start_buffer(&mut self, config: CaptureConfig) -> (r: StartStep)
        requires
            engine_ok(old(self)@),
            old(self)@.phase == StartPhase::Idle,
            countable(config.bitrate_kbps, config.duration_seconds),
        ensures
            old(self)@.control ==> final(self)@ == old(self)@ && r@ == StepModel::Failed(
                "recorder already running"@,
            ),
            !old(self)@.control ==> final(self)@ == (EngineModel {
                phase: StartPhase::MakingDir,
                pending: Some(config@),
                ..old(self)@
            }) && r@ == StepModel::CreateDir,
            engine_ok(final(self)@),
    {
        if self.control {
            return StartStep::Failed("recorder already running".to_owned());
        }
        self.pending = Some(config);
        self.phase = StartPhase::MakingDir;
        StartStep::CreateDir
    }

    /// Whether the start of the recorder waits for this event.
    pub fn is_awaited(&self, event: &StartEvent) -> (r: bool)
        ensures
            r == start_awaits(self@.phase, *event),
    {
        match self.phase {
            StartPhase::Idle => false,
            StartPhase::MakingDir => match event {
                StartEvent::Dir(_) => true,
                _ => false,
            },
            StartPhase::ChoosingEncoder => match event {
                StartEvent::Encoder { .. } => true,
                _ => false,
            },
            StartPhase::FindingMonitor => match event {
                StartEvent::Monitor(_) => true,
                _ => false,
            },
            StartPhase::Spawning => match event {
                StartEvent::Spawned(_) => true,
                _ => false,
            },
            StartPhase::Proving => match event {
                StartEvent::Proof(_) => true,
                _ => false,
            },
            StartPhase::OpeningScreen => match event {
                StartEvent::Screen(_) => true,
                _ => false,
            },
            StartPhase::OpeningAudio => match event {
                StartEvent::Audio(_) => true,
                _ => false,
            },
        }
    }

    fn give_up(&mut self, why: String) -> (r: StartStep)
        ensures
            (final(self)@, r@) == giving_up(old(self)@, why@),
    {
        self.phase = StartPhase::Idle;
        self.pending = None;
        StartStep::Failed(why)
    }

    fn monitor_found(&mut self, width: u32, height: u32) -> (r: StartStep)
        requires
            engine_ok(old(self)@),
            old(self)@.phase == StartPhase::FindingMonitor,
            width > 0,
            height > 0,
        ensures
            (final(self)@, r@) == start_after(
                old(self)@,
                StartEvent::Monitor(MonitorFound::Size { width, height }),
            ),
    {
        let (args, bitrate, duration): (Vec<String>, u32, u32) = match &self.pending {
            Some(c) => (
                video_encoder_args(
                    self.encoder.as_str(),
                    c.codec.as_str(),
                    width,
                    height,
                    c.out_height,
                    c.bitrate_kbps,
                    recording_fps(c.fps),
                    c.nvenc_hq,
                ),
                c.bitrate_kbps,
                c.duration_seconds,
            ),
            None => (Vec::new(), 0, 0),
        };
        let seconds: u64 = duration as u64 + MARGIN_SECS as u64;
        assert(bitrate * seconds <= u32::MAX * 0x1_0000_0007) by (nonlinear_arith)
            requires
                bitrate <= u32::MAX,
                0 <= seconds <= 0x1_0000_0007,
        ;
        let bytes: u128 = bitrate as u128 * seconds as u128 / 8 * 1024;
        self.ring_cap = if bytes < 16777216 {
            16777216
        } else {
            bytes as usize
        };
        self.width = width;
        self.height = height;
        self.video_dead = false;
        self.video_ring.clear();
        self.phase = StartPhase::Spawning;
        StartStep::Spawn(args)
    }

    fn audio_opened(&mut self) -> (r: StartStep)
        requires
            engine_ok(old(self)@),
            old(self)@.phase == StartPhase::OpeningAudio,
        ensures
            (final(self)@, r@) == start_after(
                old(self)@,
                StartEvent::Audio(Ok::<(), String>(())),
            ),
    {
        let pending: Option<CaptureConfig> = self.pending.take();
        match pending {
            Some(c) => {
                let fps: u32 = recording_fps(c.fps);
                let mut both: String = c.desktop_device.clone();
                both.append("|");
                both.append(c.mic_device.as_str());
                let mut names: Vec<String> = Vec::new();
                names.push(both);
                names.push(c.desktop_device);
                names.push(c.mic_device);
                assert(texts(names@) =~= stream_names(c.desktop_device@, c.mic_device@));
                self.audio_args = names;
                self.save_plan = if c.save_height > 0 {
                    Some(
                        SavePlan {
                            height: c.save_height,
                            bitrate_kbps: c.save_bitrate_kbps,
                            codec: c.codec,
                            fps,
                            encoder: c.save_encoder,
                        },
                    )
                } else {
                    None
                };
                self.duration_secs = c.duration_seconds;
                self.bitrate_kbps = c.bitrate_kbps;
                self.fps = fps;
            },
            None => {},
        }
        self.audio = true;
        self.phase = StartPhase::Idle;
        StartStep::Started
    }

    /// One step of the start: takes the event that the last step brought and
    /// gives the next step.
    pub fn start_step(&mut self, event: StartEvent) -> (r: StartStep)
        requires
            engine_ok(old(self)@),
            start_awaits(old(self)@.phase, event),
        ensures
            (final(self)@, r@) == start_after(old(self)@, event),
            engine_ok(final(self)@),
    {
        match event {
            StartEvent::Dir(Ok(_)) => {
                self.phase = StartPhase::ChoosingEncoder;
                StartStep::ChooseEncoder
            },
            StartEvent::Dir(Err(e)) => self.give_up(
                join_two("cannot create clips dir: ", e.as_str()),
            ),
            StartEvent::Encoder { vendor, name } => match name {
                Some(name) => {
                    self.encoder = name;
                    self.phase = StartPhase::FindingMonitor;
                    StartStep::FindMonitor
                },
                None => {
                    let mut why: String = "codec '".to_owned();
                    match &self.pending {
                        Some(c) => why.append(c.codec.as_str()),
                        None => {},
                    }
                    why.append("' cannot encode on '");
                    why.append(vendor.as_str());
                    why.append("' (stale setting?)");
                    self.give_up(why)
                },
            },
            StartEvent::Monitor(found) => match found {
                MonitorFound::Missing => self.give_up(
                    "no monitor available (Windows 10 1903+ required)".to_owned(),
                ),
                MonitorFound::NoSize => self.give_up("cannot determine monitor size".to_owned()),
                MonitorFound::Size { width, height } => if width == 0 || height == 0 {
                    self.give_up("cannot determine monitor size".to_owned())
                } else {
                    self.monitor_found(width, height)
                },
            },
            StartEvent::Spawned(Ok(_)) => {
                self.video_child = true;
                self.phase = StartPhase::Proving;
                StartStep::AwaitProof(PROOF_MS)
            },
            StartEvent::Spawned(Err(e)) => self.give_up(e),
            StartEvent::Proof(None) => {
                self.phase = StartPhase::OpeningScreen;
                StartStep::OpenScreen { width: self.width, height: self.height }
            },
            StartEvent::Proof(Some(exit)) => {
                self.video_child = false;
                let mut why: String = "video encoder exited (".to_owned();
                why.append(exit.status.as_str());
                why.append("): ");
                why.append(last_lines(exit.stderr.as_str()).as_str());
                self.give_up(why)
            },
            StartEvent::Screen(Ok(_)) => {
                let duration: u32 = match &self.pending {
                    Some(c) => c.duration_seconds,
                    None => 0,
                };
                self.control = true;
                self.phase = StartPhase::OpeningAudio;
                StartStep::OpenAudio(duration + MARGIN_SECS)
            },
            StartEvent::Screen(Err(e)) => self.give_up(join_two("WGC start failed: ", e.as_str())),
            StartEvent::Audio(Ok(_)) => {
                proof {
                    let c = self@.pending->0;
                    lemma_window_fits(c.bitrate_kbps, c.duration_seconds);
                }
                self.audio_opened()
            },
            StartEvent::Audio(Err(e)) => {
                let _ = self.stop_buffer();
                StartStep::StopAndFail(e)
            },
        }
    }

    /// Takes a piece of the encoded stream into the video ring.
    pub fn push_video(&mut self, chunk: &[u8])
        requires
            engine_ok(old(self)@),
            old(self)@.ring.len() + chunk@.len() <= usize::MAX,
        ensures
            final(self)@ == with_video(old(self)@, chunk@),
            engine_ok(final(self)@),
    {
        ring_push(&mut self.video_ring, chunk, self.ring_cap, VIDEO_SLACK);
    }

    /// The encoder has ended.
    pub fn encoder_ended(&mut self)
        ensures
            final(self)@ == (EngineModel { dead: true, ..old(self)@ }),
            engine_ok(old(self)@) ==> engine_ok(final(self)@),
    {
        self.video_dead = true;
    }

    /// Takes a clip out of the recorder's memory; `audio` are the stems as they
    /// are now, where there are any.
    pub fn save_clip(&self, audio: Option<AudioSnapshot>) -> (r: Result<SaveJob, String>)
        requires
            engine_ok(self@),
        ensures
            r is Err <==> save_refusal(self@) is Some,
            r matches Err(e) ==> save_refusal(self@) == Some(e@),
            r matches Ok(job) ==> {
                let game = match audio {
                    Some(a) => a.game@,
                    None => Seq::empty(),
                };
                let mic = match audio {
                    Some(a) => a.mic@,
                    None => Seq::empty(),
                };
                &&& job_of(job, self@, game, mic)
                &&& job.video@ == resynced(
                    last_items(
                        self@.ring,
                        video_window(self@.bitrate_kbps, self@.duration),
                    ),
                )
                &&& job.game@ == last_items(game, stem_window(self@.duration))
                &&& job.mic@ == last_items(mic, stem_window(self@.duration))
                &&& job.pairs@ == paired(job.game@, job.mic@)
                &&& job.seconds == self@.duration
            },
    {
        if !self.control {
            return Err("recorder not running".to_owned());
        }
        if self.video_dead && self.video_ring.len() == 0 {
            return Err("video encoder died and no footage is buffered".to_owned());
        }
        if self.video_ring.len() == 0 {
            return Err("no video buffered yet".to_owned());
        }
        let keep: usize = self.window();
        let video: Vec<u8> = slice_to_vec(cut_ts_window(self.video_ring.as_slice(), keep));
        let tail: usize = self.duration_secs as usize * 48_000 * 2;
        let (game, mic): (Vec<u32>, Vec<u32>) = match audio {
            Some(a) => (a.game, a.mic),
            None => (Vec::new(), Vec::new()),
        };
        let game: Vec<u32> = last_of(game, tail);
        let mic: Vec<u32> = last_of(mic, tail);
        let pairs: Vec<(u32, u32)> = mix_stems(game.as_slice(), mic.as_slice());
        Ok(SaveJob { video, game, mic, pairs, seconds: self.duration_secs })
    }

    fn window(&self) -> (r: usize)
        requires
            engine_ok(self@),
        ensures
            r == video_window(self@.bitrate_kbps, self@.duration),
    {
        let bitrate: u32 = self.bitrate_kbps;
        let seconds: u64 = self.duration_secs as u64 + 2;
        assert(bitrate * seconds <= u32::MAX * 0x1_0000_0001) by (nonlinear_arith)
            requires
                bitrate <= u32::MAX,
                0 <= seconds <= 0x1_0000_0001,
        ;
        let bytes: u128 = bitrate as u128 * seconds as u128 / 8 * 1024;
        proof {
            lemma_window_fits(self.bitrate_kbps, self.duration_secs);
        }
        if bytes < 1048576 {
            1048576
        } else {
            bytes as usize
        }
    }

    /// Stops the recorder and forgets what it holds.
    pub fn stop_buffer(&mut self) -> (r: StopWork)
        ensures
            final(self)@ == stopped(old(self)@),
            r == (StopWork { screen: old(self)@.control, encoder: old(self)@.child }),
            engine_ok(old(self)@) ==> engine_ok(final(self)@),
    {
        let work: StopWork = StopWork { screen: self.control, encoder: self.video_child };
        self.phase = StartPhase::Idle;
        self.pending = None;
        self.control = false;
        self.video_child = false;
        self.audio = false;
        self.audio_args.clear();
        self.save_plan = None;
        self.video_ring.clear();
        assert(texts(self.audio_args@) =~= Seq::<Seq<char>>::empty());
        work
    }

    /// What the backend is called.
    pub fn backend_name(&self) -> (r: &'static str)
        ensures
            r@ == "windows-capture"@,
    {
        "windows-capture"
    }

    /// The stems as the recorder's streams are called.
    pub fn audio_args(&self) -> (r: Vec<String>)
        ensures
            texts(r@) == self@.audio_args,
    {
        let mut out: Vec<String> = Vec::new();
        for i in 0..self.audio_args.len()
            invariant
                out@.len() == i,
                forall|j: int| 0 <= j < i ==> (#[trigger] out@[j])@ == self.audio_args@[j]@,
        {
            out.push(self.audio_args[i].clone());
        }
        assert(texts(out@) =~= texts(self.audio_args@));
        out
    }

    /// How saves scale.
    pub fn save_plan(&self) -> (r: Option<SavePlan>)
        ensures
            opt_plan(r) == self@.save_plan,
    {
        same_plan(&self.save_plan)
    }
}

proof fn lemma_stream_bytes_grow(bitrate_kbps: u32, a: nat, b: nat)
    requires
        a <= b,
    ensures
        stream_bytes(bitrate_kbps, a) <= stream_bytes(bitrate_kbps, b),
{
    assert(bitrate_kbps as nat * a <= bitrate_kbps as nat * b) by (nonlinear_arith)
        requires
            a <= b,
            0 <= bitrate_kbps,
    ;
}

proof fn lemma_window_fits(bitrate_kbps: u32, duration: u32)
    ensures
        video_window(bitrate_kbps, duration) <= video_capacity(bitrate_kbps, duration),
{
    lemma_stream_bytes_grow(
        bitrate_kbps,
        duration as nat + 2,
        duration as nat + MARGIN_SECS as nat,
    );
}

/// A start that fails never leaves a recorder that runs, and one that succeeds
/// always does; either way it can be seen from the step.
pub proof fn law_start_is_all_or_nothing(m: EngineModel, event: StartEvent)
    requires
        engine_ok(m),
        start_awaits(m.phase, event),
    ensures
        ({
            let (n, step) = start_after(m, event);
            &&& n.phase == StartPhase::Idle <==> step is Started || step is Failed
                || step is StopAndFail
            &&& step is Started ==> n.control && n.child && n.audio
            &&& step is Failed || step is StopAndFail ==> !n.control && !n.audio
        }),
{
}

/// The screen is opened only once the encoder has outlived its proof, and audio
/// only once the screen is open.
pub proof fn law_start_keeps_its_order(m: EngineModel, event: StartEvent)
    requires
        engine_ok(m),
        start_awaits(m.phase, event),
    ensures
        ({
            let (n, step) = start_after(m, event);
            &&& step is OpenScreen ==> m.phase == StartPhase::Proving && event == StartEvent::Proof(
                None,
            ) && n.child
            &&& step is OpenAudio ==> m.phase == StartPhase::OpeningScreen && n.control
            &&& step is Started ==> m.phase == StartPhase::OpeningAudio
        }),
{
}

/// A recorder that was stopped holds nothing back: there is nothing to save, and
/// it can be started again.
pub proof fn law_stopped_holds_nothing(m: EngineModel)
    ensures
        ({
            let n = stopped(m);
            &&& save_refusal(n) == Some("recorder not running"@)
            &&& n.ring.len() == 0
            &&& n.audio_args.len() == 0
            &&& n.save_plan is None
            &&& n.phase == StartPhase::Idle && !n.control
            &&& !n.child && !n.audio && n.pending is None
            &&& n.duration == m.duration && n.bitrate_kbps == m.bitrate_kbps
            &&& stopped(n) == n
        }),
{
}

/// The video ring replays the encoded stream: a new encoder begins with an empty
/// one, and each piece of the stream leaves its end in the ring.
pub proof fn law_ring_follows_the_stream(
    m: EngineModel,
    width: u32,
    height: u32,
    encoded: Seq<u8>,
    chunk: Seq<u8>,
)
    requires
        width > 0,
        height > 0,
        replays(m.ring, encoded, m.ring_cap, VIDEO_SLACK as nat),
    ensures
        ({
            let n = start_after(m, StartEvent::Monitor(MonitorFound::Size { width, height })).0;
            replays(n.ring, Seq::empty(), n.ring_cap, VIDEO_SLACK as nat)
        }),
        replays(with_video(m, chunk).ring, encoded + chunk, m.ring_cap, VIDEO_SLACK as nat),
        with_video(m, chunk).ring_cap == m.ring_cap,
{
    let n = start_after(m, StartEvent::Monitor(MonitorFound::Size { width, height })).0;
    law_empty_ring_replays::<u8>(n.ring_cap, VIDEO_SLACK as nat);
    law_ring_replays_latest(m.ring, encoded, chunk, m.ring_cap, VIDEO_SLACK as nat);
}

/// The memory of a recorder that runs is large enough for its saves: a save
/// delivers the same video as if nothing had ever been forgotten.
pub proof fn law_saved_video_is_exact(m: EngineModel, encoded: Seq<u8>)
    requires
        engine_ok(m),
        m.phase == StartPhase::Idle,
        m.control,
        replays(m.ring, encoded, m.ring_cap, VIDEO_SLACK as nat),
    ensures
        last_items(m.ring, video_window(m.bitrate_kbps, m.duration)) == last_items(
            encoded,
            video_window(m.bitrate_kbps, m.duration),
        ),
{
    law_replay_is_exact(
        m.ring,
        encoded,
        video_window(m.bitrate_kbps, m.duration),
        m.ring_cap,
        VIDEO_SLACK as nat,
    );
}

/// The stem rings that a start asks for are large enough too: a save takes the
/// same samples as if nothing had ever been forgotten.
pub proof fn law_saved_stems_are_exact(duration: u32, ring: Seq<u32>, heard: Seq<u32>)
    requires
        duration + MARGIN_SECS <= u32::MAX,
        ({
            let capacity = stem_capacity(kept_seconds((duration + MARGIN_SECS) as u32));
            replays(ring, heard, capacity, capacity / 10)
        }),
    ensures
        last_items(ring, stem_window(duration)) == last_items(heard, stem_window(duration)),
{
    let capacity = stem_capacity(kept_seconds((duration + MARGIN_SECS) as u32));
    law_replay_is_exact(ring, heard, stem_window(duration), capacity, capacity / 10);
}

/// A save covers the whole buffer length: of a stream that holds as many bytes as
/// the bitrate makes in that time and two seconds more, it takes exactly the last
/// of them, and never less than a megabyte; of a shorter stream it takes all.
pub proof fn law_save_covers_the_buffer_length(m: EngineModel, encoded: Seq<u8>)
    requires
        engine_ok(m),
        m.phase == StartPhase::Idle,
        m.control,
        replays(m.ring, encoded, m.ring_cap, VIDEO_SLACK as nat),
    ensures
        ({
            let window = video_window(m.bitrate_kbps, m.duration);
            let taken = last_items(m.ring, window);
            let wanted = (m.bitrate_kbps as int * (m.duration + 2)) / 8 * 1024;
            &&& window >= (m.bitrate_kbps as int * m.duration) / 8 * 1024
            &&& window >= wanted && window >= 1048576
            &&& window == wanted || window == 1048576
            &&& encoded.len() >= window ==> taken == encoded.skip(encoded.len() - window)
            &&& encoded.len() < window ==> taken == encoded
        }),
{
    law_saved_video_is_exact(m, encoded);
    let kbps = m.bitrate_kbps as int;
    let secs = m.duration as int;
    assert(kbps * secs <= kbps * (secs + 2)) by (nonlinear_arith)
        requires
            kbps >= 0,
    ;
    assert(encoded.skip(0) =~= encoded);
}

/// The video ring holds what the bitrate makes in the buffer length and eight
/// seconds more, in whole kilobytes, and sixteen megabytes at least.
pub proof fn law_video_ring_has_a_margin(bitrate_kbps: u32, duration: u32)
    ensures
        ({
            let wanted = (bitrate_kbps as int * (duration + 8)) / 8 * 1024;
            let capacity = video_capacity(bitrate_kbps, duration);
            &&& capacity >= wanted && capacity >= 16 * 1024 * 1024
            &&& capacity == wanted || capacity == 16 * 1024 * 1024
        }),
{
}

/// A save takes as many samples of each stem as 48 kHz stereo makes in the buffer
/// length; a stem that holds fewer is taken whole.
pub proof fn law_save_covers_the_stems(duration: u32, stem: Seq<u32>)
    ensures
        ({
            let taken = last_items(stem, stem_window(duration));
            &&& stem.len() >= duration * 96_000 ==> taken == stem.skip(
                stem.len() - duration * 96_000,
            )
            &&& stem.len() < duration * 96_000 ==> taken == stem
        }),
{
    assert(stem.skip(0) =~= stem);
}

/// What a save delivers: video from the end of the encoded stream, as long as the
/// bitrate makes it in the buffer length and two seconds more but for what stands
/// before the first packet; of each stem the last samples, as many as 48 kHz stereo
/// makes in the buffer length; and the pairs of these for the mix.
pub proof fn law_what_a_save_delivers(
    job: SaveJob,
    m: EngineModel,
    encoded: Seq<u8>,
    game: Seq<u32>,
    mic: Seq<u32>,
)
    requires
        engine_ok(m),
        m.phase == StartPhase::Idle,
        m.control,
        replays(m.ring, encoded, m.ring_cap, VIDEO_SLACK as nat),
        job_of(job, m, game, mic),
    ensures
        is_end_of(job.video@, encoded),
        ({
            let window = (m.bitrate_kbps as int * (m.duration + 2)) / 8 * 1024;
            let head = encoded.len() - window;
            &&& job.video@.len() <= window || job.video@.len() <= 1048576
            &&& head >= 0 && window >= 1048576 && encoded[head] == 0x47 && encoded[head + 188] == 0x47
                ==> job.video@.len() == window
        }),
        encoded.len() > 0 ==> job.video@.len() > 0,
        is_end_of(job.game@, game) && is_end_of(job.mic@, mic),
        game.len() >= m.duration * 96_000 ==> job.game@.len() == m.duration * 96_000,
        game.len() < m.duration * 96_000 ==> job.game@ == game,
        mic.len() >= m.duration * 96_000 ==> job.mic@.len() == m.duration * 96_000,
        mic.len() < m.duration * 96_000 ==> job.mic@ == mic,
        job.pairs@.len() <= job.game@.len() && job.pairs@.len() <= job.mic@.len(),
        job.pairs@.len() == job.game@.len() || job.pairs@.len() == job.mic@.len(),
        forall|i: int|
            0 <= i < job.pairs@.len() ==> #[trigger] job.pairs@[i] == (job.game@[i], job.mic@[i]),
        job.seconds == m.duration,
{
    law_save_covers_the_buffer_length(m, encoded);
    let w = video_window(m.bitrate_kbps, m.duration);
    let win = last_items(encoded, w);
    assert(last_items(m.ring, w) == win) by {
        law_saved_video_is_exact(m, encoded);
    }
    law_cut_is_an_end(encoded, w);
    law_last_items(game, stem_window(m.duration));
    law_last_items(mic, stem_window(m.duration));
    law_last_items(encoded, w);
    assert(game.skip(0) =~= game);
    assert(mic.skip(0) =~= mic);
    let wanted = (m.bitrate_kbps as int * (m.duration + 2)) / 8 * 1024;
    if encoded.len() >= wanted && wanted >= 1048576 && encoded[encoded.len() - wanted] == 0x47
        && encoded[encoded.len() - wanted + 188] == 0x47 {
        assert(w == wanted);
        assert(win[0] == encoded[encoded.len() - wanted]);
        assert(win[188] == encoded[encoded.len() - wanted + 188]);
        assert(sync_at(win, 0));
        law_cut_starts_on_a_packet(win, 0);
    }
}

/// A save is refused where the recorder does not run, and where nothing is buffered;
/// nothing else refuses it, not even an encoder that has ended.
pub proof fn law_when_a_save_is_refused(m: EngineModel)
    ensures
        save_refusal(m) is None <==> m.control && m.ring.len() > 0,
        !m.control ==> save_refusal(m) == Some("recorder not running"@),
        m.control && m.ring.len() == 0 && !m.dead ==> save_refusal(m) == Some(
            "no video buffered yet"@,
        ),
        m.control && m.ring.len() == 0 && m.dead ==> save_refusal(m) == Some(
            "video encoder died and no footage is buffered"@,
        ),
{
}

/// A recorder runs with what it was started with: the buffer length, the bitrate, 30
/// frames a second where those are asked for and 60 otherwise, its two streams by
/// name, and a plan for saves exactly where a save height is asked for.
pub proof fn law_recorder_runs_as_started(m: EngineModel, ok: ())
    requires
        m.phase == StartPhase::OpeningAudio,
        m.pending is Some,
    ensures
        ({
            let c = m.pending->0;
            let n = start_after(m, StartEvent::Audio(Ok::<(), String>(ok))).0;
            &&& n.duration == c.duration_seconds
            &&& n.bitrate_kbps == c.bitrate_kbps
            &&& c.fps == 30 ==> n.fps == 30
            &&& c.fps != 30 ==> n.fps == 60
            &&& n.audio_args == seq![
                c.desktop_device + "|"@ + c.mic_device,
                c.desktop_device,
                c.mic_device,
            ]
            &&& c.save_height == 0 ==> n.save_plan is None
            &&& c.save_height > 0 ==> (n.save_plan matches Some(p) && p.height == c.save_height
                && p.bitrate_kbps == c.save_bitrate_kbps && p.codec == c.codec && p.fps == n.fps
                && p.encoder == c.save_encoder)
            &&& n.ring_cap == m.ring_cap && n.ring == m.ring
            &&& n.audio && n.control == m.control && n.child == m.child
        }),
{
}

/// The encoder is launched for the monitor's own size, with the codec, the height and
/// the bitrate that are asked for, at 30 or 60 frames a second, and with an empty
/// ring; the screen is captured in that size, and the audio rings are made for eight
/// seconds more than the buffer length.
pub proof fn law_start_follows_the_config(
    m: EngineModel,
    width: u32,
    height: u32,
    vendor: String,
    name: String,
    ok: (),
)
    requires
        m.pending is Some,
        width > 0,
        height > 0,
        m.pending->0.duration_seconds + 8 <= u32::MAX,
    ensures
        ({
            let c = m.pending->0;
            let fps: u32 = if c.fps == 30 {
                30
            } else {
                60
            };
            let (n, step) = start_after(
                m,
                StartEvent::Monitor(MonitorFound::Size { width, height }),
            );
            &&& step == StepModel::Spawn(
                encoder_command(
                    m.encoder,
                    c.codec,
                    width,
                    height,
                    c.out_height,
                    c.bitrate_kbps,
                    fps,
                    c.nvenc_hq,
                ),
            )
            &&& n.width == width && n.height == height
            &&& n.ring.len() == 0 && !n.dead
            &&& n.pending == m.pending
            &&& start_after(m, StartEvent::Dir(Ok::<(), String>(ok))).1 is ChooseEncoder
            &&& start_after(m, StartEvent::Encoder { vendor, name: Some(name) }).1 is FindMonitor
            &&& start_after(m, StartEvent::Encoder { vendor, name: Some(name) }).0.encoder == name@
            &&& start_after(m, StartEvent::Spawned(Ok::<(), String>(ok))).1
                == StepModel::AwaitProof(800)
            &&& start_after(m, StartEvent::Proof(None)).1 == StepModel::OpenScreen(
                m.width,
                m.height,
            )
            &&& start_after(m, StartEvent::Screen(Ok::<(), String>(ok))).1 == StepModel::OpenAudio(
                (c.duration_seconds + 8) as u32,
            )
        }),
{
}

/// A start that fails says what failed and why: the folder, the encoder that the GPU
/// does not have, the monitor or its size, the encoder's own words, the screen or the
/// audio.
pub proof fn law_start_says_why_it_failed(
    m: EngineModel,
    e: String,
    vendor: String,
    exit: EncoderExit,
    side: u32,
)
    requires
        m.pending is Some,
    ensures
        start_after(m, StartEvent::Dir(Err::<(), String>(e))).1 == StepModel::Failed(
            "cannot create clips dir: "@ + e@,
        ),
        start_after(m, StartEvent::Encoder { vendor, name: None }).1 == StepModel::Failed(
            "codec '"@ + m.pending->0.codec + "' cannot encode on '"@ + vendor@
                + "' (stale setting?)"@,
        ),
        start_after(m, StartEvent::Monitor(MonitorFound::Missing)).1 == StepModel::Failed(
            "no monitor available (Windows 10 1903+ required)"@,
        ),
        start_after(m, StartEvent::Monitor(MonitorFound::NoSize)).1 == StepModel::Failed(
            "cannot determine monitor size"@,
        ),
        start_after(m, StartEvent::Monitor(MonitorFound::Size { width: 0, height: side })).1
            == StepModel::Failed("cannot determine monitor size"@),
        start_after(m, StartEvent::Monitor(MonitorFound::Size { width: side, height: 0 })).1
            == StepModel::Failed("cannot determine monitor size"@),
        start_after(m, StartEvent::Spawned(Err::<(), String>(e))).1 == StepModel::Failed(e@),
        start_after(m, StartEvent::Proof(Some(exit))).1 == StepModel::Failed(
            "video encoder exited ("@ + exit.status@ + "): "@ + last_words(exit.stderr@),
        ),
        start_after(m, StartEvent::Screen(Err::<(), String>(e))).1 == StepModel::Failed(
            "WGC start failed: "@ + e@,
        ),
        start_after(m, StartEvent::Audio(Err::<(), String>(e))).1 == StepModel::StopAndFail(e@),
{
}

/// The last words of a text are its last five lines, or all where there are fewer,
/// the last one first, with a bar between them.
pub proof fn law_last_words(text: Seq<char>)
    ensures
        ({
            let l = lines_of(text);
            let n = l.len() as int;
            let bar = " | "@;
            &&& n == 0 ==> last_words(text).len() == 0
            &&& n == 1 ==> last_words(text) == l[0]
            &&& n == 2 ==> last_words(text) == l[1] + bar + l[0]
            &&& n == 3 ==> last_words(text) == l[2] + bar + l[1] + bar + l[0]
            &&& n == 4 ==> last_words(text) == l[3] + bar + l[2] + bar + l[1] + bar + l[0]
            &&& n >= 5 ==> last_words(text) == l[n - 1] + bar + l[n - 2] + bar + l[n - 3] + bar
                + l[n - 4] + bar + l[n - 5]
        }),
{
    let l = lines_of(text);
    let n = l.len() as int;
    let bar = " | "@;
    let back = l.reverse();
    let v = if back.len() > 5 {
        back.take(5)
    } else {
        back
    };
    if n >= 1 {
        assert(v.take(1) =~= seq![l[n - 1]]);
        assert(joined(v.take(1), bar) == l[n - 1]);
    }
    if n >= 2 {
        assert(v.take(2).drop_last() =~= v.take(1));
        assert(joined(v.take(2), bar) == l[n - 1] + bar + l[n - 2]);
    }
    if n >= 3 {
        assert(v.take(3).drop_last() =~= v.take(2));
        assert(joined(v.take(3), bar) == joined(v.take(2), bar) + bar + l[n - 3]);
    }
    if n >= 4 {
        assert(v.take(4).drop_last() =~= v.take(3));
        assert(joined(v.take(4), bar) == joined(v.take(3), bar) + bar + l[n - 4]);
    }
    if n >= 5 {
        assert(v.take(5).drop_last() =~= v.take(4));
        assert(joined(v.take(5), bar) == joined(v.take(4), bar) + bar + l[n - 5]);
    }
    assert(v.take(v.len() as int) =~= v);
}

/// A recording can be counted where eight seconds more than the buffer length can, and
/// where the bytes of its rings can: those that the bitrate makes, sixteen megabytes
/// at least, with one megabyte to spare, and 48 kHz stereo of ten seconds at least,
/// with a tenth to spare.
pub proof fn law_what_can_be_counted(bitrate_kbps: u32, duration: u32)
    ensures
        ({
            let seconds = duration + 8;
            let stream = (bitrate_kbps as int * seconds) / 8 * 1024;
            let video: int = if stream < 16777216 {
                16777216
            } else {
                stream
            };
            let stem: int = if seconds < 10 {
                960_000
            } else {
                seconds * 96_000
            };
            countable(bitrate_kbps, duration) <==> seconds <= u32::MAX && video + 1048576
                <= usize::MAX && stem + stem / 10 <= usize::MAX
        }),
{
}

/// While a start is under way each step waits for its own event, and a start that is
/// over waits for none.
pub proof fn law_steps_of_a_start(m: EngineModel, event: StartEvent)
    requires
        engine_ok(m),
        start_awaits(m.phase, event),
    ensures
        ({
            let (n, step) = start_after(m, event);
            &&& step is ChooseEncoder <==> n.phase == StartPhase::ChoosingEncoder
            &&& step is FindMonitor <==> n.phase == StartPhase::FindingMonitor
            &&& step is Spawn <==> n.phase == StartPhase::Spawning
            &&& step is AwaitProof <==> n.phase == StartPhase::Proving
            &&& step is OpenScreen <==> n.phase == StartPhase::OpeningScreen
            &&& step is OpenAudio <==> n.phase == StartPhase::OpeningAudio
            &&& event is Dir ==> step is ChooseEncoder || step is Failed
            &&& event is Encoder ==> step is FindMonitor || step is Failed
            &&& event is Monitor ==> step is Spawn || step is Failed
            &&& event is Spawned ==> step is AwaitProof || step is Failed
            &&& event is Proof ==> step is OpenScreen || step is Failed
            &&& event is Screen ==> step is OpenAudio || step is Failed
            &&& event is Audio ==> step is Started || step is StopAndFail
        }),
{
}

} // verus!
