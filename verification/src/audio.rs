//! Live audio: two stems in replay rings, their gains and their peaks.

use vstd::prelude::*;

use crate::ring::{law_ring_replays_latest, replays, ring_after, ring_push};
use crate::stem::{
    can_convert, convert, gained_of, silence, GainedStem, STEM_CHANNELS, STEM_RATE,
};
use crate::text::{blank, is_blank, opt_text, white_space};

verus! {

/// The two solo stems at one moment.
#[derive(Debug)]
pub struct AudioSnapshot {
    pub game: Vec<u32>,
    pub mic: Vec<u32>,
}

/// How loud a sample is: its bit pattern without the sign, which orders like the
/// number itself. What is not a number counts as silence.
pub open spec fn loudness(bits: u32) -> u32 {
    let magnitude = bits % 0x8000_0000u32;
    if magnitude > 0x7f80_0000 {
        0
    } else {
        magnitude
    }
}

/// The greatest loudness in a row of samples, and `meter` at least.
pub open spec fn peak_after(meter: u32, samples: Seq<u32>) -> u32
    decreases samples.len(),
{
    if samples.len() == 0 {
        meter
    } else {
        let before = peak_after(meter, samples.drop_last());
        let l = loudness(samples.last());
        if l > before {
            l
        } else {
            before
        }
    }
}

fn note_peak(meter: u32, samples: &[u32]) -> (r: u32)
    ensures
        r == peak_after(meter, samples@),
{
    let mut peak: u32 = meter;
    assert(samples@.take(0) =~= Seq::<u32>::empty());
    for i in 0..samples.len()
        invariant
            peak == peak_after(meter, samples@.take(i as int)),
    {
        assert(samples@.take(i + 1).drop_last() =~= samples@.take(i as int));
        let magnitude: u32 = samples[i] % 0x8000_0000;
        if magnitude <= 0x7f80_0000 && magnitude > peak {
            peak = magnitude;
        }
    }
    assert(samples@.take(samples@.len() as int) =~= samples@);
    peak
}

/// The samples that a stem ring of that many seconds is made for.
pub open spec fn stem_capacity(seconds: u32) -> nat {
    seconds as nat * STEM_RATE as nat * STEM_CHANNELS as nat
}

/// A stem ring after `samples` came in: it may run over by a tenth.
pub open spec fn stem_after(ring: Seq<u32>, samples: Seq<u32>, capacity: nat) -> Seq<u32> {
    if samples.len() == 0 {
        ring
    } else {
        ring_after(ring, samples, capacity, capacity / 10)
    }
}

/// A percentage, 200 at most.
pub open spec fn ceiling(percent: u32) -> u32 {
    if percent > 200 {
        200
    } else {
        percent
    }
}

fn at_most_200(percent: u32) -> (r: u32)
    ensures
        r == ceiling(percent),
{
    if percent > 200 {
        200
    } else {
        percent
    }
}

/// The state of a capture.
pub struct AudioModel {
    pub game: Seq<u32>,
    pub mic: Seq<u32>,
    pub game_peak: u32,
    pub mic_peak: u32,
    pub capacity: nat,
    pub game_pct: u32,
    pub mic_pct: u32,
    pub mute_game: bool,
    pub mute_mic: bool,
    pub game_live: bool,
    pub mic_live: bool,
}

/// What the capture callbacks and the rest of the recorder share.
#[derive(Debug)]
pub struct SharedAudio {
    game_ring: Vec<u32>,
    mic_ring: Vec<u32>,
    game_peak: u32,
    mic_peak: u32,
    capacity: usize,
    game_pct: u32,
    mic_pct: u32,
    mute_game: bool,
    mute_mic: bool,
    game_live: bool,
    mic_live: bool,
}

impl View for SharedAudio {
    type V = AudioModel;

    closed spec fn view(&self) -> AudioModel {
        AudioModel {
            game: self.game_ring@,
            mic: self.mic_ring@,
            game_peak: self.game_peak,
            mic_peak: self.mic_peak,
            capacity: self.capacity as nat,
            game_pct: self.game_pct,
            mic_pct: self.mic_pct,
            mute_game: self.mute_game,
            mute_mic: self.mute_mic,
            game_live: self.game_live,
            mic_live: self.mic_live,
        }
    }
}

/// A capture that has heard nothing yet.
pub open spec fn fresh_audio(
    seconds: u32,
    game_pct: u32,
    mic_pct: u32,
    mute_game: bool,
    mute_mic: bool,
) -> AudioModel {
    AudioModel {
        game: Seq::empty(),
        mic: Seq::empty(),
        game_peak: 0,
        mic_peak: 0,
        capacity: stem_capacity(seconds),
        game_pct: ceiling(game_pct),
        mic_pct: ceiling(mic_pct),
        mute_game,
        mute_mic,
        game_live: false,
        mic_live: false,
    }
}

/// The streams that are live: 0, 1 or 2.
pub open spec fn live_streams(m: AudioModel) -> nat {
    (if m.game_live {
        1nat
    } else {
        0
    }) + (if m.mic_live {
        1nat
    } else {
        0
    })
}

/// The capture with other gains.
pub open spec fn with_gains(
    m: AudioModel,
    game_pct: u32,
    mic_pct: u32,
    mute_game: bool,
    mute_mic: bool,
) -> AudioModel {
    AudioModel {
        game_pct: ceiling(game_pct),
        mic_pct: ceiling(mic_pct),
        mute_game,
        mute_mic,
        ..m
    }
}

/// The capture after a game stem came in.
pub open spec fn game_heard(m: AudioModel, stem: Seq<u32>) -> AudioModel {
    AudioModel {
        game: stem_after(m.game, stem, m.capacity),
        game_peak: peak_after(m.game_peak, stem),
        ..m
    }
}

/// The capture after a microphone stem came in.
pub open spec fn mic_heard(m: AudioModel, stem: Seq<u32>) -> AudioModel {
    AudioModel {
        mic: stem_after(m.mic, stem, m.capacity),
        mic_peak: peak_after(m.mic_peak, stem),
        ..m
    }
}

/// Whether a capture can run with the streams that came up.
pub open spec fn has_stream(game: bool, mic: bool) -> bool {
    game || mic
}

/// The capture with the streams that came up.
pub open spec fn with_streams(m: AudioModel, game: bool, mic: bool) -> AudioModel {
    AudioModel { game_live: game, mic_live: mic, ..m }
}

/// The registry after the capture `id` came up with these streams.
pub open spec fn registry_with(
    registry: AudioRegistry,
    id: u64,
    game: bool,
    mic: bool,
) -> AudioRegistry {
    if has_stream(game, mic) {
        AudioRegistry { current: Some(id) }
    } else {
        registry
    }
}

/// What a device is called in messages.
pub open spec fn shown_device(name: Option<Seq<char>>) -> Seq<char> {
    match name {
        Some(n) => if blank(n) {
            "<none>"@
        } else {
            n
        },
        None => "<none>"@,
    }
}

impl SharedAudio {
    /// A capture for that many seconds.
    pub fn new(
        capacity_secs: u32,
        game_pct: u32,
        mic_pct: u32,
        mute_game: bool,
        mute_mic: bool,
    ) -> (r: Self)
        requires
            stem_capacity(capacity_secs) <= usize::MAX,
        ensures
            r@ == fresh_audio(capacity_secs, game_pct, mic_pct, mute_game, mute_mic),
    {
        SharedAudio {
            game_ring: Vec::new(),
            mic_ring: Vec::new(),
            game_peak: 0,
            mic_peak: 0,
            capacity: capacity_secs as usize * STEM_RATE as usize * STEM_CHANNELS,
            game_pct: at_most_200(game_pct),
            mic_pct: at_most_200(mic_pct),
            mute_game,
            mute_mic,
            game_live: false,
            mic_live: false,
        }
    }

    fn push_stem(ring: &mut Vec<u32>, capacity: usize, samples: &[u32])
        requires
            old(ring)@.len() + samples@.len() <= usize::MAX,
            capacity + capacity / 10 <= usize::MAX,
        ensures
            final(ring)@ == stem_after(old(ring)@, samples@, capacity as nat),
    {
        if samples.len() > 0 {
            ring_push(ring, samples, capacity, capacity / 10);
        }
    }

    /// The samples that a ring is made for.
    pub fn capacity(&self) -> (r: usize)
        ensures
            r == self@.capacity,
    {
        self.capacity
    }

    /// What a captured quantum of the game comes to with the gain it has now.
    pub fn convert_game(&self, samples: &[u32], channels: u16, rate: u32) -> (r: GainedStem)
        requires
            can_convert(samples@.len(), channels, rate),
        ensures
            gained_of(r, samples@, channels, rate, self@.game_pct, self@.mute_game),
    {
        convert(samples, channels, rate, self.game_pct, self.mute_game)
    }

    /// What a captured quantum of the microphone comes to with the gain it has now.
    pub fn convert_mic(&self, samples: &[u32], channels: u16, rate: u32) -> (r: GainedStem)
        requires
            can_convert(samples@.len(), channels, rate),
        ensures
            gained_of(r, samples@, channels, rate, self@.mic_pct, self@.mute_mic),
    {
        convert(samples, channels, rate, self.mic_pct, self.mute_mic)
    }

    /// The gain of the game track, and whether it is muted.
    pub fn game_gain(&self) -> (r: (u32, bool))
        ensures
            r == (self@.game_pct, self@.mute_game),
    {
        (self.game_pct, self.mute_game)
    }

    /// The gain of the microphone track, and whether it is muted.
    pub fn mic_gain(&self) -> (r: (u32, bool))
        ensures
            r == (self@.mic_pct, self@.mute_mic),
    {
        (self.mic_pct, self.mute_mic)
    }

    /// Takes in one quantum of the game stem, gain applied.
    pub fn push_game_quantum(&mut self, stem: &[u32])
        requires
            old(self)@.game.len() + stem@.len() <= usize::MAX,
            old(self)@.capacity + old(self)@.capacity / 10 <= usize::MAX,
        ensures
            final(self)@ == game_heard(old(self)@, stem@),
    {
        self.game_peak = note_peak(self.game_peak, stem);
        SharedAudio::push_stem(&mut self.game_ring, self.capacity, stem);
    }

    /// Takes in one quantum of the microphone stem, gain applied.
    pub fn push_mic_quantum(&mut self, stem: &[u32])
        requires
            old(self)@.mic.len() + stem@.len() <= usize::MAX,
            old(self)@.capacity + old(self)@.capacity / 10 <= usize::MAX,
        ensures
            final(self)@ == mic_heard(old(self)@, stem@),
    {
        self.mic_peak = note_peak(self.mic_peak, stem);
        SharedAudio::push_stem(&mut self.mic_ring, self.capacity, stem);
    }

    /// The streams that are live.
    pub fn live_count(&self) -> (r: usize)
        ensures
            r == live_streams(self@),
            r <= 2,
    {
        let game: usize = if self.game_live {
            1
        } else {
            0
        };
        let mic: usize = if self.mic_live {
            1
        } else {
            0
        };
        game + mic
    }

    /// Both stems as they are now.
    pub fn snapshot(&self) -> (r: AudioSnapshot)
        ensures
            r.game@ == self@.game,
            r.mic@ == self@.mic,
    {
        AudioSnapshot { game: self.game_ring.clone(), mic: self.mic_ring.clone() }
    }

    /// The peaks since the start, game and microphone, as bit patterns. Zero
    /// stands for digital silence.
    pub fn peak_levels(&self) -> (r: (u32, u32))
        ensures
            r == (self@.game_peak, self@.mic_peak),
    {
        (self.game_peak, self.mic_peak)
    }

    /// Notes which streams came up; at least one has to.
    pub fn link(&mut self, game: bool, mic: bool) -> (r: Result<usize, String>)
        ensures
            final(self)@ == (AudioModel { game_live: game, mic_live: mic, ..old(self)@ }),
            final(self)@ == with_streams(old(self)@, game, mic),
            r is Ok <==> game || mic,
            r is Ok <==> has_stream(game, mic),
            r matches Ok(n) ==> n == live_streams(final(self)@),
            r matches Err(e) ==> e@
                == "no audio stream could be started (game and mic both failed)"@,
    {
        self.game_live = game;
        self.mic_live = mic;
        if game || mic {
            Ok(self.live_count())
        } else {
            Err("no audio stream could be started (game and mic both failed)".to_owned())
        }
    }

    /// Changes the gains of what is captured from now on.
    pub fn set_gains(&mut self, game_pct: u32, mic_pct: u32, mute_game: bool, mute_mic: bool) -> (r:
        usize)
        ensures
            final(self)@ == with_gains(old(self)@, game_pct, mic_pct, mute_game, mute_mic),
            r == live_streams(old(self)@),
    {
        self.game_pct = at_most_200(game_pct);
        self.mic_pct = at_most_200(mic_pct);
        self.mute_game = mute_game;
        self.mute_mic = mute_mic;
        self.live_count()
    }
}

/// Changes the gains of the capture that is registered and counts its live
/// streams.
pub fn apply_gains(
    registered: Option<&mut SharedAudio>,
    game_pct: u32,
    mic_pct: u32,
    mute_game: bool,
    mute_mic: bool,
) -> (r: Result<usize, String>)
    ensures
        r is Ok <==> registered is Some,
        r matches Ok(n) ==> registered matches Some(s) && n == live_streams(s@) && final(s)@
            == with_gains(s@, game_pct, mic_pct, mute_game, mute_mic),
        r matches Err(e) ==> e@ == "no Windows audio streams linked (buffer not running)"@,
{
    match registered {
        Some(s) => Ok(s.set_gains(game_pct, mic_pct, mute_game, mute_mic)),
        None => Err("no Windows audio streams linked (buffer not running)".to_owned()),
    }
}

/// The live streams of the capture that is registered, none where there is none.
pub fn linked_count(registered: Option<&SharedAudio>) -> (r: usize)
    ensures
        r == (match registered {
            Some(s) => live_streams(s@),
            None => 0,
        }),
{
    match registered {
        Some(s) => s.live_count(),
        None => 0,
    }
}

/// What a device is called in messages.
pub fn device_label(name: Option<String>) -> (r: String)
    ensures
        r@ == shown_device(opt_text(name)),
        r@ == (match name {
            Some(n) => if blank(n@) {
                "<none>"@
            } else {
                n@
            },
            None => "<none>"@,
        }),
{
    match name {
        Some(n) => if is_blank(n.as_str()) {
            "<none>".to_owned()
        } else {
            n
        },
        None => "<none>".to_owned(),
    }
}

/// The sample format that a device delivers.
#[derive(Debug)]
pub enum SampleFormat {
    F32,
    I16,
    U16,
    /// Any other, by its name.
    Other(String),
}

/// Refuses a sample format that cannot be captured; `stream` names the stream.
pub fn accept_format(stream: &str, format: &SampleFormat) -> (r: Result<(), String>)
    ensures
        r is Ok <==> !(format is Other),
        r matches Err(e) ==> (format matches SampleFormat::Other(name) && e@ == "unsupported "@
            + stream@ + " sample format: "@ + name@),
{
    match format {
        SampleFormat::Other(name) => {
            let mut e: String = "unsupported ".to_owned();
            e.append(stream);
            e.append(" sample format: ");
            e.append(name.as_str());
            Err(e)
        },
        _ => Ok(()),
    }
}

/// Which capture, by its number, gain changes reach.
#[derive(Debug, Clone, Copy, PartialEq, Eq, Structural)]
pub struct AudioRegistry {
    pub current: Option<u64>,
}

/// The registry after the capture `id` was closed: only its own entry goes.
pub open spec fn registry_without(registry: AudioRegistry, id: u64) -> AudioRegistry {
    if registry.current == Some(id) {
        AudioRegistry { current: None }
    } else {
        registry
    }
}

/// A capture session.
#[derive(Debug)]
pub struct AudioCapture {
    pub id: u64,
    pub shared: SharedAudio,
}

/// The seconds that a capture keeps: ten at least.
pub open spec fn kept_seconds(seconds: u32) -> u32 {
    if seconds < 10 {
        10
    } else {
        seconds
    }
}

impl AudioCapture {
    /// A capture whose streams are not open yet.
    pub fn new(
        id: u64,
        capacity_secs: u32,
        game_pct: u32,
        mic_pct: u32,
        mute_game: bool,
        mute_mic: bool,
    ) -> (r: Self)
        requires
            stem_capacity(kept_seconds(capacity_secs)) <= usize::MAX,
        ensures
            r.id == id,
            r.shared@ == fresh_audio(
                kept_seconds(capacity_secs),
                game_pct,
                mic_pct,
                mute_game,
                mute_mic,
            ),
    {
        let seconds: u32 = if capacity_secs < 10 {
            10
        } else {
            capacity_secs
        };
        AudioCapture {
            id,
            shared: SharedAudio::new(seconds, game_pct, mic_pct, mute_game, mute_mic),
        }
    }

    /// The streams were opened, as far as they could be. With at least one the
    /// capture is the registered one from now on.
    pub fn start(&mut self, game: bool, mic: bool, registry: &mut AudioRegistry) -> (r: Result<
        usize,
        String,
    >)
        ensures
            final(self).id == old(self).id,
            final(self).shared@ == (AudioModel {
                game_live: game,
                mic_live: mic,
                ..old(self).shared@
            }),
            final(self).shared@ == with_streams(old(self).shared@, game, mic),
            *final(registry) == registry_with(*old(registry), old(self).id, game, mic),
            r is Ok <==> game || mic,
            r is Ok <==> has_stream(game, mic),
            r matches Ok(n) ==> n == live_streams(final(self).shared@) && n >= 1,
            r matches Err(e) ==> e@
                == "no audio stream could be started (game and mic both failed)"@,
            *final(registry) == (if game || mic {
                AudioRegistry { current: Some(old(self).id) }
            } else {
                *old(registry)
            }),
    {
        let linked: Result<usize, String> = self.shared.link(game, mic);
        if linked.is_ok() {
            registry.current = Some(self.id);
        }
        linked
    }

    /// The capture ends: gain changes no longer reach it, but still reach one
    /// that was registered after it.
    pub fn close(&self, registry: &mut AudioRegistry)
        ensures
            *final(registry) == registry_without(*old(registry), self.id),
    {
        match registry.current {
            Some(current) => if current == self.id {
                registry.current = None;
            },
            None => {},
        }
    }

    /// Both stems as they are now.
    pub fn snapshot(&self) -> (r: AudioSnapshot)
        ensures
            r.game@ == self.shared@.game,
            r.mic@ == self.shared@.mic,
    {
        self.shared.snapshot()
    }

    /// The streams that are live.
    pub fn live_count(&self) -> (r: usize)
        ensures
            r == live_streams(self.shared@),
    {
        self.shared.live_count()
    }

    /// The peaks since the start, game and microphone, as bit patterns.
    pub fn peak_levels(&self) -> (r: (u32, u32))
        ensures
            r == (self.shared@.game_peak, self.shared@.mic_peak),
    {
        self.shared.peak_levels()
    }
}

/// Meters never go down, and show the loudest sample that came in.
pub proof fn law_peak_is_the_loudest(meter: u32, samples: Seq<u32>)
    ensures
        peak_after(meter, samples) >= meter,
        forall|i: int|
            0 <= i < samples.len() ==> loudness(#[trigger] samples[i]) <= peak_after(
                meter,
                samples,
            ),
        peak_after(meter, samples) == meter || exists|i: int|
            0 <= i < samples.len() && loudness(#[trigger] samples[i]) == peak_after(meter, samples),
    decreases samples.len(),
{
    if samples.len() > 0 {
        let front = samples.drop_last();
        law_peak_is_the_loudest(meter, front);
        assert forall|i: int| 0 <= i < samples.len() implies loudness(#[trigger] samples[i])
            <= peak_after(meter, samples) by {
            if i < front.len() {
                assert(front[i] == samples[i]);
            }
        }
        if peak_after(meter, samples) != meter {
            if loudness(samples.last()) > peak_after(meter, front) {
                assert(loudness(samples[samples.len() - 1]) == peak_after(meter, samples));
            } else {
                let i = choose|i: int|
                    0 <= i < front.len() && loudness(#[trigger] front[i]) == peak_after(
                        meter,
                        front,
                    );
                assert(front[i] == samples[i]);
                assert(loudness(samples[i]) == peak_after(meter, samples));
            }
        }
    }
}

/// A muted track leaves its meter where it is.
pub proof fn law_silence_does_not_move_the_meter(meter: u32, n: nat)
    ensures
        peak_after(meter, silence(n)) == meter,
    decreases n,
{
    if n > 0 {
        assert(silence(n).drop_last() =~= silence((n - 1) as nat));
        law_silence_does_not_move_the_meter(meter, (n - 1) as nat);
    }
}

/// A stem ring always holds the latest samples: the end of all that was heard,
/// at least as much as it is made for, and a tenth more at most.
pub proof fn law_stem_replays_latest(
    ring: Seq<u32>,
    heard: Seq<u32>,
    samples: Seq<u32>,
    capacity: nat,
)
    requires
        replays(ring, heard, capacity, capacity / 10),
    ensures
        replays(stem_after(ring, samples, capacity), heard + samples, capacity, capacity / 10),
{
    law_ring_replays_latest(ring, heard, samples, capacity, capacity / 10);
    if samples.len() == 0 {
        assert(heard + samples =~= heard);
    }
}

/// The two tracks do not touch each other.
pub proof fn law_tracks_are_independent(m: AudioModel, stem: Seq<u32>, other: Seq<u32>)
    ensures
        game_heard(mic_heard(m, other), stem) == mic_heard(game_heard(m, stem), other),
        game_heard(m, stem).mic == m.mic,
        mic_heard(m, other).game == m.game,
{
}

/// A gain change touches nothing that was captured before it.
pub proof fn law_gains_leave_the_past_alone(
    m: AudioModel,
    game_pct: u32,
    mic_pct: u32,
    mute_game: bool,
    mute_mic: bool,
)
    ensures
        ({
            let n = with_gains(m, game_pct, mic_pct, mute_game, mute_mic);
            &&& n.game == m.game
            &&& n.mic == m.mic
            &&& n.game_peak == m.game_peak
            &&& n.mic_peak == m.mic_peak
            &&& live_streams(n) == live_streams(m)
            &&& n.game_pct <= 200
            &&& n.mic_pct <= 200
        }),
{
}

/// The end of an older capture never takes the newer one out of the registry.
pub proof fn law_newer_capture_stays_registered(older: u64, newer: u64)
    requires
        older != newer,
    ensures
        registry_without(AudioRegistry { current: Some(newer) }, older).current == Some(newer),
        registry_without(AudioRegistry { current: Some(newer) }, newer).current is None,
{
}

/// A gain within range is applied as it is, one above 200 percent as 200, and the
/// switches as they are set: in a new capture, and in a running one from a change
/// on.
pub proof fn law_gains_are_applied_as_set(
    m: AudioModel,
    seconds: u32,
    game_pct: u32,
    mic_pct: u32,
    mute_game: bool,
    mute_mic: bool,
)
    ensures
        ({
            let fresh = fresh_audio(seconds, game_pct, mic_pct, mute_game, mute_mic);
            let changed = with_gains(m, game_pct, mic_pct, mute_game, mute_mic);
            &&& game_pct <= 200 ==> fresh.game_pct == game_pct && changed.game_pct == game_pct
            &&& game_pct > 200 ==> fresh.game_pct == 200 && changed.game_pct == 200
            &&& mic_pct <= 200 ==> fresh.mic_pct == mic_pct && changed.mic_pct == mic_pct
            &&& mic_pct > 200 ==> fresh.mic_pct == 200 && changed.mic_pct == 200
            &&& fresh.mute_game == mute_game && changed.mute_game == mute_game
            &&& fresh.mute_mic == mute_mic && changed.mute_mic == mute_mic
        }),
{
}

/// The loudness of a sample is its bit pattern with the sign taken off: the two
/// signs are equally loud, and of two samples with one sign the one with the greater
/// pattern is the louder. What is not a number is silent.
pub proof fn law_loudness_drops_the_sign(bits: u32)
    ensures
        bits <= 0x7f80_0000 ==> loudness(bits) == bits && loudness((bits + 0x8000_0000) as u32)
            == bits,
        0x7f80_0000 < bits <= 0x7fff_ffff ==> loudness(bits) == 0 && loudness(
            (bits + 0x8000_0000) as u32,
        ) == 0,
{
}

/// A capture is made for 48 kHz stereo of that many seconds, ten at least, and has
/// heard nothing.
pub proof fn law_new_capture_is_empty(
    seconds: u32,
    game_pct: u32,
    mic_pct: u32,
    mute_game: bool,
    mute_mic: bool,
)
    ensures
        ({
            let m = fresh_audio(seconds, game_pct, mic_pct, mute_game, mute_mic);
            &&& m.capacity == seconds * 96_000
            &&& m.game.len() == 0 && m.mic.len() == 0
            &&& m.game_peak == 0 && m.mic_peak == 0
            &&& live_streams(m) == 0
        }),
        seconds >= 10 ==> kept_seconds(seconds) == seconds,
        seconds < 10 ==> kept_seconds(seconds) == 10,
{
}

/// The live streams are counted: none, either one, or both.
pub proof fn law_live_streams_are_counted(m: AudioModel)
    ensures
        !m.game_live && !m.mic_live ==> live_streams(m) == 0,
        m.game_live != m.mic_live ==> live_streams(m) == 1,
        m.game_live && m.mic_live ==> live_streams(m) == 2,
{
}

/// What comes in goes to the end of its ring, whole, and moves its meter; nothing
/// is forgotten before a tenth more than the capacity is held, and then the
/// capacity is kept.
pub proof fn law_stems_go_to_the_end(m: AudioModel, stem: Seq<u32>)
    ensures
        ({
            let g = game_heard(m, stem);
            let n = mic_heard(m, stem);
            &&& m.game.len() + stem.len() <= m.capacity + m.capacity / 10 ==> g.game == m.game + stem
            &&& stem.len() > 0 && m.game.len() + stem.len() > m.capacity + m.capacity / 10
                ==> g.game == (m.game + stem).skip(m.game.len() + stem.len() - m.capacity)
            &&& m.mic.len() + stem.len() <= m.capacity + m.capacity / 10 ==> n.mic == m.mic + stem
            &&& stem.len() > 0 && m.mic.len() + stem.len() > m.capacity + m.capacity / 10 ==> n.mic
                == (m.mic + stem).skip(m.mic.len() + stem.len() - m.capacity)
            &&& g.game_pct == m.game_pct && n.mic_pct == m.mic_pct
            &&& g.capacity == m.capacity && n.capacity == m.capacity
            &&& forall|i: int| 0 <= i < stem.len() ==> loudness(#[trigger] stem[i]) <= g.game_peak
            &&& forall|i: int| 0 <= i < stem.len() ==> loudness(#[trigger] stem[i]) <= n.mic_peak
            &&& g.game_peak >= m.game_peak && g.mic_peak == m.mic_peak
            &&& n.mic_peak >= m.mic_peak && n.game_peak == m.game_peak
        }),
{
    law_peak_is_the_loudest(m.game_peak, stem);
    law_peak_is_the_loudest(m.mic_peak, stem);
    assert(stem.len() == 0 ==> m.game + stem =~= m.game);
    assert(stem.len() == 0 ==> m.mic + stem =~= m.mic);
}

/// One stream is enough, whichever it is: a capture comes up and is registered where
/// the game or the microphone did, and each counts as live by itself. Where neither
/// did, the registry stays as it was.
pub proof fn law_one_stream_is_enough(
    m: AudioModel,
    registry: AudioRegistry,
    id: u64,
    game: bool,
    mic: bool,
)
    ensures
        !has_stream(game, mic) <==> !game && !mic,
        with_streams(m, game, mic).game_live == game,
        with_streams(m, game, mic).mic_live == mic,
        with_streams(m, game, mic).game == m.game && with_streams(m, game, mic).mic == m.mic,
        with_streams(m, game, mic).game_pct == m.game_pct && with_streams(m, game, mic).mic_pct
            == m.mic_pct,
        game ==> registry_with(registry, id, game, mic).current == Some(id),
        mic ==> registry_with(registry, id, game, mic).current == Some(id),
        !game && !mic ==> registry_with(registry, id, game, mic) == registry,
{
}

/// A device is shown by its name, unless that holds nothing but white space.
pub proof fn law_devices_are_shown_by_name(name: Seq<char>, i: int)
    ensures
        0 <= i < name.len() && !white_space(name[i]) ==> shown_device(Some(name)) == name,
        (forall|j: int| 0 <= j < name.len() ==> white_space(#[trigger] name[j])) ==> shown_device(
            Some(name),
        ) == "<none>"@,
        shown_device(None) == "<none>"@,
{
}

} // verus!
