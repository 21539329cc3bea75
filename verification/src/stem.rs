//! Stems: how captured samples come to the common 48 kHz stereo grid.
//!
//! A sample is an IEEE 754 single-precision number, held here by its bit
//! pattern. What only moves samples is done here; where samples have to be
//! averaged, blended or scaled, the result says which ones and how, and the
//! arithmetic is the caller's.

use vstd::prelude::*;
use vstd::slice::slice_to_vec;

verus! {

/// The sample rate of a stem.
pub const STEM_RATE: u32 = 48_000;

/// The channels of a stem.
pub const STEM_CHANNELS: usize = 2;

/// Two input frames between which an output frame lies.
#[derive(Debug, Clone, Copy, PartialEq, Eq, Structural)]
pub struct Tap {
    pub i0: usize,
    pub i1: usize,
}

/// Samples on their way to the 48 kHz stereo grid.
#[derive(Debug)]
pub enum Stem {
    /// The finished stem.
    Exact(Vec<u32>),
    /// Each output frame is, on both channels, the mean of one input frame.
    Mean { frames: usize, channels: usize },
    /// Each output frame lies between two input frames, at the place that its
    /// number gives: channel by channel where the input is stereo, else between
    /// the means of the two frames, on both channels.
    Blend { frames: usize, channels: usize, taps: Vec<Tap> },
}

/// The channels that count: at least one.
pub open spec fn counted_channels(in_channels: u16) -> nat {
    if in_channels < 1 {
        1
    } else {
        in_channels as nat
    }
}

/// The whole frames in a row of samples.
pub open spec fn frames_in(len: nat, in_channels: u16) -> nat {
    len / counted_channels(in_channels)
}

/// The output frames for that many input frames: as many as fit into the time
/// that the input lasts.
pub open spec fn frames_out(frames: nat, in_rate: u32) -> nat {
    (frames * STEM_RATE as nat) / in_rate as nat
}

/// The input frames between which output frame `i` of `total` lies.
pub open spec fn tap_of(i: int, frames: nat, total: nat) -> Tap {
    let i0 = (i * frames) / total as int;
    Tap {
        i0: i0 as usize,
        i1: (if i0 + 1 < frames {
            i0 + 1
        } else {
            frames - 1
        }) as usize,
    }
}

/// All of them.
pub open spec fn taps_of(frames: nat, total: nat) -> Seq<Tap> {
    Seq::new(total, |i: int| tap_of(i, frames, total))
}

/// Each sample on both channels.
pub open spec fn doubled(mono: Seq<u32>) -> Seq<u32> {
    Seq::new(mono.len() * 2, |i: int| mono[i / 2])
}

/// Whether `stem` is what `samples` come to on the stem grid.
pub open spec fn stem_of(stem: Stem, samples: Seq<u32>, in_channels: u16, in_rate: u32) -> bool {
    let ch = counted_channels(in_channels);
    let n = frames_in(samples.len(), in_channels);
    if n == 0 {
        stem matches Stem::Exact(v) && v@ == Seq::<u32>::empty()
    } else if in_rate == STEM_RATE && ch == 1 {
        stem matches Stem::Exact(v) && v@ == doubled(samples)
    } else if in_rate == STEM_RATE && ch == 2 {
        stem matches Stem::Exact(v) && v@ == samples.take((n * 2) as int)
    } else if in_rate == STEM_RATE {
        stem matches Stem::Mean { frames, channels } && frames == n && channels == ch
    } else {
        stem matches Stem::Blend { frames, channels, taps } && frames == n && channels == ch
            && taps@ == taps_of(n, frames_out(n, in_rate))
    }
}

proof fn lemma_tap_in_range(i: int, frames: int, total: int)
    by (nonlinear_arith)
    requires
        0 <= i < total,
        0 < frames,
    ensures
        0 <= (i * frames) / total < frames,
{
}

fn taps(frames: usize, total: usize) -> (r: Vec<Tap>)
    requires
        frames > 0,
    ensures
        r@ == taps_of(frames as nat, total as nat),
{
    let mut out: Vec<Tap> = Vec::new();
    for i in 0..total
        invariant
            frames > 0,
            out@.len() == i,
            forall|j: int| 0 <= j < i ==> out@[j] == tap_of(j, frames as nat, total as nat),
    {
        proof {
            lemma_tap_in_range(i as int, frames as int, total as int);
        }
        assert(i * frames <= u64::MAX * u64::MAX) by (nonlinear_arith)
            requires
                i <= u64::MAX,
                frames <= u64::MAX,
        ;
        let i0: usize = ((i as u128 * frames as u128) / total as u128) as usize;
        let i1: usize = if i0 < frames - 1 {
            i0 + 1
        } else {
            frames - 1
        };
        out.push(Tap { i0, i1 });
    }
    assert(out@ =~= taps_of(frames as nat, total as nat));
    out
}

fn double(mono: &[u32]) -> (r: Vec<u32>)
    ensures
        r@ == doubled(mono@),
{
    let mut out: Vec<u32> = Vec::new();
    for i in 0..mono.len()
        invariant
            out@.len() == i * 2,
            forall|j: int| 0 <= j < i * 2 ==> out@[j] == mono@[j / 2],
    {
        out.push(mono[i]);
        out.push(mono[i]);
    }
    assert(out@ =~= doubled(mono@));
    out
}

/// Brings captured samples to the 48 kHz stereo grid.
pub fn to_stereo_48k(samples: &[u32], in_channels: u16, in_rate: u32) -> (r: Stem)
    requires
        can_convert(samples@.len(), in_channels, in_rate),
    ensures
        stem_of(r, samples@, in_channels, in_rate),
{
    let ch: usize = if in_channels < 1 {
        1
    } else {
        in_channels as usize
    };
    let frames: usize = samples.len() / ch;
    if frames == 0 {
        return Stem::Exact(Vec::new());
    }
    if in_rate == STEM_RATE {
        if ch == 1 {
            return Stem::Exact(double(samples));
        }
        if ch == 2 {
            assert(frames * 2 <= samples@.len());
            let mut v: Vec<u32> = slice_to_vec(samples);
            v.truncate(frames * 2);
            assert(v@ =~= samples@.take(frames * 2));
            return Stem::Exact(v);
        }
        return Stem::Mean { frames, channels: ch };
    }
    let total: usize = ((frames as u64 * STEM_RATE as u64) / in_rate as u64) as usize;
    Stem::Blend { frames, channels: ch, taps: taps(frames, total) }
}

/// A stem after gain.
#[derive(Debug)]
pub enum GainedStem {
    /// The finished stem.
    Exact(Vec<u32>),
    /// What the stem comes to, with every sample multiplied by `percent`
    /// hundredths; at 100 percent the samples are left as they are.
    Computed { stem: Stem, percent: u32 },
}

/// Silence of that many samples: the bit pattern of zero.
pub open spec fn silence(n: nat) -> Seq<u32> {
    Seq::new(n, |i: int| 0u32)
}

/// That many silent samples.
pub fn silent(n: usize) -> (r: Vec<u32>)
    ensures
        r@ == silence(n as nat),
{
    let mut out: Vec<u32> = Vec::new();
    out.resize(n, 0u32);
    assert(out@ =~= silence(n as nat));
    out
}

/// The samples that a stem comes to.
pub open spec fn stem_len(stem: Stem) -> nat {
    match stem {
        Stem::Exact(v) => v@.len(),
        Stem::Mean { frames, channels } => frames as nat * 2,
        Stem::Blend { frames, channels, taps } => taps@.len() * 2,
    }
}

/// The samples that a row of `len` samples comes to on the stem grid.
pub open spec fn stem_length(len: nat, in_channels: u16, in_rate: u32) -> nat {
    let n = frames_in(len, in_channels);
    if n == 0 {
        0
    } else if in_rate == STEM_RATE {
        n * 2
    } else {
        frames_out(n, in_rate) * 2
    }
}

/// Whether captured samples can be counted on the stem grid.
pub open spec fn can_convert(len: nat, in_channels: u16, in_rate: u32) -> bool {
    let n = frames_in(len, in_channels);
    &&& n > 0 ==> in_rate > 0
    &&& n * STEM_RATE <= u64::MAX
    &&& n > 0 ==> stem_length(len, in_channels, in_rate) <= usize::MAX
}

/// Whether `len` captured samples can be counted on the stem grid.
pub fn is_convertible(len: usize, in_channels: u16, in_rate: u32) -> (r: bool)
    ensures
        r == can_convert(len as nat, in_channels, in_rate),
{
    let ch: usize = if in_channels < 1 {
        1
    } else {
        in_channels as usize
    };
    let frames: usize = len / ch;
    if frames == 0 {
        return true;
    }
    if in_rate == 0 {
        return false;
    }
    let product: u128 = frames as u128 * STEM_RATE as u128;
    let total: u128 = if in_rate == STEM_RATE {
        frames as u128
    } else {
        product / in_rate as u128
    };
    product <= u64::MAX as u128 && total * 2 <= usize::MAX as u128
}

/// Whether `r` is what `samples` come to on the stem grid after gain: a muted
/// track is silent, one at 100 percent is left as it is.
pub open spec fn gained_of(
    r: GainedStem,
    samples: Seq<u32>,
    in_channels: u16,
    in_rate: u32,
    percent: u32,
    muted: bool,
) -> bool {
    match r {
        GainedStem::Exact(v) => if muted {
            v@ == silence(stem_length(samples.len(), in_channels, in_rate))
        } else {
            percent == 100 && stem_of(Stem::Exact(v), samples, in_channels, in_rate)
        },
        GainedStem::Computed { stem, percent: p } => {
            &&& !muted
            &&& p == percent
            &&& percent == 100 ==> !(stem is Exact)
            &&& stem_of(stem, samples, in_channels, in_rate)
        },
    }
}

/// Brings captured samples to the stem grid and applies the track's gain.
pub fn convert(
    samples: &[u32],
    in_channels: u16,
    in_rate: u32,
    percent: u32,
    muted: bool,
) -> (r: GainedStem)
    requires
        can_convert(samples@.len(), in_channels, in_rate),
    ensures
        gained_of(r, samples@, in_channels, in_rate, percent, muted),
{
    let stem: Stem = to_stereo_48k(samples, in_channels, in_rate);
    proof {
        law_stems_keep_time(stem, samples@, in_channels, in_rate);
    }
    if muted {
        let n: usize = match &stem {
            Stem::Exact(v) => v.len(),
            Stem::Mean { frames, channels: _ } => *frames * 2,
            Stem::Blend { frames: _, channels: _, taps } => taps.len() * 2,
        };
        return GainedStem::Exact(silent(n));
    }
    match stem {
        Stem::Exact(v) => if percent == 100 {
            GainedStem::Exact(v)
        } else {
            GainedStem::Computed { stem: Stem::Exact(v), percent }
        },
        other => GainedStem::Computed { stem: other, percent },
    }
}

/// The pairs of samples that sum up to the mix: the two stems side by side, as
/// long as the shorter one.
pub open spec fn paired(game: Seq<u32>, mic: Seq<u32>) -> Seq<(u32, u32)> {
    Seq::new(
        if game.len() < mic.len() {
            game.len()
        } else {
            mic.len()
        },
        |i: int| (game[i], mic[i]),
    )
}

/// The pairs of samples that sum up to the mix.
pub fn mix_stems(game: &[u32], mic: &[u32]) -> (r: Vec<(u32, u32)>)
    ensures
        r@ == paired(game@, mic@),
{
    let n: usize = if game.len() < mic.len() {
        game.len()
    } else {
        mic.len()
    };
    let mut out: Vec<(u32, u32)> = Vec::new();
    for i in 0..n
        invariant
            n <= game@.len(),
            n <= mic@.len(),
            out@.len() == i,
            forall|j: int| 0 <= j < i ==> out@[j] == (game@[j], mic@[j]),
    {
        out.push((game[i], mic[i]));
    }
    assert(out@ =~= paired(game@, mic@));
    out
}

/// How long a stem is follows from how much was captured: muted or not, and
/// whatever the gain, a track keeps its time.
pub proof fn law_stems_keep_time(stem: Stem, samples: Seq<u32>, in_channels: u16, in_rate: u32)
    requires
        stem_of(stem, samples, in_channels, in_rate),
    ensures
        stem_len(stem) == stem_length(samples.len(), in_channels, in_rate),
{
    let n = frames_in(samples.len(), in_channels);
    if n > 0 && in_rate == STEM_RATE && counted_channels(in_channels) == 2 {
        assert(n * 2 <= samples.len());
    }
}

/// Resampling keeps time: whole seconds of input come to as many whole seconds
/// of stem, whatever the input's rate.
pub proof fn law_seconds_are_kept(seconds: nat, in_rate: u32)
    requires
        in_rate > 0,
    ensures
        frames_out(seconds * in_rate as nat, in_rate) == seconds * STEM_RATE as nat,
{
    let r = in_rate as int;
    let s = seconds as int;
    assert((s * r * 48_000) / r == s * 48_000) by (nonlinear_arith)
        requires
            r > 0,
            s >= 0,
    ;
}

/// Every output frame lies between two neighbouring input frames that exist, and
/// a later one never lies before an earlier one.
pub proof fn law_taps_run_forward(i: int, j: int, frames: nat, total: nat)
    requires
        0 <= i <= j < total,
        0 < frames <= usize::MAX,
    ensures
        tap_of(i, frames, total).i0 < frames,
        tap_of(i, frames, total).i1 < frames,
        tap_of(i, frames, total).i0 <= tap_of(i, frames, total).i1 <= tap_of(i, frames, total).i0
            + 1,
        tap_of(i, frames, total).i0 <= tap_of(j, frames, total).i0,
{
    lemma_tap_in_range(i, frames as int, total as int);
    lemma_tap_in_range(j, frames as int, total as int);
    assert((i * frames) / total as int <= (j * frames) / total as int) by (nonlinear_arith)
        requires
            0 <= i <= j < total,
            0 < frames,
    ;
}

/// Resampling makes as many frames as fit into the time that the input lasts, and
/// no fewer.
pub proof fn law_frames_fit_the_time(frames: nat, in_rate: u32)
    requires
        in_rate > 0,
    ensures
        frames_out(frames, in_rate) * in_rate <= frames * 48_000 < (frames_out(frames, in_rate) + 1)
            * in_rate,
{
    let r = in_rate as int;
    let a = frames as int * 48_000;
    let q = a / r;
    assert(q * r <= a < (q + 1) * r) by (nonlinear_arith)
        requires
            r > 0,
            a >= 0,
            q == a / r,
    ;
    assert(frames_out(frames, in_rate) == q);
}

/// Output frame `i` lies at its share of the input: at or behind input frame `i0`,
/// and before the next one, which is the other end of the blend unless the input
/// ends there.
pub proof fn law_taps_surround_their_place(i: int, frames: nat, total: nat)
    requires
        0 <= i < total,
        0 < frames <= usize::MAX,
    ensures
        ({
            let t = tap_of(i, frames, total);
            &&& t.i0 * total <= i * frames < (t.i0 + 1) * total
            &&& t.i0 + 1 < frames ==> t.i1 == t.i0 + 1
            &&& t.i0 + 1 >= frames ==> t.i1 == frames - 1
        }),
{
    lemma_tap_in_range(i, frames as int, total as int);
    let a = i * frames;
    let n = total as int;
    let q = a / n;
    assert(q * n <= a < (q + 1) * n) by (nonlinear_arith)
        requires
            n > 0,
            q == a / n,
    ;
}

/// What is at 48 kHz already is not resampled: stereo passes as it is, mono comes on
/// both channels, more channels are averaged frame by frame. Every other rate is
/// blended, with one tap for each output frame. Only whole frames count, and no
/// channels count as one.
pub proof fn law_stems_by_layout(stem: Stem, samples: Seq<u32>, in_channels: u16, in_rate: u32)
    requires
        stem_of(stem, samples, in_channels, in_rate),
    ensures
        in_channels == 2 && in_rate == 48_000 ==> (stem matches Stem::Exact(v) && v@
            == samples.take(samples.len() - samples.len() % 2)),
        in_channels <= 1 && in_rate == 48_000 ==> (stem matches Stem::Exact(v) && v@.len()
            == samples.len() * 2 && forall|i: int|
            0 <= i < samples.len() ==> v@[i * 2] == #[trigger] samples[i] && v@[i * 2 + 1]
                == samples[i]),
        in_channels > 2 && in_rate == 48_000 && samples.len() >= in_channels ==> (
        stem matches Stem::Mean { frames, channels } && channels == in_channels && frames * channels
            <= samples.len() < (frames + 1) * channels),
        in_rate != 48_000 && samples.len() >= in_channels && samples.len() > 0 ==> (
        stem matches Stem::Blend { frames, channels, taps } && frames * channels <= samples.len() < (
        frames + 1) * channels && channels == (if in_channels == 0 {
            1
        } else {
            in_channels as int
        }) && taps@.len() == frames_out(frames as nat, in_rate) && forall|i: int|
            0 <= i < taps@.len() ==> taps@[i] == tap_of(i, frames as nat, taps@.len())),
        samples.len() < in_channels || samples.len() == 0 ==> stem_len(stem) == 0,
{
    let ch = counted_channels(in_channels) as int;
    let len = samples.len() as int;
    let n = len / ch;
    assert(n * ch <= len < (n + 1) * ch && (len >= ch <==> n > 0) && n >= 0) by (nonlinear_arith)
        requires
            ch >= 1,
            len >= 0,
            n == len / ch,
    ;
    assert(n == frames_in(samples.len(), in_channels));
    if in_channels <= 1 && in_rate == 48_000 && len > 0 {
        assert(n == len);
        if let Stem::Exact(v) = stem {
            assert forall|i: int| 0 <= i < samples.len() implies v@[i * 2] == #[trigger] samples[i]
                && v@[i * 2 + 1] == samples[i] by {
                assert((i * 2) / 2 == i && (i * 2 + 1) / 2 == i);
            }
        }
    }
    if in_channels == 2 && n == 0 {
        assert(samples.take(0) =~= Seq::<u32>::empty());
    }
}

/// A muted track is silent; a track that is heard has exactly the gain that is set,
/// and is left as it is at 100 percent. Nothing is silent that was not muted.
pub proof fn law_gain_and_mute(
    r: GainedStem,
    samples: Seq<u32>,
    in_channels: u16,
    in_rate: u32,
    percent: u32,
    muted: bool,
)
    requires
        gained_of(r, samples, in_channels, in_rate, percent, muted),
    ensures
        muted ==> (r matches GainedStem::Exact(v) && forall|i: int|
            0 <= i < v@.len() ==> v@[i] == 0),
        !muted && percent != 100 ==> (r matches GainedStem::Computed { stem, percent: p } && p
            == percent && stem_of(stem, samples, in_channels, in_rate)),
        !muted && percent == 100 ==> match r {
            GainedStem::Exact(v) => stem_of(Stem::Exact(v), samples, in_channels, in_rate),
            GainedStem::Computed { stem, percent: p } => p == 100 && stem_of(
                stem,
                samples,
                in_channels,
                in_rate,
            ),
        },
{
}

/// The mix is as long as the shorter stem and pairs the samples of one place.
pub proof fn law_mix_pairs_places(game: Seq<u32>, mic: Seq<u32>)
    ensures
        paired(game, mic).len() <= game.len(),
        paired(game, mic).len() <= mic.len(),
        paired(game, mic).len() == game.len() || paired(game, mic).len() == mic.len(),
        forall|i: int|
            0 <= i < paired(game, mic).len() ==> (#[trigger] paired(game, mic)[i]).0 == game[i]
                && paired(game, mic)[i].1 == mic[i],
{
}

/// Captured samples can be converted where there is no whole frame; else where the
/// rate is known and the samples can be counted, before and after.
pub proof fn law_what_can_be_converted(len: nat, in_channels: u16, in_rate: u32)
    ensures
        len < in_channels || len == 0 ==> can_convert(len, in_channels, in_rate),
        len >= in_channels && len > 0 && in_rate == 0 ==> !can_convert(len, in_channels, in_rate),
        in_rate > 0 && len * 96_000 <= usize::MAX ==> can_convert(len, in_channels, in_rate),
{
    let ch = counted_channels(in_channels) as int;
    let l = len as int;
    let n = l / ch;
    assert(0 <= n <= l && (l >= ch <==> n > 0)) by (nonlinear_arith)
        requires
            ch >= 1,
            l >= 0,
            n == l / ch,
    ;
    assert(n == frames_in(len, in_channels));
    if in_rate > 0 {
        let r = in_rate as int;
        let a = n * 48_000;
        assert(a / r <= a) by (nonlinear_arith)
            requires
                r >= 1,
                a >= 0,
        ;
    }
}

} // verus!
