//! The capture plan: at which height and rate the buffer runs and what a save
//! delivers.

use vstd::prelude::*;

use crate::decimal::{
    decimal, is_digit, lemma_decimal_reads_back, lemma_u32_reads_back, read_u32, u32_number,
};
use crate::encoder::hq_codec;
use crate::settings::{buffer_length, buffer_seconds, setting_str, setting_text, Settings};
use crate::text::{blank, is_blank, same_text, trim, trimmed, white_space};

verus! {

/// A monitor as the backend lists it.
#[derive(Debug)]
pub struct MonitorInfo {
    pub name: String,
    pub width: u32,
    pub height: u32,
}

/// The codecs that the recorder knows.
pub open spec fn known_codec(codec: Seq<char>) -> bool {
    codec == "h264"@ || codec == "hevc"@ || codec == "av1"@ || codec == "x264"@
}

/// Whether the recorder knows this codec.
pub fn is_known_codec(codec: &str) -> (r: bool)
    ensures
        r == known_codec(codec@),
{
    same_text(codec, "h264") || same_text(codec, "hevc") || same_text(codec, "av1") || same_text(
        codec,
        "x264",
    )
}

/// The codec to record with: the one that is set, or H.264 where that is unknown.
pub open spec fn chosen_codec(s: Map<Seq<char>, Seq<char>>) -> Seq<char> {
    let set = setting_text(s, "video_codec"@, "h264"@);
    if known_codec(set) {
        set
    } else {
        "h264"@
    }
}

/// The height that is asked for; 0 stands for the source's own.
pub open spec fn chosen_height(s: Map<Seq<char>, Seq<char>>) -> u32 {
    match u32_number(setting_text(s, "out_height"@, "0"@)) {
        Some(h) => h,
        None => 0,
    }
}

/// The frame rate: 30 where that is set, else 60.
pub open spec fn chosen_fps(s: Map<Seq<char>, Seq<char>>) -> u32 {
    if u32_number(setting_text(s, "fps"@, "60"@)) == Some(30u32) {
        30
    } else {
        60
    }
}

/// The height that is asked for.
pub fn read_height(settings: &Settings) -> (r: u32)
    ensures
        r == chosen_height(settings@),
{
    match read_u32(setting_str(settings, "out_height", "0").as_str()) {
        Some(h) => h,
        None => 0,
    }
}

/// The frame rate.
pub fn read_fps(settings: &Settings) -> (r: u32)
    ensures
        r == chosen_fps(settings@),
{
    match read_u32(setting_str(settings, "fps", "60").as_str()) {
        Some(n) => if n == 30 {
            30
        } else {
            60
        },
        None => 60,
    }
}

/// The greatest height among the monitors, 0 where there is none.
pub open spec fn tallest(monitors: Seq<MonitorInfo>) -> u32
    decreases monitors.len(),
{
    if monitors.len() == 0 {
        0
    } else {
        let rest = tallest(monitors.drop_last());
        if monitors.last().height > rest {
            monitors.last().height
        } else {
            rest
        }
    }
}

/// Whether `i` is the first monitor with this name.
pub open spec fn first_named(monitors: Seq<MonitorInfo>, name: Seq<char>, i: int) -> bool {
    &&& 0 <= i < monitors.len()
    &&& monitors[i].name@ == name
    &&& forall|j: int| 0 <= j < i ==> (#[trigger] monitors[j]).name@ != name
}

/// The height of the first monitor with this name.
pub open spec fn named_height(monitors: Seq<MonitorInfo>, name: Seq<char>) -> Option<u32> {
    if exists|i: int| first_named(monitors, name, i) {
        Some(monitors[choose|i: int| first_named(monitors, name, i)].height)
    } else {
        None
    }
}

/// The greatest height among the monitors.
pub fn tallest_height(monitors: &Vec<MonitorInfo>) -> (r: u32)
    ensures
        r == tallest(monitors@),
{
    let mut best: u32 = 0;
    assert(monitors@.take(0) =~= Seq::<MonitorInfo>::empty());
    for i in 0..monitors.len()
        invariant
            best == tallest(monitors@.take(i as int)),
    {
        assert(monitors@.take(i + 1).drop_last() =~= monitors@.take(i as int));
        if monitors[i].height > best {
            best = monitors[i].height;
        }
    }
    assert(monitors@.take(monitors@.len() as int) =~= monitors@);
    best
}

/// The height of the first monitor with this name.
pub fn find_height(monitors: &Vec<MonitorInfo>, name: &str) -> (r: Option<u32>)
    ensures
        r == named_height(monitors@, name@),
{
    for i in 0..monitors.len()
        invariant
            forall|j: int| 0 <= j < i ==> (#[trigger] monitors@[j]).name@ != name@,
    {
        if same_text(monitors[i].name.as_str(), name) {
            proof {
                assert(first_named(monitors@, name@, i as int));
                let k = choose|k: int| first_named(monitors@, name@, k);
                assert(k == i);
            }
            return Some(monitors[i].height);
        }
    }
    None
}

/// The height of what is recorded: that of the monitor that is set, or of the
/// tallest one where none is set or it is not there; 0 where no monitor is known.
pub open spec fn source_height(monitors: Seq<MonitorInfo>, monitor: Seq<char>) -> u32 {
    if blank(monitor) {
        tallest(monitors)
    } else {
        match named_height(monitors, trimmed(monitor)) {
            Some(h) => h,
            None => tallest(monitors),
        }
    }
}

/// The height of what is recorded.
pub fn read_source_height(monitors: &Vec<MonitorInfo>, monitor: &str) -> (r: u32)
    ensures
        r == source_height(monitors@, monitor@),
{
    if is_blank(monitor) {
        tallest_height(monitors)
    } else {
        match find_height(monitors, trim(monitor)) {
            Some(h) => h,
            None => tallest_height(monitors),
        }
    }
}

/// Whether a save has to scale: a height is asked for and lies below the
/// source's.
pub open spec fn scales_on_save(out_height: u32, source_height: u32) -> bool {
    out_height != 0 && source_height > 0 && out_height < source_height
}

/// The heights that a recording works with.
#[derive(Debug)]
pub struct CaptureTargets {
    pub codec: String,
    pub fps: u32,
    /// The monitor as it is set.
    pub monitor: String,
    /// The height asked for, 0 for the source's own.
    pub out_height: u32,
    /// The height of the source, 0 where it is not known.
    pub source_height: u32,
    /// The height whose bitrate the delivered clip has.
    pub ladder_height: u32,
    /// The height whose bitrate the buffer has.
    pub buffer_ladder_height: u32,
    /// The height the buffer is scaled to while recording, 0 for none.
    pub capture_height: u32,
    /// The height a save scales to, 0 for none.
    pub save_height: u32,
}

/// The height whose bitrate a clip of `out_height` gets; 1080 where neither that
/// nor the source's height is known.
pub open spec fn ladder_height(out_height: u32, source_height: u32) -> u32 {
    if out_height != 0 {
        out_height
    } else if source_height > 0 {
        source_height
    } else {
        1080
    }
}

/// Whether `t` holds the heights for these settings and monitors: where the
/// clip is to be smaller than the source, the buffer runs at source height and
/// the save scales; else the buffer runs at the height asked for.
pub open spec fn targets_of(
    t: CaptureTargets,
    s: Map<Seq<char>, Seq<char>>,
    monitors: Seq<MonitorInfo>,
) -> bool {
    let monitor = setting_text(s, "monitor"@, ""@);
    let out = chosen_height(s);
    let source = source_height(monitors, monitor);
    let scales = scales_on_save(out, source);
    &&& t.codec@ == chosen_codec(s)
    &&& t.fps == chosen_fps(s)
    &&& t.monitor@ == monitor
    &&& t.out_height == out
    &&& t.source_height == source
    &&& t.ladder_height == ladder_height(out, source)
    &&& t.buffer_ladder_height == (if scales {
        source
    } else {
        ladder_height(out, source)
    })
    &&& t.capture_height == (if scales {
        0
    } else {
        out
    })
    &&& t.save_height == (if scales {
        out
    } else {
        0
    })
}

/// The heights for these settings and monitors.
pub fn capture_targets(settings: &Settings, monitors: &Vec<MonitorInfo>) -> (r: CaptureTargets)
    ensures
        targets_of(r, settings@, monitors@),
{
    let set: String = setting_str(settings, "video_codec", "h264");
    let codec: String = if is_known_codec(set.as_str()) {
        set
    } else {
        "h264".to_owned()
    };
    let out_height: u32 = read_height(settings);
    let fps: u32 = read_fps(settings);
    let monitor: String = setting_str(settings, "monitor", "");
    let source: u32 = read_source_height(monitors, monitor.as_str());
    let ladder: u32 = if out_height == 0 {
        if source > 0 {
            source
        } else {
            1080
        }
    } else {
        out_height
    };
    let scales: bool = out_height != 0 && source > 0 && out_height < source;
    CaptureTargets {
        codec,
        fps,
        monitor,
        out_height,
        source_height: source,
        ladder_height: ladder,
        buffer_ladder_height: if scales {
            source
        } else {
            ladder
        },
        capture_height: if scales {
            0
        } else {
            out_height
        },
        save_height: if scales {
            out_height
        } else {
            0
        },
    }
}

/// What a recorder is started with.
#[derive(Debug)]
pub struct CaptureConfig {
    pub duration_seconds: u32,
    pub fps: u32,
    /// The monitor to record, blank for the default.
    pub source: String,
    pub desktop_device: String,
    pub mic_device: String,
    pub codec: String,
    /// The height the buffer is scaled to while recording, 0 for none.
    pub out_height: u32,
    pub bitrate_kbps: u32,
    /// The height a save scales to, 0 for none.
    pub save_height: u32,
    pub save_bitrate_kbps: u32,
    /// The encoder that a save scales with, if this machine has one.
    pub save_encoder: Option<String>,
    /// Whether the full-quality NVENC recipe is used.
    pub nvenc_hq: bool,
}

/// Where the NVENC recipe is valid: H.264 and HEVC on NVIDIA.
pub open spec fn nvenc_valid(vendor: Seq<char>, codec: Seq<char>) -> bool {
    vendor == "nvidia"@ && hq_codec(codec)
}

/// Whether `c` is what the recorder is started with, given the heights, the GPU
/// vendor, the bitrates of the two ladder heights and the encoder for saves.
pub open spec fn config_of(
    c: CaptureConfig,
    s: Map<Seq<char>, Seq<char>>,
    t: CaptureTargets,
    vendor: Seq<char>,
    ladder_kbps: u32,
    buffer_kbps: u32,
    save_encoder: Option<String>,
) -> bool {
    &&& c.duration_seconds == buffer_length(s)
    &&& c.fps == t.fps
    &&& c.source@ == t.monitor@
    &&& c.desktop_device@ == setting_text(s, "desktop_device"@, "default_output"@)
    &&& c.mic_device@ == setting_text(s, "mic_device"@, "default_input"@)
    &&& c.codec@ == t.codec@
    &&& c.out_height == t.capture_height
    &&& c.bitrate_kbps == (if t.save_height > 0 {
        buffer_kbps
    } else {
        ladder_kbps
    })
    &&& c.save_height == t.save_height
    &&& c.save_bitrate_kbps == ladder_kbps
    &&& c.save_encoder == save_encoder
    &&& c.nvenc_hq == nvenc_valid(vendor, t.codec@)
}

/// What the recorder is started with, given the heights, the GPU vendor, the
/// bitrates of the two ladder heights and the encoder for saves.
pub fn capture_config(
    settings: &Settings,
    targets: CaptureTargets,
    vendor: &str,
    ladder_kbps: u32,
    buffer_kbps: u32,
    save_encoder: Option<String>,
) -> (r: CaptureConfig)
    ensures
        config_of(r, settings@, targets, vendor@, ladder_kbps, buffer_kbps, save_encoder),
        r.duration_seconds == buffer_length(settings@),
        r.fps == targets.fps,
        r.source@ == targets.monitor@,
        r.desktop_device@ == setting_text(settings@, "desktop_device"@, "default_output"@),
        r.mic_device@ == setting_text(settings@, "mic_device"@, "default_input"@),
        r.codec@ == targets.codec@,
        r.out_height == targets.capture_height,
        r.bitrate_kbps == (if targets.save_height > 0 {
            buffer_kbps
        } else {
            ladder_kbps
        }),
        r.save_height == targets.save_height,
        r.save_bitrate_kbps == ladder_kbps,
        r.save_encoder == save_encoder,
        r.nvenc_hq == nvenc_valid(vendor@, targets.codec@),
{
    let nvenc_hq: bool = same_text(vendor, "nvidia") && (same_text(targets.codec.as_str(), "h264")
        || same_text(targets.codec.as_str(), "hevc"));
    CaptureConfig {
        duration_seconds: buffer_seconds(settings) as u32,
        fps: targets.fps,
        source: targets.monitor,
        desktop_device: setting_str(settings, "desktop_device", "default_output"),
        mic_device: setting_str(settings, "mic_device", "default_input"),
        codec: targets.codec,
        out_height: targets.capture_height,
        bitrate_kbps: if targets.save_height > 0 {
            buffer_kbps
        } else {
            ladder_kbps
        },
        save_height: targets.save_height,
        save_bitrate_kbps: ladder_kbps,
        save_encoder,
        nvenc_hq,
    }
}

/// Whatever the settings hold, the recorder runs with a codec it knows, at 30 or
/// 60 frames per second.
pub proof fn law_targets_are_usable(
    t: CaptureTargets,
    s: Map<Seq<char>, Seq<char>>,
    monitors: Seq<MonitorInfo>,
)
    requires
        targets_of(t, s, monitors),
    ensures
        known_codec(t.codec@),
        t.fps == 30 || t.fps == 60,
        t.ladder_height > 0,
        t.buffer_ladder_height > 0,
{
}

/// A clip is scaled once at most. A save only ever scales down, from a buffer at
/// source height, and every height below the source's is delivered by a save.
pub proof fn law_saves_scale_down(
    t: CaptureTargets,
    s: Map<Seq<char>, Seq<char>>,
    monitors: Seq<MonitorInfo>,
)
    requires
        targets_of(t, s, monitors),
    ensures
        t.capture_height == 0 || t.save_height == 0,
        t.save_height > 0 ==> t.save_height < t.source_height && t.save_height == t.out_height
            && t.buffer_ladder_height == t.source_height,
        0 < t.out_height < t.source_height ==> t.save_height == t.out_height,
{
}

/// A clip has the bitrate of the height it is delivered at: the one that is asked
/// for, else the source's, else that of 1080 lines. The buffer has the bitrate of
/// the source where the save scales, else that of the clip.
pub proof fn law_bitrate_follows_the_height(
    t: CaptureTargets,
    s: Map<Seq<char>, Seq<char>>,
    monitors: Seq<MonitorInfo>,
)
    requires
        targets_of(t, s, monitors),
    ensures
        t.out_height > 0 ==> t.ladder_height == t.out_height,
        t.out_height == 0 && t.source_height > 0 ==> t.ladder_height == t.source_height
            && t.buffer_ladder_height == t.source_height,
        t.out_height == 0 && t.source_height == 0 ==> t.ladder_height == 1080
            && t.buffer_ladder_height == 1080,
        t.save_height > 0 ==> t.buffer_ladder_height == t.source_height,
        t.save_height == 0 ==> t.buffer_ladder_height == t.ladder_height,
{
}

/// The height that is asked for is always delivered: by the save where it lies
/// below the source's, else by the capture. Where none is asked for, or the source
/// is not known to be higher, the save leaves the clip as it is.
pub proof fn law_asked_height_is_delivered(
    t: CaptureTargets,
    s: Map<Seq<char>, Seq<char>>,
    monitors: Seq<MonitorInfo>,
)
    requires
        targets_of(t, s, monitors),
    ensures
        t.out_height == 0 ==> t.capture_height == 0 && t.save_height == 0,
        0 < t.out_height < t.source_height ==> t.capture_height == 0 && t.save_height
            == t.out_height,
        t.out_height > 0 && t.out_height >= t.source_height ==> t.capture_height == t.out_height
            && t.save_height == 0,
{
}

/// The height, the frame rate and the codec are those that the settings hold as
/// long as they hold usable ones: any number for the height, 30 for the frame rate,
/// one of four codecs. A setting that is not usable counts as none.
pub proof fn law_settings_are_followed(
    t: CaptureTargets,
    s: Map<Seq<char>, Seq<char>>,
    monitors: Seq<MonitorInfo>,
    height: u32,
)
    requires
        targets_of(t, s, monitors),
    ensures
        s.contains_key("out_height"@) && s["out_height"@] == decimal(height as nat)
            ==> t.out_height == height,
        !s.contains_key("out_height"@) ==> t.out_height == 0,
        s.contains_key("out_height"@) && u32_number(s["out_height"@]) is None ==> t.out_height
            == 0,
        s.contains_key("fps"@) && s["fps"@] == decimal(30) ==> t.fps == 30,
        s.contains_key("fps"@) && u32_number(s["fps"@]) != Some(30u32) ==> t.fps == 60,
        !s.contains_key("fps"@) ==> t.fps == 60,
        s.contains_key("video_codec"@) && (s["video_codec"@] == "h264"@ || s["video_codec"@]
            == "hevc"@ || s["video_codec"@] == "av1"@ || s["video_codec"@] == "x264"@)
            ==> t.codec@ == s["video_codec"@],
        !s.contains_key("video_codec"@) ==> t.codec@ == "h264"@,
        t.codec@ == "h264"@ || s.contains_key("video_codec"@) && t.codec@ == s["video_codec"@],
{
    lemma_u32_reads_back(height);
    lemma_u32_reads_back(30);
    lemma_digits_are_not_blank(height as nat);
    lemma_digits_are_not_blank(30);
    reveal_strlit("0");
    reveal_strlit("60");
    reveal_strlit("h264");
    reveal_strlit("hevc");
    reveal_strlit("av1");
    reveal_strlit("x264");
    lemma_fixed_numbers();
    assert(!white_space("h264"@[0]) && !white_space("hevc"@[0]) && !white_space("av1"@[0])
        && !white_space("x264"@[0]));
}

proof fn lemma_digits_are_not_blank(n: nat)
    ensures
        !blank(decimal(n)),
{
    lemma_decimal_reads_back(n);
    assert(is_digit(decimal(n)[0]));
}

proof fn lemma_fixed_numbers()
    ensures
        u32_number("0"@) == Some(0u32),
        u32_number("60"@) == Some(60u32),
{
    reveal_strlit("0");
    reveal_strlit("60");
    lemma_u32_reads_back(0);
    lemma_u32_reads_back(60);
    assert("0"@ =~= decimal(0));
    assert(decimal(6) =~= seq!['6']);
    assert("60"@ =~= decimal(60));
}

/// What is recorded is as high as the first monitor with the name that is set; where
/// no name is set, or no monitor has it, as high as the highest of all: none is
/// higher, and one is as high.
pub proof fn law_source_is_a_monitor(
    t: CaptureTargets,
    s: Map<Seq<char>, Seq<char>>,
    monitors: Seq<MonitorInfo>,
    i: int,
)
    requires
        targets_of(t, s, monitors),
        0 <= i < monitors.len(),
    ensures
        exists|k: int| 0 <= k < monitors.len() && (#[trigger] monitors[k]).height == t.source_height,
        blank(t.monitor@) ==> monitors[i].height <= t.source_height,
        !blank(t.monitor@) && (forall|k: int|
            0 <= k < monitors.len() ==> (#[trigger] monitors[k]).name@ != trimmed(t.monitor@))
            ==> monitors[i].height <= t.source_height,
        !blank(t.monitor@) && monitors[i].name@ == trimmed(t.monitor@) && (forall|k: int|
            0 <= k < i ==> (#[trigger] monitors[k]).name@ != trimmed(t.monitor@))
            ==> t.source_height == monitors[i].height,
{
    lemma_tallest(monitors);
    let name = trimmed(t.monitor@);
    if !blank(t.monitor@) {
        if exists|k: int| first_named(monitors, name, k) {
            let k = choose|k: int| first_named(monitors, name, k);
            assert(monitors[k].height == t.source_height);
            assert(monitors[k].name@ == name);
        }
        if monitors[i].name@ == name && (forall|k: int|
            0 <= k < i ==> (#[trigger] monitors[k]).name@ != name) {
            assert(first_named(monitors, name, i));
            let k = choose|k: int| first_named(monitors, name, k);
            assert(k == i);
        }
    }
}

/// No monitor is higher than the highest, and one is as high.
pub proof fn lemma_tallest(monitors: Seq<MonitorInfo>)
    ensures
        forall|i: int|
            0 <= i < monitors.len() ==> (#[trigger] monitors[i]).height <= tallest(monitors),
        monitors.len() > 0 ==> exists|k: int|
            0 <= k < monitors.len() && (#[trigger] monitors[k]).height == tallest(monitors),
        monitors.len() == 0 ==> tallest(monitors) == 0,
    decreases monitors.len(),
{
    if monitors.len() > 0 {
        let front = monitors.drop_last();
        lemma_tallest(front);
        assert forall|i: int| 0 <= i < monitors.len() implies (#[trigger] monitors[i]).height
            <= tallest(monitors) by {
            if i < front.len() {
                assert(front[i] == monitors[i]);
            }
        }
        if monitors.last().height > tallest(front) || front.len() == 0 {
            assert(monitors[monitors.len() - 1].height == tallest(monitors));
        } else {
            let k = choose|k: int|
                0 <= k < front.len() && (#[trigger] front[k]).height == tallest(front);
            assert(monitors[k] == front[k]);
        }
    }
}

/// Without monitors nothing is known of the source.
pub proof fn law_no_monitor_no_height(
    t: CaptureTargets,
    s: Map<Seq<char>, Seq<char>>,
    monitors: Seq<MonitorInfo>,
)
    requires
        targets_of(t, s, monitors),
        monitors.len() == 0,
    ensures
        t.source_height == 0,
        t.save_height == 0,
{
}

/// The full-quality recipe is used for H.264 and HEVC on NVIDIA, and nowhere else.
pub proof fn law_recipe_needs_nvidia(vendor: Seq<char>, codec: Seq<char>)
    ensures
        nvenc_valid(vendor, codec) <==> vendor == "nvidia"@ && (codec == "h264"@ || codec
            == "hevc"@),
{
}

/// The recorder is started with what was planned: a buffer at the bitrate of its own
/// height, saves at the bitrate of theirs, from the monitor and the devices that are
/// set, with the buffer length that is set.
pub proof fn law_recorder_follows_the_plan(
    c: CaptureConfig,
    s: Map<Seq<char>, Seq<char>>,
    t: CaptureTargets,
    monitors: Seq<MonitorInfo>,
    vendor: Seq<char>,
    kbps: spec_fn(u32) -> u32,
    save_encoder: Option<String>,
)
    requires
        targets_of(t, s, monitors),
        config_of(
            c,
            s,
            t,
            vendor,
            kbps(t.ladder_height),
            kbps(t.buffer_ladder_height),
            save_encoder,
        ),
    ensures
        c.bitrate_kbps == kbps(t.buffer_ladder_height),
        c.save_bitrate_kbps == kbps(t.ladder_height),
        c.save_height > 0 ==> c.out_height == 0 && c.save_height == t.out_height,
        c.save_height == 0 ==> c.out_height == t.out_height,
        c.save_encoder == save_encoder,
        c.codec@ == t.codec@ && c.fps == t.fps && c.source@ == t.monitor@,
        5 <= c.duration_seconds <= 300,
        c.duration_seconds == buffer_length(s),
        s.contains_key("monitor"@) && !blank(s["monitor"@]) ==> c.source@ == s["monitor"@],
        s.contains_key("desktop_device"@) && !blank(s["desktop_device"@]) ==> c.desktop_device@
            == s["desktop_device"@],
        !s.contains_key("desktop_device"@) ==> c.desktop_device@ == "default_output"@,
        s.contains_key("mic_device"@) && !blank(s["mic_device"@]) ==> c.mic_device@
            == s["mic_device"@],
        !s.contains_key("mic_device"@) ==> c.mic_device@ == "default_input"@,
        c.nvenc_hq <==> vendor == "nvidia"@ && (c.codec@ == "h264"@ || c.codec@ == "hevc"@),
{
}

} // verus!
