//! The video options that the settings page offers.

use vstd::prelude::*;

use crate::decimal::{decimal, write_u32};
use crate::plan::{
    chosen_fps, chosen_height, is_known_codec, known_codec, lemma_tallest, read_fps, read_height,
    read_source_height, scales_on_save, source_height, tallest, tallest_height, targets_of,
    CaptureTargets, MonitorInfo,
};
use crate::settings::{setting_str, setting_text, Settings};
use crate::text::same_text;

verus! {

/// A codec on offer.
#[derive(Debug)]
pub struct CodecOpt {
    pub id: String,
}

/// A height on offer.
#[derive(Debug)]
pub struct HeightOpt {
    pub height: u32,
    pub label: String,
    /// The bitrate of each codec at this height, in the order of the codecs.
    pub bitrates: Vec<u32>,
    /// What 60 seconds take in the ring, in megabytes, in the order of the codecs.
    pub ring_mb_60s: Vec<u32>,
}

/// A monitor on offer.
#[derive(Debug)]
pub struct MonitorOpt {
    pub name: String,
    pub label: String,
}

/// The options on offer and those that are set.
#[derive(Debug)]
pub struct VideoOptions {
    pub codecs: Vec<CodecOpt>,
    pub heights: Vec<HeightOpt>,
    pub monitors: Vec<MonitorOpt>,
    pub current_codec: String,
    pub current_height: u32,
    pub current_fps: u32,
    pub current_monitor: String,
    /// The height the ring runs at: the source's where saves scale, else the height
    /// that is set, 0 for the source's own.
    pub buffer_height: u32,
    /// Whether saves scale.
    pub transcoding: bool,
    pub max_source_height: u32,
    pub vendor: String,
}

/// What a codec takes at a height.
#[derive(Debug)]
pub struct LadderFigure {
    pub height: u32,
    pub codec: String,
    pub bitrate_kbps: u32,
    /// What 60 seconds take in the ring, in megabytes.
    pub ring_mb_60s: u32,
}

/// Whether entry `i` of the table is the first for this height and codec.
pub open spec fn first_figure(
    table: Seq<LadderFigure>,
    height: u32,
    codec: Seq<char>,
    i: int,
) -> bool {
    &&& 0 <= i < table.len()
    &&& table[i].height == height && table[i].codec@ == codec
    &&& forall|j: int|
        0 <= j < i ==> !((#[trigger] table[j]).height == height && table[j].codec@ == codec)
}

/// Whether the table has an entry for this height and codec.
pub open spec fn has_figure(table: Seq<LadderFigure>, height: u32, codec: Seq<char>) -> bool {
    exists|i: int| first_figure(table, height, codec, i)
}

/// The entry for this height and codec.
pub open spec fn figure_of(
    table: Seq<LadderFigure>,
    height: u32,
    codec: Seq<char>,
) -> LadderFigure {
    table[choose|i: int| first_figure(table, height, codec, i)]
}

/// Whether the table has an entry for every codec at every height.
pub open spec fn covers(
    table: Seq<LadderFigure>,
    heights: Seq<u32>,
    codecs: Seq<Seq<char>>,
) -> bool {
    forall|k: int, c: int|
        0 <= k < heights.len() && 0 <= c < codecs.len() ==> has_figure(
            table,
            #[trigger] heights[k],
            #[trigger] codecs[c],
        )
}

/// The ids of a row of codecs.
pub open spec fn codec_ids(codecs: Seq<CodecOpt>) -> Seq<Seq<char>> {
    Seq::new(codecs.len(), |i: int| codecs[i].id@)
}

/// The known codecs among those that the backend names, each where it is named
/// first.
pub open spec fn known_offers(offered: Seq<String>) -> Seq<Seq<char>>
    decreases offered.len(),
{
    if offered.len() == 0 {
        Seq::empty()
    } else {
        let rest = known_offers(offered.drop_last());
        let id = offered.last()@;
        if known_codec(id) && !rest.contains(id) {
            rest.push(id)
        } else {
            rest
        }
    }
}

/// The codecs on offer: H.264 alone where the backend names none that is known.
pub open spec fn offered_ids(offered: Seq<String>) -> Seq<Seq<char>> {
    let known = known_offers(offered);
    if known.len() == 0 {
        seq!["h264"@]
    } else {
        known
    }
}

fn has_codec(codecs: &Vec<CodecOpt>, id: &str) -> (r: bool)
    ensures
        r == codec_ids(codecs@).contains(id@),
{
    let ghost ids = codec_ids(codecs@);
    for i in 0..codecs.len()
        invariant
            ids == codec_ids(codecs@),
            forall|j: int| 0 <= j < i ==> ids[j] != id@,
    {
        if same_text(codecs[i].id.as_str(), id) {
            assert(ids[i as int] == id@);
            return true;
        }
    }
    false
}

/// The codecs on offer, given those that the backend names.
pub fn video_codecs(offered: &Vec<String>) -> (r: Vec<CodecOpt>)
    ensures
        codec_ids(r@) == offered_ids(offered@),
{
    let mut codecs: Vec<CodecOpt> = Vec::new();
    assert(codec_ids(codecs@) =~= known_offers(offered@.take(0)));
    for i in 0..offered.len()
        invariant
            codec_ids(codecs@) == known_offers(offered@.take(i as int)),
    {
        let ghost before = codecs@;
        assert(offered@.take(i + 1).drop_last() =~= offered@.take(i as int));
        if is_known_codec(offered[i].as_str()) && !has_codec(&codecs, offered[i].as_str()) {
            codecs.push(CodecOpt { id: offered[i].clone() });
            assert(codec_ids(codecs@) =~= codec_ids(before).push(offered@[i as int]@));
        }
    }
    assert(offered@.take(offered@.len() as int) =~= offered@);
    assert(codec_ids(codecs@).len() == codecs@.len());
    if codecs.len() == 0 {
        codecs.push(CodecOpt { id: "h264".to_owned() });
        assert(codec_ids(codecs@) =~= seq!["h264"@]);
    }
    codecs
}

/// What a monitor is called on the page: its name and size.
pub open spec fn monitor_label(m: MonitorInfo) -> Seq<char> {
    m.name@ + " ("@ + decimal(m.width as nat) + "×"@ + decimal(m.height as nat) + ")"@
}

fn monitor_options(monitors: &Vec<MonitorInfo>) -> (r: Vec<MonitorOpt>)
    ensures
        r@.len() == monitors@.len(),
        forall|i: int|
            0 <= i < r@.len() ==> (#[trigger] r@[i]).name@ == monitors@[i].name@ && r@[i].label@
                == monitor_label(monitors@[i]),
{
    let mut out: Vec<MonitorOpt> = Vec::new();
    for i in 0..monitors.len()
        invariant
            out@.len() == i,
            forall|j: int|
                0 <= j < i ==> (#[trigger] out@[j]).name@ == monitors@[j].name@ && out@[j].label@
                    == monitor_label(monitors@[j]),
    {
        let m: &MonitorInfo = &monitors[i];
        let mut label: String = m.name.clone();
        label.append(" (");
        label.append(write_u32(m.width).as_str());
        label.append("×");
        label.append(write_u32(m.height).as_str());
        label.append(")");
        assert(label@ =~= monitor_label(*m));
        out.push(MonitorOpt { name: m.name.clone(), label });
    }
    out
}

fn find_figure(table: &Vec<LadderFigure>, height: u32, codec: &str) -> (r: Option<usize>)
    ensures
        r is Some <==> has_figure(table@, height, codec@),
        r matches Some(i) ==> i < table@.len() && table@[i as int] == figure_of(
            table@,
            height,
            codec@,
        ),
{
    for i in 0..table.len()
        invariant
            forall|j: int|
                0 <= j < i ==> !((#[trigger] table@[j]).height == height && table@[j].codec@
                    == codec@),
    {
        if table[i].height == height && same_text(table[i].codec.as_str(), codec) {
            proof {
                assert(first_figure(table@, height, codec@, i as int));
                let k = choose|k: int| first_figure(table@, height, codec@, k);
                assert(k == i);
            }
            return Some(i);
        }
    }
    None
}

/// Whether the table has an entry for every codec at every height.
pub fn is_covered(table: &Vec<LadderFigure>, heights: &Vec<u32>, codecs: &Vec<CodecOpt>) -> (r:
    bool)
    ensures
        r == covers(table@, heights@, codec_ids(codecs@)),
{
    let ghost ids = codec_ids(codecs@);
    for k in 0..heights.len()
        invariant
            ids == codec_ids(codecs@),
            forall|i: int, c: int|
                0 <= i < k && 0 <= c < ids.len() ==> has_figure(
                    table@,
                    #[trigger] heights@[i],
                    #[trigger] ids[c],
                ),
    {
        for c in 0..codecs.len()
            invariant
                ids == codec_ids(codecs@),
                k < heights@.len(),
                forall|d: int|
                    0 <= d < c ==> has_figure(table@, heights@[k as int], #[trigger] ids[d]),
        {
            if find_figure(table, heights[k], codecs[c].id.as_str()).is_none() {
                assert(!has_figure(table@, heights@[k as int], ids[c as int]));
                return false;
            }
        }
    }
    true
}

/// Whether `h` is what the page shows of a height: one bitrate and one ring size
/// for each codec, in the order of the codecs.
pub open spec fn height_option(
    h: HeightOpt,
    height: u32,
    codecs: Seq<Seq<char>>,
    table: Seq<LadderFigure>,
) -> bool {
    &&& h.height == height
    &&& h.label@ == decimal(height as nat) + "p"@
    &&& h.bitrates@ == Seq::new(
        codecs.len(),
        |c: int| figure_of(table, height, codecs[c]).bitrate_kbps,
    )
    &&& h.ring_mb_60s@ == Seq::new(
        codecs.len(),
        |c: int| figure_of(table, height, codecs[c]).ring_mb_60s,
    )
}

fn height_options(heights: &Vec<u32>, codecs: &Vec<CodecOpt>, table: &Vec<LadderFigure>) -> (r: Vec<
    HeightOpt,
>)
    requires
        covers(table@, heights@, codec_ids(codecs@)),
    ensures
        r@.len() == heights@.len(),
        forall|k: int|
            0 <= k < r@.len() ==> height_option(
                #[trigger] r@[k],
                heights@[k],
                codec_ids(codecs@),
                table@,
            ),
{
    let ghost ids = codec_ids(codecs@);
    let mut out: Vec<HeightOpt> = Vec::new();
    for k in 0..heights.len()
        invariant
            ids == codec_ids(codecs@),
            covers(table@, heights@, ids),
            out@.len() == k,
            forall|j: int|
                0 <= j < k ==> height_option(#[trigger] out@[j], heights@[j], ids, table@),
    {
        let height: u32 = heights[k];
        let mut bitrates: Vec<u32> = Vec::new();
        let mut rings: Vec<u32> = Vec::new();
        for c in 0..codecs.len()
            invariant
                ids == codec_ids(codecs@),
                covers(table@, heights@, ids),
                k < heights@.len(),
                height == heights@[k as int],
                bitrates@.len() == c,
                rings@.len() == c,
                forall|d: int|
                    0 <= d < c ==> bitrates@[d] == figure_of(table@, height, ids[d]).bitrate_kbps,
                forall|d: int|
                    0 <= d < c ==> rings@[d] == figure_of(table@, height, ids[d]).ring_mb_60s,
        {
            assert(has_figure(table@, heights@[k as int], ids[c as int]));
            if let Some(i) = find_figure(table, height, codecs[c].id.as_str()) {
                bitrates.push(table[i].bitrate_kbps);
                rings.push(table[i].ring_mb_60s);
            }
        }
        let mut label: String = write_u32(height);
        label.append("p");
        let option: HeightOpt = HeightOpt { height, label, bitrates, ring_mb_60s: rings };
        assert(option.bitrates@ =~= Seq::new(
            ids.len(),
            |c: int| figure_of(table@, height, ids[c]).bitrate_kbps,
        ));
        assert(option.ring_mb_60s@ =~= Seq::new(
            ids.len(),
            |c: int| figure_of(table@, height, ids[c]).ring_mb_60s,
        ));
        out.push(option);
    }
    out
}

/// Whether `r` holds the options on offer and those that are set.
pub open spec fn options_of(
    r: VideoOptions,
    s: Map<Seq<char>, Seq<char>>,
    codecs: Seq<CodecOpt>,
    monitors: Seq<MonitorInfo>,
    heights: Seq<u32>,
    table: Seq<LadderFigure>,
    vendor: Seq<char>,
) -> bool {
    let source = source_height(monitors, setting_text(s, "monitor"@, ""@));
    let out = chosen_height(s);
    &&& r.codecs@ == codecs
    &&& r.heights@.len() == heights.len()
    &&& forall|k: int|
        0 <= k < r.heights@.len() ==> height_option(
            #[trigger] r.heights@[k],
            heights[k],
            codec_ids(codecs),
            table,
        )
    &&& r.monitors@.len() == monitors.len()
    &&& forall|i: int|
        0 <= i < r.monitors@.len() ==> (#[trigger] r.monitors@[i]).name@ == monitors[i].name@
            && r.monitors@[i].label@ == monitor_label(monitors[i])
    &&& r.current_codec@ == setting_text(s, "video_codec"@, "h264"@)
    &&& r.current_height == out
    &&& r.current_fps == chosen_fps(s)
    &&& r.current_monitor@ == setting_text(s, "monitor"@, ""@)
    &&& r.max_source_height == tallest(monitors)
    &&& r.vendor@ == vendor
    &&& r.transcoding == scales_on_save(out, source)
    &&& r.buffer_height == (if scales_on_save(out, source) {
        source
    } else {
        out
    })
}

/// The options on offer and those that are set; `table` holds what each codec
/// takes at each of the heights.
pub fn video_options(
    settings: &Settings,
    codecs: Vec<CodecOpt>,
    monitors: &Vec<MonitorInfo>,
    heights: &Vec<u32>,
    table: &Vec<LadderFigure>,
    vendor: String,
) -> (r: VideoOptions)
    requires
        covers(table@, heights@, codec_ids(codecs@)),
    ensures
        options_of(r, settings@, codecs@, monitors@, heights@, table@, vendor@),
        r.codecs@ == codecs@,
        r.heights@.len() == heights@.len(),
        forall|k: int|
            0 <= k < r.heights@.len() ==> height_option(
                #[trigger] r.heights@[k],
                heights@[k],
                codec_ids(codecs@),
                table@,
            ),
        forall|k: int|
            0 <= k < r.heights@.len() ==> (#[trigger] r.heights@[k]).bitrates@.len()
                == codecs@.len() && r.heights@[k].ring_mb_60s@.len() == codecs@.len(),
        r.monitors@.len() == monitors@.len(),
        forall|i: int|
            0 <= i < r.monitors@.len() ==> (#[trigger] r.monitors@[i]).name@ == monitors@[i].name@
                && r.monitors@[i].label@ == monitor_label(monitors@[i]),
        r.current_codec@ == setting_text(settings@, "video_codec"@, "h264"@),
        r.current_height == chosen_height(settings@),
        r.current_fps == chosen_fps(settings@),
        r.current_monitor@ == setting_text(settings@, "monitor"@, ""@),
        r.max_source_height == tallest(monitors@),
        r.vendor@ == vendor@,
        ({
            let source = source_height(monitors@, setting_text(settings@, "monitor"@, ""@));
            let out = chosen_height(settings@);
            &&& r.transcoding == scales_on_save(out, source)
            &&& r.buffer_height == (if scales_on_save(out, source) {
                source
            } else {
                out
            })
        }),
{
    let current_height: u32 = read_height(settings);
    let current_monitor: String = setting_str(settings, "monitor", "");
    let max_source_height: u32 = tallest_height(monitors);
    let source: u32 = read_source_height(monitors, current_monitor.as_str());
    let transcoding: bool = current_height != 0 && source > 0 && current_height < source;
    let heights: Vec<HeightOpt> = height_options(heights, &codecs, table);
    VideoOptions {
        codecs,
        heights,
        monitors: monitor_options(monitors),
        current_codec: setting_str(settings, "video_codec", "h264"),
        current_height,
        current_fps: read_fps(settings),
        current_monitor,
        buffer_height: if transcoding {
            source
        } else {
            current_height
        },
        transcoding,
        max_source_height,
        vendor,
    }
}

proof fn lemma_known_offers(offered: Seq<String>)
    ensures
        known_offers(offered).no_duplicates(),
        forall|i: int|
            0 <= i < known_offers(offered).len() ==> known_codec(#[trigger] known_offers(offered)[i]),
    decreases offered.len(),
{
    if offered.len() > 0 {
        lemma_known_offers(offered.drop_last());
    }
}

/// There is always a codec on offer, none is offered twice, and every one is
/// known to the recorder.
pub proof fn law_offers_are_known_and_distinct(offered: Seq<String>)
    ensures
        offered_ids(offered).len() > 0,
        offered_ids(offered).no_duplicates(),
        forall|i: int|
            0 <= i < offered_ids(offered).len() ==> known_codec(#[trigger] offered_ids(offered)[i]),
{
    lemma_known_offers(offered);
}

/// The page shows the plan that the recorder follows: saves scale exactly where it
/// says so, and the buffer then runs at source height, at the bitrate of that
/// height; elsewhere it runs at the height that is asked for.
pub proof fn law_options_show_the_plan(
    t: CaptureTargets,
    s: Map<Seq<char>, Seq<char>>,
    monitors: Seq<MonitorInfo>,
)
    requires
        targets_of(t, s, monitors),
    ensures
        ({
            let shown = source_height(monitors, setting_text(s, "monitor"@, ""@));
            let transcoding = scales_on_save(chosen_height(s), shown);
            &&& shown == t.source_height
            &&& transcoding <==> t.save_height > 0
            &&& transcoding ==> shown == t.buffer_ladder_height
            &&& !transcoding ==> t.capture_height == chosen_height(s)
        }),
{
}

/// The page and the recorder read the same settings: the page shows the height, the
/// frame rate, the monitor and, where it is usable, the codec that the recorder uses,
/// says that saves scale exactly where they do, and shows the height that the buffer
/// has. The greatest source height is one that a monitor has and none exceeds.
pub proof fn law_page_and_recorder_agree(
    o: VideoOptions,
    t: CaptureTargets,
    s: Map<Seq<char>, Seq<char>>,
    codecs: Seq<CodecOpt>,
    monitors: Seq<MonitorInfo>,
    heights: Seq<u32>,
    table: Seq<LadderFigure>,
    vendor: Seq<char>,
)
    requires
        targets_of(t, s, monitors),
        options_of(o, s, codecs, monitors, heights, table, vendor),
    ensures
        o.current_height == t.out_height,
        o.current_fps == t.fps,
        o.current_monitor@ == t.monitor@,
        known_codec(o.current_codec@) ==> o.current_codec@ == t.codec@,
        o.transcoding <==> t.save_height > 0,
        o.transcoding ==> o.buffer_height == t.source_height && o.buffer_height > o.current_height,
        !o.transcoding ==> o.buffer_height == t.capture_height,
        forall|i: int|
            0 <= i < monitors.len() ==> (#[trigger] monitors[i]).height <= o.max_source_height,
        monitors.len() > 0 ==> exists|i: int|
            0 <= i < monitors.len() && (#[trigger] monitors[i]).height == o.max_source_height,
        o.codecs@ == codecs && o.vendor@ == vendor,
{
    lemma_tallest(monitors);
}

/// Every monitor is shown in its place, with its name and its size; every height in
/// its place, with its number, and for each codec in its place with an entry of the
/// table for that height and codec.
pub proof fn law_rows_of_the_page(
    o: VideoOptions,
    s: Map<Seq<char>, Seq<char>>,
    codecs: Seq<CodecOpt>,
    monitors: Seq<MonitorInfo>,
    heights: Seq<u32>,
    table: Seq<LadderFigure>,
    vendor: Seq<char>,
    i: int,
    k: int,
    c: int,
)
    requires
        options_of(o, s, codecs, monitors, heights, table, vendor),
        covers(table, heights, codec_ids(codecs)),
    ensures
        o.monitors@.len() == monitors.len(),
        0 <= i < monitors.len() ==> o.monitors@[i].name@ == monitors[i].name@
            && o.monitors@[i].label@ == monitors[i].name@ + " ("@ + decimal(
            monitors[i].width as nat,
        ) + "×"@ + decimal(monitors[i].height as nat) + ")"@,
        o.heights@.len() == heights.len(),
        0 <= k < heights.len() ==> {
            &&& o.heights@[k].height == heights[k]
            &&& o.heights@[k].label@ == decimal(heights[k] as nat) + "p"@
            &&& o.heights@[k].bitrates@.len() == codecs.len()
            &&& o.heights@[k].ring_mb_60s@.len() == codecs.len()
        },
        0 <= k < heights.len() && 0 <= c < codecs.len() ==> exists|j: int|
            0 <= j < table.len() && (#[trigger] table[j]).height == heights[k] && table[j].codec@
                == codecs[c].id@ && table[j].bitrate_kbps == o.heights@[k].bitrates@[c]
                && table[j].ring_mb_60s == o.heights@[k].ring_mb_60s@[c],
{
    if 0 <= k < heights.len() {
        assert(height_option(o.heights@[k], heights[k], codec_ids(codecs), table));
        if 0 <= c < codecs.len() {
            let ids = codec_ids(codecs);
            assert(has_figure(table, heights[k], ids[c]));
            let j = choose|j: int| first_figure(table, heights[k], ids[c], j);
            assert(table[j].height == heights[k]);
        }
    }
    if 0 <= i < monitors.len() {
        assert(o.monitors@[i].label@ == monitor_label(monitors[i]));
    }
}

/// Every codec that the backend names and that is one of the four known ones is on
/// offer; what is on offer was named, unless nothing known was, and then H.264 is.
pub proof fn law_known_codecs_are_offered(offered: Seq<String>, id: Seq<char>)
    ensures
        ({
            let known = id == "h264"@ || id == "hevc"@ || id == "av1"@ || id == "x264"@;
            let named = exists|i: int| 0 <= i < offered.len() && (#[trigger] offered[i])@ == id;
            &&& known && named ==> offered_ids(offered).contains(id)
            &&& offered_ids(offered).contains(id) ==> known && (named || offered_ids(offered)
                == seq!["h264"@])
        }),
{
    lemma_offers_complete(offered, id);
    lemma_known_offers(offered);
    let ids = offered_ids(offered);
    if ids.contains(id) {
        let k = choose|k: int| 0 <= k < ids.len() && ids[k] == id;
        if known_offers(offered).len() > 0 {
            assert(known_offers(offered)[k] == id);
        }
    }
}

proof fn lemma_offers_complete(offered: Seq<String>, id: Seq<char>)
    ensures
        known_offers(offered).contains(id) <==> known_codec(id) && exists|i: int|
            0 <= i < offered.len() && (#[trigger] offered[i])@ == id,
    decreases offered.len(),
{
    if offered.len() > 0 {
        let front = offered.drop_last();
        let rest = known_offers(front);
        let all = known_offers(offered);
        lemma_offers_complete(front, id);
        if rest.contains(id) {
            let k = choose|k: int| 0 <= k < rest.len() && rest[k] == id;
            assert(all[k] == id);
            let i = choose|i: int| 0 <= i < front.len() && (#[trigger] front[i])@ == id;
            assert(offered[i] == front[i]);
        }
        if known_codec(id) && offered.last()@ == id {
            assert(offered[offered.len() - 1]@ == id);
            if !rest.contains(id) {
                assert(all[all.len() - 1] == id);
            }
        }
        if all.contains(id) && !rest.contains(id) {
            let k = choose|k: int| 0 <= k < all.len() && all[k] == id;
            if k < rest.len() {
                assert(rest[k] == id);
            }
            assert(offered[offered.len() - 1]@ == id);
        }
        if exists|i: int| 0 <= i < offered.len() && (#[trigger] offered[i])@ == id {
            let i = choose|i: int| 0 <= i < offered.len() && (#[trigger] offered[i])@ == id;
            if i < front.len() {
                assert(front[i] == offered[i]);
            }
        }
    }
}

/// Codecs are offered in the order in which the backend names them: a name more at
/// the end never moves the others.
pub proof fn law_offers_keep_their_order(offered: Seq<String>, more: String)
    ensures
        ({
            let before = known_offers(offered);
            let after = known_offers(offered.push(more));
            after == before || after == before.push(more@)
        }),
        known_offers(offered).len() > 0 ==> offered_ids(offered) == known_offers(offered),
{
    assert(offered.push(more).drop_last() =~= offered);
}

} // verus!
