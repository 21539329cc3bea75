//! The clips that the index lists.

use vstd::prelude::*;

use crate::text::{same_text, texts};

verus! {

/// A clip as the index lists it.
#[derive(Debug)]
pub struct ClipRecord {
    pub id: String,
    pub file_name: String,
    pub duration_ms: i64,
}

/// The ids of the clips whose files are gone, in the order of the clips.
pub open spec fn missing_ids(clips: Seq<ClipRecord>, on_disk: Seq<bool>) -> Seq<Seq<char>>
    decreases clips.len(),
{
    if clips.len() == 0 {
        Seq::empty()
    } else {
        let rest = missing_ids(clips.drop_last(), on_disk.drop_last());
        if on_disk.last() {
            rest
        } else {
            rest.push(clips.last().id@)
        }
    }
}

/// The rows to drop from the index.
#[derive(Debug)]
pub struct Purge {
    pub ids: Vec<String>,
    /// How many they are, as far as 32 bits can say.
    pub count: u32,
}

/// The rows to drop from the index: those whose files are gone. `on_disk` says
/// of each clip whether its file is there.
pub fn purge_missing_clips(clips: &Vec<ClipRecord>, on_disk: &Vec<bool>) -> (r: Purge)
    requires
        clips@.len() == on_disk@.len(),
    ensures
        texts(r.ids@) == missing_ids(clips@, on_disk@),
        r.count == r.ids@.len() % 0x1_0000_0000,
{
    let mut ids: Vec<String> = Vec::new();
    assert(texts(ids@) =~= missing_ids(clips@.take(0), on_disk@.take(0)));
    for i in 0..clips.len()
        invariant
            clips@.len() == on_disk@.len(),
            texts(ids@) == missing_ids(
                clips@.take(i as int),
                on_disk@.take(i as int),
            ),
    {
        assert(clips@.take(i + 1).drop_last() =~= clips@.take(i as int));
        assert(on_disk@.take(i + 1).drop_last() =~= on_disk@.take(i as int));
        if !on_disk[i] {
            let ghost before = ids@;
            ids.push(clips[i].id.clone());
            assert(texts(ids@) =~= texts(before).push(
                clips@[i as int].id@,
            ));
        }
    }
    assert(clips@.take(clips@.len() as int) =~= clips@);
    assert(on_disk@.take(on_disk@.len() as int) =~= on_disk@);
    let count: u32 = (ids.len() as u64 % 0x1_0000_0000) as u32;
    Purge { ids, count }
}

/// Whether `i` is the first clip with this id.
pub open spec fn first_with_id(clips: Seq<ClipRecord>, id: Seq<char>, i: int) -> bool {
    &&& 0 <= i < clips.len()
    &&& clips[i].id@ == id
    &&& forall|j: int| 0 <= j < i ==> (#[trigger] clips[j]).id@ != id
}

/// The clip with this id.
pub fn find_clip<'a>(clips: &'a Vec<ClipRecord>, id: &str) -> (r: Result<&'a ClipRecord, String>)
    ensures
        r is Ok <==> exists|i: int| 0 <= i < clips@.len() && (#[trigger] clips@[i]).id@ == id@,
        r matches Ok(c) ==> exists|i: int| first_with_id(clips@, id@, i) && *c == clips@[i],
        r matches Err(e) ==> e@ == "clip not found"@,
{
    for i in 0..clips.len()
        invariant
            forall|j: int| 0 <= j < i ==> (#[trigger] clips@[j]).id@ != id@,
    {
        if same_text(clips[i].id.as_str(), id) {
            assert(first_with_id(clips@, id@, i as int));
            return Ok(&clips[i]);
        }
    }
    Err("clip not found".to_owned())
}

/// How a clip is shown in a player.
#[derive(Debug, Clone, Copy, PartialEq, Eq, Structural)]
pub enum OpenStep {
    /// Hand it to the opener.
    Opener,
    /// Hand it to the launcher of the system.
    Launcher,
    /// It is shown.
    Opened,
}

/// Opens a clip in the default player, as long as its file is there.
pub fn open_clip_external(file_name: &str, on_disk: bool) -> (r: Result<OpenStep, String>)
    ensures
        r is Ok <==> on_disk,
        r matches Ok(step) ==> step == OpenStep::Opener,
        r matches Err(e) ==> e@ == "file gone from disk: "@ + file_name@,
{
    if on_disk {
        Ok(OpenStep::Opener)
    } else {
        let mut e: String = "file gone from disk: ".to_owned();
        e.append(file_name);
        Err(e)
    }
}

/// The opener was asked: where it failed the launcher is next.
pub fn opener_answered(opened: bool) -> (r: OpenStep)
    ensures
        r == (if opened {
            OpenStep::Opened
        } else {
            OpenStep::Launcher
        }),
{
    if opened {
        OpenStep::Opened
    } else {
        OpenStep::Launcher
    }
}

/// The launcher was asked: where it failed too there is nothing left.
pub fn launcher_answered(launched: Result<(), String>) -> (r: Result<OpenStep, String>)
    ensures
        r is Ok <==> launched is Ok,
        r matches Ok(step) ==> step == OpenStep::Opened,
        r matches Err(e) ==> (launched matches Err(f) && e@
            == "opener + OS launcher both failed ("@ + f@ + ")"@),
{
    match launched {
        Ok(_) => Ok(OpenStep::Opened),
        Err(f) => {
            let mut e: String = "opener + OS launcher both failed (".to_owned();
            e.append(f.as_str());
            e.append(")");
            Err(e)
        },
    }
}

/// Whether a stored duration is more than a second and a half off.
pub open spec fn duration_off(measured: i64, stored: i64) -> bool {
    measured - stored > 1500 || stored - measured > 1500
}

/// The duration to store, if the stored one is off.
pub open spec fn correction(stored: i64, on_disk: bool, measured: Option<i64>) -> Option<i64> {
    match measured {
        Some(ms) => if on_disk && duration_off(ms, stored) {
            Some(ms)
        } else {
            None
        },
        None => None,
    }
}

/// The duration to store for a clip, if its stored one is off: `measured` is
/// what its file really lasts. A clip without a file, or that cannot be
/// measured, is left alone.
pub fn backfill_duration(clip: &ClipRecord, on_disk: bool, measured: Option<i64>) -> (r: Option<
    i64,
>)
    ensures
        r == correction(clip.duration_ms, on_disk, measured),
        r == (match measured {
            Some(ms) => if on_disk && duration_off(ms, clip.duration_ms) {
                Some(ms)
            } else {
                None
            },
            None => None,
        }),
{
    match measured {
        Some(ms) => {
            let off: i128 = ms as i128 - clip.duration_ms as i128;
            if on_disk && (off > 1500 || off < -1500) {
                Some(ms)
            } else {
                None
            }
        },
        None => None,
    }
}

proof fn lemma_missing_ids(clips: Seq<ClipRecord>, on_disk: Seq<bool>, id: Seq<char>)
    requires
        clips.len() == on_disk.len(),
    ensures
        missing_ids(clips, on_disk).contains(id) <==> exists|i: int|
            0 <= i < clips.len() && !on_disk[i] && (#[trigger] clips[i]).id@ == id,
    decreases clips.len(),
{
    if clips.len() > 0 {
        let front = clips.drop_last();
        let there = on_disk.drop_last();
        lemma_missing_ids(front, there, id);
        let rest = missing_ids(front, there);
        let all = missing_ids(clips, on_disk);
        if rest.contains(id) {
            let i = choose|i: int|
                0 <= i < front.len() && !there[i] && (#[trigger] front[i]).id@ == id;
            assert(clips[i] == front[i]);
            let k = choose|k: int| 0 <= k < rest.len() && rest[k] == id;
            assert(all[k] == id);
        }
        if !on_disk.last() && clips.last().id@ == id {
            assert(clips[clips.len() - 1].id@ == id);
            assert(all[all.len() - 1] == id);
        }
        if all.contains(id) && !rest.contains(id) {
            let k = choose|k: int| 0 <= k < all.len() && all[k] == id;
            if k < rest.len() {
                assert(rest[k] == id);
            }
            assert(clips[clips.len() - 1].id@ == id);
        }
        if exists|i: int| 0 <= i < clips.len() && !on_disk[i] && (#[trigger] clips[i]).id@ == id {
            let i = choose|i: int|
                0 <= i < clips.len() && !on_disk[i] && (#[trigger] clips[i]).id@ == id;
            if i < front.len() {
                assert(front[i] == clips[i]);
                assert(there[i] == on_disk[i]);
            }
        }
    }
}

/// A purge drops exactly the rows whose files are gone: none that has a file,
/// and all that have none.
pub proof fn law_purge_is_exact(clips: Seq<ClipRecord>, on_disk: Seq<bool>, i: int)
    requires
        clips.len() == on_disk.len(),
        0 <= i < clips.len(),
        forall|j: int, k: int|
            0 <= j < clips.len() && 0 <= k < clips.len() && j != k ==> (#[trigger] clips[j]).id@ != (
            #[trigger] clips[k]).id@,
    ensures
        missing_ids(clips, on_disk).contains(clips[i].id@) <==> !on_disk[i],
{
    lemma_missing_ids(clips, on_disk, clips[i].id@);
}

/// What is on disk of each clip, given the names of the files that are there.
pub open spec fn presence(clips: Seq<ClipRecord>, files: Set<Seq<char>>) -> Seq<bool> {
    Seq::new(clips.len(), |i: int| files.contains(clips[i].file_name@))
}

/// The rows that are left after those with these ids were dropped.
pub open spec fn rows_left(clips: Seq<ClipRecord>, ids: Seq<Seq<char>>) -> Seq<ClipRecord> {
    clips.filter(|c: ClipRecord| !ids.contains(c.id@))
}

/// The rows whose files are there.
pub open spec fn rows_with_files(clips: Seq<ClipRecord>, files: Set<Seq<char>>) -> Seq<ClipRecord> {
    clips.filter(|c: ClipRecord| files.contains(c.file_name@))
}

proof fn lemma_same_filter(
    clips: Seq<ClipRecord>,
    p: spec_fn(ClipRecord) -> bool,
    q: spec_fn(ClipRecord) -> bool,
)
    requires
        forall|i: int| 0 <= i < clips.len() ==> p(#[trigger] clips[i]) == q(clips[i]),
    ensures
        clips.filter(p) == clips.filter(q),
    decreases clips.len(),
{
    reveal(Seq::filter);
    if clips.len() > 0 {
        let front = clips.drop_last();
        assert forall|i: int| 0 <= i < front.len() implies p(#[trigger] front[i]) == q(
            front[i],
        ) by {
            assert(front[i] == clips[i]);
        }
        lemma_same_filter(front, p, q);
        assert(clips.last() == clips[clips.len() - 1]);
    }
}

/// A purge leaves exactly the rows whose files are there, unchanged and in their
/// order.
pub proof fn law_purge_leaves_rows_with_files(clips: Seq<ClipRecord>, files: Set<Seq<char>>)
    requires
        forall|j: int, k: int|
            0 <= j < clips.len() && 0 <= k < clips.len() && j != k ==> (#[trigger] clips[j]).id@ != (
            #[trigger] clips[k]).id@,
    ensures
        rows_left(clips, missing_ids(clips, presence(clips, files))) == rows_with_files(
            clips,
            files,
        ),
{
    let ids = missing_ids(clips, presence(clips, files));
    let p = |c: ClipRecord| !ids.contains(c.id@);
    let q = |c: ClipRecord| files.contains(c.file_name@);
    assert forall|i: int| 0 <= i < clips.len() implies p(#[trigger] clips[i]) == q(clips[i]) by {
        law_purge_is_exact(clips, presence(clips, files), i);
    }
    lemma_same_filter(clips, p, q);
}

/// Where every file is there, a purge drops nothing.
pub proof fn law_nothing_to_purge(clips: Seq<ClipRecord>, on_disk: Seq<bool>)
    requires
        clips.len() == on_disk.len(),
        forall|i: int| 0 <= i < on_disk.len() ==> on_disk[i],
    ensures
        missing_ids(clips, on_disk).len() == 0,
    decreases clips.len(),
{
    if clips.len() > 0 {
        law_nothing_to_purge(clips.drop_last(), on_disk.drop_last());
    }
}

/// A second purge right after the first drops nothing.
pub proof fn law_second_purge_drops_nothing(clips: Seq<ClipRecord>, files: Set<Seq<char>>)
    ensures
        ({
            let left = rows_left(clips, missing_ids(clips, presence(clips, files)));
            missing_ids(left, presence(left, files)).len() == 0
        }),
{
    let ids = missing_ids(clips, presence(clips, files));
    let left = rows_left(clips, ids);
    let p = |c: ClipRecord| !ids.contains(c.id@);
    assert forall|i: int| 0 <= i < left.len() implies files.contains(
        #[trigger] left[i].file_name@,
    ) by {
        clips.lemma_filter_pred(p, i);
        assert(clips.filter(p).contains(left[i]));
        clips.lemma_filter_contains_rev(p, left[i]);
        let k = choose|k: int| 0 <= k < clips.len() && clips[k] == left[i];
        lemma_missing_ids(clips, presence(clips, files), clips[k].id@);
        assert(clips[k].id@ == left[i].id@);
    }
    law_nothing_to_purge(left, presence(left, files));
}

/// A corrected duration is not corrected again, and no clip with a file that can
/// be measured keeps a duration that is off.
pub proof fn law_correction_settles(measured: i64, stored: i64)
    ensures
        !duration_off(measured, measured),
        !duration_off(
            measured,
            if duration_off(measured, stored) {
                measured
            } else {
                stored
            },
        ),
{
}

/// A duration is off where the measured and the stored one lie more than 1500
/// milliseconds apart, whichever is the longer.
pub proof fn law_off_by_more_than_a_second_and_a_half(a: i64, b: i64)
    ensures
        a <= b ==> (duration_off(a, b) <==> b - a > 1500),
        a >= b ==> (duration_off(a, b) <==> a - b > 1500),
        duration_off(a, b) == duration_off(b, a),
{
}

/// The ids to drop keep the order of the rows, and there is one for each row without
/// a file: with one row more at the end, its id comes at the end, if its file is gone.
pub proof fn law_purge_goes_row_by_row(
    clips: Seq<ClipRecord>,
    on_disk: Seq<bool>,
    clip: ClipRecord,
    there: bool,
)
    requires
        clips.len() == on_disk.len(),
    ensures
        there ==> missing_ids(clips.push(clip), on_disk.push(there)) == missing_ids(clips, on_disk),
        !there ==> missing_ids(clips.push(clip), on_disk.push(there)) == missing_ids(
            clips,
            on_disk,
        ).push(clip.id@),
        missing_ids(Seq::empty(), Seq::empty()).len() == 0,
{
    assert(clips.push(clip).drop_last() =~= clips);
    assert(on_disk.push(there).drop_last() =~= on_disk);
}

/// A correction is the duration that was measured, and comes exactly where the file is
/// there and the two lie more than 1500 milliseconds apart.
pub proof fn law_when_a_duration_is_corrected(stored: i64, on_disk: bool, measured: i64)
    ensures
        correction(stored, on_disk, Some(measured)) is Some <==> on_disk && (measured > stored
            + 1500 || measured < stored - 1500),
        correction(stored, on_disk, Some(measured)) is Some ==> correction(
            stored,
            on_disk,
            Some(measured),
        ) == Some(measured),
        correction(stored, on_disk, None) is None,
{
}

} // verus!
