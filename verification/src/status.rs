//! What the recorder reports of itself.

use vstd::prelude::*;

use crate::text::same_text;

verus! {

/// The state of the recorder as the user sees it.
#[derive(Debug)]
pub struct EngineStatus {
    pub running: bool,
    pub backend: String,
    /// The audio tracks that are linked: 0, 1 or 2.
    pub tracks_linked: usize,
    /// The last error of a gain change, if any.
    pub audio_error: Option<String>,
}

/// The tracks that are shown as linked.
pub open spec fn shown_tracks(running: bool, linked: usize) -> usize {
    if running {
        linked
    } else {
        0
    }
}

/// The state of the recorder: one that is not running has no track linked.
pub fn engine_status(
    running: bool,
    backend: &str,
    linked: usize,
    audio_error: Option<String>,
) -> (r: EngineStatus)
    ensures
        r.running == running,
        r.backend@ == backend@,
        r.tracks_linked == shown_tracks(running, linked),
        r.tracks_linked == (if running {
            linked
        } else {
            0
        }),
        r.audio_error == audio_error,
{
    EngineStatus {
        running,
        backend: backend.to_owned(),
        tracks_linked: if running {
            linked
        } else {
            0
        },
        audio_error,
    }
}

/// The state after the recorder was stopped: nothing linked, no error left.
pub fn stopped_status(backend: &str) -> (r: EngineStatus)
    ensures
        !r.running,
        r.backend@ == backend@,
        r.tracks_linked == 0,
        r.audio_error is None,
{
    engine_status(false, backend, 0, None)
}

/// Refuses to start a recorder beside one that is running.
pub fn start_buffer(running: bool) -> (r: Result<(), String>)
    ensures
        r is Err <==> running,
        r matches Err(e) ==> e@ == "buffer already running"@,
{
    if running {
        Err("buffer already running".to_owned())
    } else {
        Ok(())
    }
}

/// The error that is kept after the stored gains were applied to the live
/// tracks: none once it worked.
pub fn audio_error_after(applied: Result<usize, String>) -> (r: Option<String>)
    ensures
        r is Some <==> applied is Err,
        r matches Some(e) ==> applied matches Err(f) && e@ == f@,
{
    match applied {
        Ok(_) => None,
        Err(e) => Some(e),
    }
}

/// The capture backend's binary.
#[derive(Debug)]
pub struct GsrInfo {
    pub path: String,
    pub source: String,
    pub caps_ok: bool,
    pub present: bool,
}

/// A binary that was found.
#[derive(Debug)]
pub struct FoundBinary {
    pub path: String,
    pub source: String,
    pub caps_ok: bool,
}

/// What is known of the backend's binary.
pub fn gsr_info(found: Option<FoundBinary>) -> (r: GsrInfo)
    ensures
        r.present == found is Some,
        found matches Some(f) ==> r.path@ == f.path@ && r.source@ == f.source@ && r.caps_ok
            == f.caps_ok,
        found is None ==> r.path@.len() == 0 && r.source@ == "missing"@ && !r.caps_ok,
{
    match found {
        Some(f) => GsrInfo { path: f.path, source: f.source, caps_ok: f.caps_ok, present: true },
        None => GsrInfo {
            path: String::new(),
            source: "missing".to_owned(),
            caps_ok: false,
            present: false,
        },
    }
}

/// Refuses the permission fix for a binary that is not the bundled one.
pub fn fix_gsr_caps(source: &str) -> (r: Result<(), String>)
    ensures
        r is Ok <==> source@ == "bundled"@,
        r matches Err(e) ==> e@ == "one-click fix applies to the bundled binary only"@,
{
    if same_text(source, "bundled") {
        Ok(())
    } else {
        Err("one-click fix applies to the bundled binary only".to_owned())
    }
}

/// Of a recorder that runs every linked track is shown, of one that does not none is.
pub proof fn law_tracks_show_while_running(linked: usize)
    ensures
        shown_tracks(true, linked) == linked,
        shown_tracks(false, linked) == 0,
{
}

} // verus!
