//! Command lines that work on files, and the three audio tracks of a clip.

use vstd::prelude::*;

use crate::decimal::{decimal, write_u32};
use crate::names::{file_stem, law_names_part_at_the_last_dot, stem_of_name};
use crate::stem::{silence, silent};

verus! {

/// One argument: a text, or the place of a file.
#[derive(Debug)]
pub enum FileArg {
    Text(String),
    /// An input file, by its number.
    Input(usize),
    /// The file to write.
    Output,
}

/// What an argument says.
pub enum ArgModel {
    Text(Seq<char>),
    Input(nat),
    Output,
}

/// What a row of arguments says.
pub open spec fn args_of(v: Seq<FileArg>) -> Seq<ArgModel> {
    Seq::new(
        v.len(),
        |i: int|
            match v[i] {
                FileArg::Text(t) => ArgModel::Text(t@),
                FileArg::Input(n) => ArgModel::Input(n as nat),
                FileArg::Output => ArgModel::Output,
            },
    )
}

/// A row of texts as arguments.
pub open spec fn words(v: Seq<Seq<char>>) -> Seq<ArgModel> {
    Seq::new(v.len(), |i: int| ArgModel::Text(v[i]))
}

fn push_word(out: &mut Vec<FileArg>, t: &str)
    ensures
        args_of(final(out)@) == args_of(old(out)@).push(ArgModel::Text(t@)),
{
    out.push(FileArg::Text(t.to_owned()));
    assert(args_of(out@) =~= args_of(old(out)@).push(ArgModel::Text(t@)));
}

fn push_two(out: &mut Vec<FileArg>, a: &str, b: &str)
    ensures
        args_of(final(out)@) == args_of(old(out)@) + words(seq![a@, b@]),
{
    push_word(out, a);
    push_word(out, b);
    assert(args_of(out@) =~= args_of(old(out)@) + words(seq![a@, b@]));
}

fn push_input(out: &mut Vec<FileArg>, n: usize)
    ensures
        args_of(final(out)@) == args_of(old(out)@) + seq![
            ArgModel::Text("-i"@),
            ArgModel::Input(n as nat),
        ],
{
    push_word(out, "-i");
    let ghost before = out@;
    out.push(FileArg::Input(n));
    assert(args_of(out@) =~= args_of(before).push(ArgModel::Input(n as nat)));
    assert(args_of(out@) =~= args_of(old(out)@) + seq![
        ArgModel::Text("-i"@),
        ArgModel::Input(n as nat),
    ]);
}

/// The command line that joins the video with the three stems: input 0 is the
/// video, inputs 1 to 3 are mix, game and microphone. Each stem is padded, so
/// that the clip is as long as the video.
pub open spec fn mux_command() -> Seq<ArgModel> {
    words(seq!["-y"@, "-hide_banner"@, "-loglevel"@, "error"@]) + seq![
        ArgModel::Text("-i"@),
        ArgModel::Input(0),
        ArgModel::Text("-i"@),
        ArgModel::Input(1),
        ArgModel::Text("-i"@),
        ArgModel::Input(2),
        ArgModel::Text("-i"@),
        ArgModel::Input(3),
    ] + words(
        seq!["-map"@, "0:v"@, "-map"@, "1:a"@, "-map"@, "2:a"@, "-map"@, "3:a"@],
    ) + words(seq!["-c:v"@, "copy"@, "-c:a"@, "aac"@, "-b:a"@, "160k"@]) + words(
        seq![
            "-filter:a:0"@,
            "apad"@,
            "-filter:a:1"@,
            "apad"@,
            "-filter:a:2"@,
            "apad"@,
        ],
    ) + words(
        seq![
            "-metadata:s:a:0"@,
            "title=Mix"@,
            "-metadata:s:a:1"@,
            "title=Game"@,
            "-metadata:s:a:2"@,
            "title=Mic"@,
        ],
    ) + seq![ArgModel::Text("-shortest"@), ArgModel::Output]
}

/// The command line that joins the video with the three stems.
pub fn mux_args() -> (r: Vec<FileArg>)
    ensures
        args_of(r@) == mux_command(),
{
    let mut out: Vec<FileArg> = Vec::new();
    assert(args_of(out@) =~= Seq::<ArgModel>::empty());
    push_two(&mut out, "-y", "-hide_banner");
    push_two(&mut out, "-loglevel", "error");
    push_input(&mut out, 0);
    push_input(&mut out, 1);
    push_input(&mut out, 2);
    push_input(&mut out, 3);
    push_two(&mut out, "-map", "0:v");
    push_two(&mut out, "-map", "1:a");
    push_two(&mut out, "-map", "2:a");
    push_two(&mut out, "-map", "3:a");
    push_two(&mut out, "-c:v", "copy");
    push_two(&mut out, "-c:a", "aac");
    push_two(&mut out, "-b:a", "160k");
    push_two(&mut out, "-filter:a:0", "apad");
    push_two(&mut out, "-filter:a:1", "apad");
    push_two(&mut out, "-filter:a:2", "apad");
    push_two(&mut out, "-metadata:s:a:0", "title=Mix");
    push_two(&mut out, "-metadata:s:a:1", "title=Game");
    push_two(&mut out, "-metadata:s:a:2", "title=Mic");
    push_word(&mut out, "-shortest");
    let ghost before = out@;
    out.push(FileArg::Output);
    assert(args_of(out@) =~= args_of(before).push(ArgModel::Output));
    assert(args_of(out@) =~= mux_command());
    out
}

/// The command line that takes one track out of a clip.
pub open spec fn preview_command(track: u32) -> Seq<ArgModel> {
    words(seq!["-y"@, "-hide_banner"@, "-loglevel"@, "error"@]) + seq![
        ArgModel::Text("-i"@),
        ArgModel::Input(0),
    ] + words(seq!["-map"@, "0:"@ + decimal(track as nat), "-c:a"@, "aac"@]) + seq![
        ArgModel::Output,
    ]
}

/// The command line that takes one track out of a clip: 1 is the mix, 2 the
/// game, 3 the microphone.
pub fn preview_track(track: u32) -> (r: Result<Vec<FileArg>, String>)
    ensures
        r is Ok <==> 1 <= track <= 3,
        r matches Ok(args) ==> args_of(args@) == preview_command(track),
        r matches Err(e) ==> e@ == "track must be 1 (mix), 2 (game) or 3 (mic)"@,
{
    if track < 1 || track > 3 {
        return Err("track must be 1 (mix), 2 (game) or 3 (mic)".to_owned());
    }
    let mut map: String = "0:".to_owned();
    map.append(write_u32(track).as_str());
    let mut out: Vec<FileArg> = Vec::new();
    assert(args_of(out@) =~= Seq::<ArgModel>::empty());
    push_two(&mut out, "-y", "-hide_banner");
    push_two(&mut out, "-loglevel", "error");
    push_input(&mut out, 0);
    push_two(&mut out, "-map", map.as_str());
    push_two(&mut out, "-c:a", "aac");
    let ghost before = out@;
    out.push(FileArg::Output);
    assert(args_of(out@) =~= args_of(before).push(ArgModel::Output));
    assert(args_of(out@) =~= preview_command(track));
    Ok(out)
}

/// The outcome of a command: `run` is whether it succeeded, or why it could not
/// be run. `what` names a command that could not be run, `failed` one that did
/// not succeed.
fn command_outcome(what: &str, failed: &str, run: Result<bool, String>) -> (r: Result<(), String>)
    ensures
        r is Ok <==> run == Ok::<bool, String>(true),
        r matches Err(e) ==> e@ == (match run {
            Err(f) => what@ + ": "@ + f@,
            Ok(_) => failed@,
        }),
{
    match run {
        Ok(true) => Ok(()),
        Ok(false) => Err(failed.to_owned()),
        Err(f) => {
            let mut e: String = what.to_owned();
            e.append(": ");
            e.append(f.as_str());
            Err(e)
        },
    }
}

/// The outcome of joining video and stems.
pub fn mux_outcome(run: Result<bool, String>) -> (r: Result<(), String>)
    ensures
        r is Ok <==> run == Ok::<bool, String>(true),
        r matches Err(e) ==> e@ == (match run {
            Err(f) => "save mux failed"@ + ": "@ + f@,
            Ok(_) => "save mux failed (ffmpeg)"@,
        }),
{
    command_outcome("save mux failed", "save mux failed (ffmpeg)", run)
}

/// The outcome of taking a track out of a clip.
pub fn preview_outcome(run: Result<bool, String>) -> (r: Result<(), String>)
    ensures
        r is Ok <==> run == Ok::<bool, String>(true),
        r matches Err(e) ==> e@ == (match run {
            Err(f) => "preview extract failed"@ + ": "@ + f@,
            Ok(_) => "preview extract failed"@,
        }),
{
    command_outcome("preview extract failed", "preview extract failed", run)
}

/// The three audio tracks of a clip.
#[derive(Debug)]
pub struct ClipStems {
    pub mix: Vec<u32>,
    pub game: Vec<u32>,
    pub mic: Vec<u32>,
}

/// The samples of a full-length stem: one second at least.
pub open spec fn full_length(seconds: nat) -> nat {
    (if seconds < 1 {
        1nat
    } else {
        seconds
    }) * 48_000 * 2
}

/// A stem as it goes into the clip: silence of full length where it is empty.
pub open spec fn track_of(stem: Seq<u32>, seconds: nat) -> Seq<u32> {
    if stem.len() == 0 {
        silence(full_length(seconds))
    } else {
        stem
    }
}

fn track(stem: Vec<u32>, seconds: usize) -> (r: Vec<u32>)
    requires
        full_length(seconds as nat) <= usize::MAX,
    ensures
        r@ == track_of(stem@, seconds as nat),
{
    if stem.len() == 0 {
        let whole: usize = if seconds < 1 {
            1
        } else {
            seconds
        };
        silent(whole * 48_000 * 2)
    } else {
        stem
    }
}

/// The three audio tracks of a clip of that many seconds.
pub fn clip_stems(mix: Vec<u32>, game: Vec<u32>, mic: Vec<u32>, full_secs: usize) -> (r: ClipStems)
    requires
        full_length(full_secs as nat) <= usize::MAX,
    ensures
        r.mix@ == track_of(mix@, full_secs as nat),
        r.game@ == track_of(game@, full_secs as nat),
        r.mic@ == track_of(mic@, full_secs as nat),
{
    ClipStems {
        mix: track(mix, full_secs),
        game: track(game, full_secs),
        mic: track(mic, full_secs),
    }
}

/// The names of the three stem files beside a clip, mix, game and microphone.
pub open spec fn stem_files(clip: Seq<char>) -> (Seq<char>, Seq<char>, Seq<char>) {
    (
        stem_of_name(clip) + ".mux.mix0.wav"@,
        stem_of_name(clip) + ".mux.game1.wav"@,
        stem_of_name(clip) + ".mux.mic2.wav"@,
    )
}

/// The names of the three stem files beside a clip, mix, game and microphone.
pub fn stem_file_names(clip: &str) -> (r: (String, String, String))
    ensures
        (r.0@, r.1@, r.2@) == stem_files(clip@),
        r.0@ == stem_of_name(clip@) + ".mux.mix0.wav"@,
        r.1@ == stem_of_name(clip@) + ".mux.game1.wav"@,
        r.2@ == stem_of_name(clip@) + ".mux.mic2.wav"@,
{
    let mut mix: String = file_stem(clip).to_owned();
    mix.append(".mux.mix0.wav");
    let mut game: String = file_stem(clip).to_owned();
    game.append(".mux.game1.wav");
    let mut mic: String = file_stem(clip).to_owned();
    mic.append(".mux.mic2.wav");
    (mix, game, mic)
}

/// A clip always carries three tracks that hold something; a track that was
/// captured is left as it is, one that was not is silent throughout.
pub proof fn law_every_track_is_there(stem: Seq<u32>, seconds: nat)
    ensures
        track_of(stem, seconds).len() > 0,
        stem.len() > 0 ==> track_of(stem, seconds) == stem,
        stem.len() == 0 ==> track_of(stem, seconds).len() == full_length(seconds) && forall|i: int|
            0 <= i < track_of(stem, seconds).len() ==> track_of(stem, seconds)[i] == 0,
{
}

/// A track that was not captured is silent for the length of the clip in 48 kHz
/// stereo, one second at least.
pub proof fn law_silence_lasts_the_clip(seconds: nat)
    ensures
        seconds > 0 ==> track_of(Seq::empty(), seconds).len() == seconds * 96_000,
        seconds == 0 ==> track_of(Seq::empty(), seconds).len() == 96_000,
        forall|i: int|
            0 <= i < track_of(Seq::empty(), seconds).len() ==> track_of(Seq::empty(), seconds)[i]
                == 0,
{
}

/// A preview takes the track with the given number out of the one input, and
/// nothing else.
pub proof fn law_preview_takes_one_track(track: u32)
    ensures
        ({
            let c = preview_command(track);
            &&& c.len() == 11
            &&& c[4] == ArgModel::Text("-i"@) && c[5] == ArgModel::Input(0)
            &&& c[6] == ArgModel::Text("-map"@) && c[7] == ArgModel::Text(
                "0:"@ + decimal(track as nat),
            )
            &&& c[8] == ArgModel::Text("-c:a"@) && c[9] == ArgModel::Text("aac"@)
            &&& c[10] == ArgModel::Output
        }),
{
}

/// The clip has the video of input 0, unchanged, then the audio of inputs 1, 2 and 3
/// in this order, as mix, game and microphone, each padded, and is as long as the
/// shortest of them.
pub proof fn law_clip_has_three_tracks()
    ensures
        ({
            let c = mux_command();
            let text = |i: int, t: Seq<char>| c[i] == ArgModel::Text(t);
            &&& c.len() == 40
            &&& c[5] == ArgModel::Input(0) && c[7] == ArgModel::Input(1) && c[9]
                == ArgModel::Input(2) && c[11] == ArgModel::Input(3)
            &&& text(12, "-map"@) && text(13, "0:v"@) && text(14, "-map"@) && text(15, "1:a"@)
            &&& text(16, "-map"@) && text(17, "2:a"@) && text(18, "-map"@) && text(19, "3:a"@)
            &&& text(20, "-c:v"@) && text(21, "copy"@) && text(22, "-c:a"@) && text(23, "aac"@)
            &&& text(24, "-b:a"@) && text(25, "160k"@)
            &&& text(26, "-filter:a:0"@) && text(27, "apad"@)
            &&& text(28, "-filter:a:1"@) && text(29, "apad"@)
            &&& text(30, "-filter:a:2"@) && text(31, "apad"@)
            &&& text(32, "-metadata:s:a:0"@) && text(33, "title=Mix"@)
            &&& text(34, "-metadata:s:a:1"@) && text(35, "title=Game"@)
            &&& text(36, "-metadata:s:a:2"@) && text(37, "title=Mic"@)
            &&& text(38, "-shortest"@) && c[39] == ArgModel::Output
        }),
{
}

/// The stem files stand beside the clip under its own name, each with an ending of its
/// own.
pub proof fn law_stem_files_bear_the_clips_name(stem: Seq<char>, ext: Seq<char>)
    requires
        stem.len() > 0,
        forall|i: int| 0 <= i < ext.len() ==> ext[i] != '.',
        stem + "."@ + ext != ".."@,
    ensures
        stem_files(stem + "."@ + ext) == (
            stem + ".mux.mix0.wav"@,
            stem + ".mux.game1.wav"@,
            stem + ".mux.mic2.wav"@,
        ),
{
    law_names_part_at_the_last_dot(stem, ext, 0);
}

} // verus!
