//! The command line of the live video encoder.

use vstd::prelude::*;

use crate::decimal::{decimal, write_u32};
use crate::text::{ends, same_text, text_ends, texts};

verus! {

/// Appends one argument.
fn push_text(out: &mut Vec<String>, t: &str)
    ensures
        texts(final(out)@) == texts(old(out)@).push(t@),
{
    out.push(t.to_owned());
    assert(texts(out@) =~= texts(old(out)@).push(t@));
}

/// Appends a flag and its value.
fn push_flag(out: &mut Vec<String>, flag: &str, value: &str)
    ensures
        texts(final(out)@) == texts(old(out)@) + seq![flag@, value@],
{
    push_text(out, flag);
    push_text(out, value);
    assert(texts(out@) =~= texts(old(out)@) + seq![flag@, value@]);
}

/// The profile of the NVENC recipe: `main` for HEVC, `high` for all else.
pub open spec fn nvenc_profile(codec: Seq<char>) -> Seq<char> {
    if codec == "hevc"@ {
        "main"@
    } else {
        "high"@
    }
}

/// The codecs that the full-quality NVENC recipe is valid for.
pub open spec fn hq_codec(codec: Seq<char>) -> bool {
    codec == "h264"@ || codec == "hevc"@
}

/// The full-quality NVENC recipe.
pub open spec fn nvenc_hq_flags(codec: Seq<char>) -> Seq<Seq<char>> {
    seq![
        "-preset"@,
        "p7"@,
        "-tune"@,
        "hq"@,
        "-profile:v"@,
        nvenc_profile(codec),
        "-bf"@,
        "2"@,
        "-spatial-aq"@,
        "1"@,
        "-multipass"@,
        "disabled"@,
    ]
}

/// The flags that depend on the encoder; the full-quality recipe only where it is
/// valid.
pub open spec fn tuning_flags(enc: Seq<char>, codec: Seq<char>, nvenc_hq: bool) -> Seq<Seq<char>> {
    if ends(enc, "_nvenc"@) {
        (if nvenc_hq && hq_codec(codec) {
            nvenc_hq_flags(codec)
        } else {
            Seq::empty()
        }) + seq!["-rc"@, "cbr"@]
    } else if ends(enc, "_amf"@) {
        seq!["-rc"@, "cbr"@, "-quality"@, "quality"@]
    } else if ends(enc, "_qsv"@) {
        seq!["-preset"@, "fast"@]
    } else if enc == "libx264"@ {
        seq![
            "-preset"@,
            "veryfast"@,
            "-tune"@,
            "zerolatency"@,
            "-profile:v"@,
            "high"@,
            "-bf"@,
            "2"@,
        ]
    } else {
        Seq::empty()
    }
}

/// A bitrate as the encoder reads it.
pub open spec fn kilobits(kbps: u32) -> Seq<char> {
    decimal(kbps as nat) + "k"@
}

/// The frame rate that counts: at least one frame per second.
pub open spec fn counted_fps(fps: u32) -> nat {
    if fps < 1 {
        1
    } else {
        fps as nat
    }
}

/// The flags that every encoder gets: a constant rate and a key frame every two
/// seconds.
pub open spec fn rate_flags(bitrate_kbps: u32, fps: u32) -> Seq<Seq<char>> {
    seq![
        "-b:v"@,
        kilobits(bitrate_kbps),
        "-maxrate"@,
        kilobits(bitrate_kbps),
        "-bufsize"@,
        kilobits(bitrate_kbps),
        "-g"@,
        decimal(counted_fps(fps) * 2),
    ]
}

/// The arguments of the live encoder after `-c:v <encoder>`.
pub open spec fn encoder_flags(
    enc: Seq<char>,
    codec: Seq<char>,
    bitrate_kbps: u32,
    fps: u32,
    nvenc_hq: bool,
) -> Seq<Seq<char>> {
    tuning_flags(enc, codec, nvenc_hq) + rate_flags(bitrate_kbps, fps)
}

/// The arguments of the live encoder after `-c:v <encoder>`.
pub fn live_encoder_args(
    enc_name: &str,
    codec: &str,
    bitrate_kbps: u32,
    fps: u32,
    nvenc_hq: bool,
) -> (r: Vec<String>)
    requires
        counted_fps(fps) * 2 <= u32::MAX,
    ensures
        texts(r@) == encoder_flags(enc_name@, codec@, bitrate_kbps, fps, nvenc_hq),
{
    let mut out: Vec<String> = Vec::new();
    assert(texts(out@) =~= Seq::<Seq<char>>::empty());
    if text_ends(enc_name, "_nvenc") {
        if nvenc_hq && (same_text(codec, "h264") || same_text(codec, "hevc")) {
            push_flag(&mut out, "-preset", "p7");
            push_flag(&mut out, "-tune", "hq");
            push_flag(
                &mut out,
                "-profile:v",
                if same_text(codec, "hevc") {
                    "main"
                } else {
                    "high"
                },
            );
            push_flag(&mut out, "-bf", "2");
            push_flag(&mut out, "-spatial-aq", "1");
            push_flag(&mut out, "-multipass", "disabled");
            assert(texts(out@) =~= nvenc_hq_flags(codec@));
        }
        push_flag(&mut out, "-rc", "cbr");
    } else if text_ends(enc_name, "_amf") {
        push_flag(&mut out, "-rc", "cbr");
        push_flag(&mut out, "-quality", "quality");
    } else if text_ends(enc_name, "_qsv") {
        push_flag(&mut out, "-preset", "fast");
    } else if same_text(enc_name, "libx264") {
        push_flag(&mut out, "-preset", "veryfast");
        push_flag(&mut out, "-tune", "zerolatency");
        push_flag(&mut out, "-profile:v", "high");
        push_flag(&mut out, "-bf", "2");
    }
    assert(texts(out@) =~= tuning_flags(enc_name@, codec@, nvenc_hq));
    let counted: u32 = if fps < 1 {
        1
    } else {
        fps
    };
    let gop: String = write_u32(counted * 2);
    let mut rate: String = write_u32(bitrate_kbps);
    rate.append("k");
    push_flag(&mut out, "-b:v", rate.as_str());
    push_flag(&mut out, "-maxrate", rate.as_str());
    push_flag(&mut out, "-bufsize", rate.as_str());
    push_flag(&mut out, "-g", gop.as_str());
    assert(texts(out@) =~= encoder_flags(enc_name@, codec@, bitrate_kbps, fps, nvenc_hq));
    out
}

/// The filter graph: scaled to `out_height` where that is another height than
/// the source's, then paced and converted.
pub open spec fn filter_graph(source_height: u32, out_height: u32, fps: u32) -> Seq<char> {
    (if out_height > 0 && out_height != source_height {
        "scale=-2:"@ + decimal(out_height as nat) + ","@
    } else {
        Seq::empty()
    }) + "fps="@ + decimal(fps as nat) + ",format=yuv420p"@
}

/// The whole command line of the live encoder: raw frames in, MPEG-TS out.
pub open spec fn encoder_command(
    enc: Seq<char>,
    codec: Seq<char>,
    width: u32,
    height: u32,
    out_height: u32,
    bitrate_kbps: u32,
    fps: u32,
    nvenc_hq: bool,
) -> Seq<Seq<char>> {
    seq![
        "-hide_banner"@,
        "-loglevel"@,
        "error"@,
        "-thread_queue_size"@,
        "32"@,
        "-f"@,
        "rawvideo"@,
        "-pix_fmt"@,
        "bgra"@,
        "-s"@,
        decimal(width as nat) + "x"@ + decimal(height as nat),
        "-framerate"@,
        decimal(fps as nat),
        "-i"@,
        "pipe:0"@,
        "-an"@,
        "-vf"@,
        filter_graph(height, out_height, fps),
        "-c:v"@,
        enc,
    ] + encoder_flags(enc, codec, bitrate_kbps, fps, nvenc_hq) + seq!["-f"@, "mpegts"@, "pipe:1"@]
}

/// The whole command line of the live encoder.
pub fn video_encoder_args(
    enc_name: &str,
    codec: &str,
    width: u32,
    height: u32,
    out_height: u32,
    bitrate_kbps: u32,
    fps: u32,
    nvenc_hq: bool,
) -> (r: Vec<String>)
    requires
        counted_fps(fps) * 2 <= u32::MAX,
    ensures
        texts(r@) == encoder_command(
            enc_name@,
            codec@,
            width,
            height,
            out_height,
            bitrate_kbps,
            fps,
            nvenc_hq,
        ),
{
    let rate: String = write_u32(fps);
    let mut size: String = write_u32(width);
    size.append("x");
    size.append(write_u32(height).as_str());
    let mut vf: String = String::new();
    if out_height > 0 && out_height != height {
        vf.append("scale=-2:");
        vf.append(write_u32(out_height).as_str());
        vf.append(",");
        assert(vf@ =~= "scale=-2:"@ + decimal(out_height as nat) + ","@);
    }
    vf.append("fps=");
    vf.append(rate.as_str());
    vf.append(",format=yuv420p");
    assert(vf@ =~= filter_graph(height, out_height, fps));
    let mut out: Vec<String> = Vec::new();
    assert(texts(out@) =~= Seq::<Seq<char>>::empty());
    push_text(&mut out, "-hide_banner");
    push_flag(&mut out, "-loglevel", "error");
    push_flag(&mut out, "-thread_queue_size", "32");
    push_flag(&mut out, "-f", "rawvideo");
    push_flag(&mut out, "-pix_fmt", "bgra");
    push_flag(&mut out, "-s", size.as_str());
    push_flag(&mut out, "-framerate", rate.as_str());
    push_flag(&mut out, "-i", "pipe:0");
    push_text(&mut out, "-an");
    push_flag(&mut out, "-vf", vf.as_str());
    push_flag(&mut out, "-c:v", enc_name);
    let ghost head = texts(out@);
    let mut tuned: Vec<String> = live_encoder_args(enc_name, codec, bitrate_kbps, fps, nvenc_hq);
    let ghost flags = tuned@;
    let ghost before = out@;
    out.append(&mut tuned);
    assert(texts(out@) =~= head + texts(flags));
    push_flag(&mut out, "-f", "mpegts");
    push_text(&mut out, "pipe:1");
    assert(texts(out@) =~= encoder_command(
        enc_name@,
        codec@,
        width,
        height,
        out_height,
        bitrate_kbps,
        fps,
        nvenc_hq,
    ));
    out
}

/// Whatever the encoder, the command line asks for a constant rate with a key
/// frame every two seconds, and these come last among its flags.
pub proof fn law_every_encoder_is_paced(
    enc: Seq<char>,
    codec: Seq<char>,
    bitrate_kbps: u32,
    fps: u32,
    nvenc_hq: bool,
)
    ensures
        ({
            let flags = encoder_flags(enc, codec, bitrate_kbps, fps, nvenc_hq);
            let rate = decimal(bitrate_kbps as nat) + "k"@;
            let key_frames: nat = if fps == 0 {
                2
            } else {
                fps as nat + fps as nat
            };
            &&& flags.len() >= 8
            &&& flags.skip(flags.len() - 8) == seq![
                "-b:v"@,
                rate,
                "-maxrate"@,
                rate,
                "-bufsize"@,
                rate,
                "-g"@,
                decimal(key_frames),
            ]
        }),
{
    let flags = encoder_flags(enc, codec, bitrate_kbps, fps, nvenc_hq);
    assert(flags.skip(flags.len() - 8) =~= rate_flags(bitrate_kbps, fps));
}

/// The full-quality recipe makes a difference only where it is valid: on NVIDIA,
/// for H.264 and HEVC.
pub proof fn law_recipe_only_where_valid(
    enc: Seq<char>,
    codec: Seq<char>,
    bitrate_kbps: u32,
    fps: u32,
)
    requires
        !ends(enc, "_nvenc"@) || !hq_codec(codec),
    ensures
        encoder_flags(enc, codec, bitrate_kbps, fps, true) == encoder_flags(
            enc,
            codec,
            bitrate_kbps,
            fps,
            false,
        ),
{
}

/// What stands before the rate depends on the kind of encoder alone: NVENC runs at a
/// constant rate, behind the recipe where that is asked for and valid; AMF at a
/// constant rate for quality; QuickSync fast; x264 very fast and without latency;
/// any other gets nothing.
pub proof fn law_flags_of_each_encoder(
    maker: Seq<char>,
    codec: Seq<char>,
    bitrate_kbps: u32,
    fps: u32,
    nvenc_hq: bool,
)
    ensures
        ({
            let flags = |enc: Seq<char>| encoder_flags(enc, codec, bitrate_kbps, fps, nvenc_hq);
            let front = |enc: Seq<char>| flags(enc).take(flags(enc).len() - 8);
            let recipe = |profile: Seq<char>|
                seq![
                    "-preset"@,
                    "p7"@,
                    "-tune"@,
                    "hq"@,
                    "-profile:v"@,
                    profile,
                    "-bf"@,
                    "2"@,
                    "-spatial-aq"@,
                    "1"@,
                    "-multipass"@,
                    "disabled"@,
                    "-rc"@,
                    "cbr"@,
                ];
            &&& nvenc_hq && codec == "h264"@ ==> front(maker + "_nvenc"@) == recipe("high"@)
            &&& nvenc_hq && codec == "hevc"@ ==> front(maker + "_nvenc"@) == recipe("main"@)
            &&& !nvenc_hq || codec != "h264"@ && codec != "hevc"@ ==> front(maker + "_nvenc"@)
                == seq!["-rc"@, "cbr"@]
            &&& front(maker + "_amf"@) == seq!["-rc"@, "cbr"@, "-quality"@, "quality"@]
            &&& front(maker + "_qsv"@) == seq!["-preset"@, "fast"@]
            &&& front("libx264"@) == seq![
                "-preset"@,
                "veryfast"@,
                "-tune"@,
                "zerolatency"@,
                "-profile:v"@,
                "high"@,
                "-bf"@,
                "2"@,
            ]
            &&& maker != "libx264"@ && !ends(maker, "_nvenc"@) && !ends(maker, "_amf"@) && !ends(
                maker,
                "_qsv"@,
            ) ==> front(maker).len() == 0
        }),
{
    reveal_strlit("_nvenc");
    reveal_strlit("_amf");
    reveal_strlit("_qsv");
    reveal_strlit("libx264");
    reveal_strlit("hevc");
    reveal_strlit("h264");
    assert("hevc"@[0] != "h264"@[0] || "hevc"@[1] != "h264"@[1]);
    lemma_ends(maker, "_nvenc"@);
    lemma_ends(maker, "_amf"@);
    lemma_ends(maker, "_qsv"@);
    let amf = maker + "_amf"@;
    let qsv = maker + "_qsv"@;
    assert(amf[amf.len() - 1] == 'f' && qsv[qsv.len() - 1] == 'v');
    if ends(amf, "_nvenc"@) {
        assert(amf.skip(amf.len() - 6)[5] == 'c');
    }
    if ends(qsv, "_nvenc"@) {
        assert(qsv.skip(qsv.len() - 6)[5] == 'c');
    }
    if ends(qsv, "_amf"@) {
        assert(qsv.skip(qsv.len() - 4)[3] == 'f');
    }
    let x = "libx264"@;
    assert(x[6] == '4');
    if ends(x, "_nvenc"@) {
        assert(x.skip(x.len() - 6)[5] == 'c');
    }
    if ends(x, "_amf"@) {
        assert(x.skip(x.len() - 4)[3] == 'f');
    }
    if ends(x, "_qsv"@) {
        assert(x.skip(x.len() - 4)[3] == 'v');
    }
    let flags = |enc: Seq<char>| encoder_flags(enc, codec, bitrate_kbps, fps, nvenc_hq);
    let nvenc = maker + "_nvenc"@;
    assert(flags(nvenc).take(flags(nvenc).len() - 8) =~= tuning_flags(nvenc, codec, nvenc_hq));
    assert(flags(amf).take(flags(amf).len() - 8) =~= tuning_flags(amf, codec, nvenc_hq));
    assert(flags(qsv).take(flags(qsv).len() - 8) =~= tuning_flags(qsv, codec, nvenc_hq));
    assert(flags(x).take(flags(x).len() - 8) =~= tuning_flags(x, codec, nvenc_hq));
    assert(flags(maker).take(flags(maker).len() - 8) =~= tuning_flags(maker, codec, nvenc_hq));
}

proof fn lemma_ends(front: Seq<char>, tail: Seq<char>)
    ensures
        ends(front + tail, tail),
{
    assert((front + tail).skip((front + tail).len() - tail.len()) =~= tail);
}

/// The command line reads raw frames of the source's size at the given rate, scales
/// them only to a height that is asked for and that the source does not have, and
/// writes a transport stream; between stand the encoder and its flags.
pub proof fn law_command_line(
    enc: Seq<char>,
    codec: Seq<char>,
    width: u32,
    height: u32,
    out_height: u32,
    bitrate_kbps: u32,
    fps: u32,
    nvenc_hq: bool,
)
    ensures
        ({
            let c = encoder_command(
                enc,
                codec,
                width,
                height,
                out_height,
                bitrate_kbps,
                fps,
                nvenc_hq,
            );
            let pace = "fps="@ + decimal(fps as nat) + ",format=yuv420p"@;
            &&& c.len() >= 31
            &&& c.take(10) == seq![
                "-hide_banner"@,
                "-loglevel"@,
                "error"@,
                "-thread_queue_size"@,
                "32"@,
                "-f"@,
                "rawvideo"@,
                "-pix_fmt"@,
                "bgra"@,
                "-s"@,
            ]
            &&& c[10] == decimal(width as nat) + "x"@ + decimal(height as nat)
            &&& c[11] == "-framerate"@ && c[12] == decimal(fps as nat)
            &&& c[13] == "-i"@ && c[14] == "pipe:0"@ && c[15] == "-an"@ && c[16] == "-vf"@
            &&& out_height == 0 || out_height == height ==> c[17] == pace
            &&& out_height != 0 && out_height != height ==> c[17] == "scale=-2:"@ + decimal(
                out_height as nat,
            ) + ","@ + pace
            &&& c[18] == "-c:v"@ && c[19] == enc
            &&& c.subrange(20, c.len() - 3) == encoder_flags(enc, codec, bitrate_kbps, fps, nvenc_hq)
            &&& c.skip(c.len() - 3) == seq!["-f"@, "mpegts"@, "pipe:1"@]
        }),
{
    let c = encoder_command(enc, codec, width, height, out_height, bitrate_kbps, fps, nvenc_hq);
    let flags = encoder_flags(enc, codec, bitrate_kbps, fps, nvenc_hq);
    law_every_encoder_is_paced(enc, codec, bitrate_kbps, fps, nvenc_hq);
    let pace = "fps="@ + decimal(fps as nat) + ",format=yuv420p"@;
    assert(c.subrange(20, c.len() - 3) =~= flags);
    assert(c.skip(c.len() - 3) =~= seq!["-f"@, "mpegts"@, "pipe:1"@]);
    assert(c[17] == filter_graph(height, out_height, fps));
    if out_height == 0 || out_height == height {
        assert(c[17] =~= pace);
    } else {
        assert(c[17] =~= "scale=-2:"@ + decimal(out_height as nat) + ","@ + pace);
    }
}

} // verus!
