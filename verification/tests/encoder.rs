use moonlit::encoder::{live_encoder_args, video_encoder_args};

#[test]
fn nvenc_hq_flags() {
    let a = live_encoder_args("h264_nvenc", "h264", 20000, 60, true);
    let s = a.join(" ");
    assert!(s.contains("-preset p7"), "{s}");
    assert!(s.contains("-tune hq"), "{s}");
    assert!(s.contains("-profile:v high"), "{s}");
    assert!(s.contains("-spatial-aq 1"), "{s}");
    assert!(s.contains("-multipass disabled"), "{s}");
    assert!(s.contains("-rc cbr"), "{s}");
    assert!(s.contains("-g 120"), "{s}");
}

#[test]
fn nvenc_plain_no_hq() {
    // e.g. AV1 on NVIDIA: ladder + CBR, backend defaults otherwise.
    let a = live_encoder_args("av1_nvenc", "av1", 8000, 60, false);
    let s = a.join(" ");
    assert!(!s.contains("-preset"), "{s}");
    assert!(s.contains("-rc cbr"), "{s}");
}

#[test]
fn x264_and_qsv_shapes() {
    let x = live_encoder_args("libx264", "x264", 20000, 30, false).join(" ");
    assert!(x.contains("-preset veryfast"), "{x}");
    assert!(x.contains("zerolatency"), "{x}");
    assert!(x.contains("-g 60"), "{x}");
    let q = live_encoder_args("h264_qsv", "h264", 20000, 60, false).join(" ");
    assert!(q.contains("-preset fast"), "{q}");
}

#[test]
fn whole_flag_rows() {
    assert_eq!(
        live_encoder_args("hevc_nvenc", "hevc", 12000, 30, true).join(" "),
        "-preset p7 -tune hq -profile:v main -bf 2 -spatial-aq 1 -multipass disabled -rc cbr \
         -b:v 12000k -maxrate 12000k -bufsize 12000k -g 60"
    );
    // The recipe is not valid for AV1, whatever is asked for.
    assert_eq!(
        live_encoder_args("av1_nvenc", "av1", 8000, 60, true).join(" "),
        "-rc cbr -b:v 8000k -maxrate 8000k -bufsize 8000k -g 120"
    );
    assert_eq!(
        live_encoder_args("h264_amf", "h264", 1, 0, true).join(" "),
        "-rc cbr -quality quality -b:v 1k -maxrate 1k -bufsize 1k -g 2"
    );
    assert_eq!(
        live_encoder_args("mystery", "h264", 4294967295, 60, true).join(" "),
        "-b:v 4294967295k -maxrate 4294967295k -bufsize 4294967295k -g 120"
    );
}

#[test]
fn command_line_scales_only_when_asked() {
    let plain = video_encoder_args("libx264", "x264", 2560, 1440, 0, 20000, 60, false).join(" ");
    assert_eq!(
        plain,
        "-hide_banner -loglevel error -thread_queue_size 32 -f rawvideo -pix_fmt bgra \
         -s 2560x1440 -framerate 60 -i pipe:0 -an -vf fps=60,format=yuv420p -c:v libx264 \
         -preset veryfast -tune zerolatency -profile:v high -bf 2 \
         -b:v 20000k -maxrate 20000k -bufsize 20000k -g 120 -f mpegts pipe:1"
    );
    let same = video_encoder_args("libx264", "x264", 2560, 1440, 1440, 20000, 60, false).join(" ");
    assert_eq!(plain, same);
    let scaled = video_encoder_args("h264_qsv", "h264", 2560, 1440, 720, 20000, 30, false).join(" ");
    assert!(scaled.contains("-vf scale=-2:720,fps=30,format=yuv420p "), "{scaled}");
}
