use nightfall::context::InputStreamContext;
use nightfall::context::OutputStreamContext;
use nightfall::context::ProfileContext;
use nightfall::error::NightfallError;
use nightfall::profiles::audio::AacTranscodeProfile;
use nightfall::profiles::audio::Ac3TransmuxProfile;
use nightfall::profiles::audio::Eac3TransmuxProfile;
use nightfall::profiles::thumbnail::ThumbnailProfile;
use nightfall::profiles::ProfileType;
use nightfall::profiles::StreamType;
use nightfall::profiles::TranscodingProfile;

const DISCONTINUOUS: &str = "movflags=frag_custom+dash+delay_moov+frag_discont";
const CONTINUOUS: &str = "movflags=frag_custom+dash+delay_moov";
const DOWNMIX: &str =
    "pan=stereo|FL=0.5*FC+0.707*FL+0.707*BL+0.5*LFE|FR=0.5*FC+0.707*FR+0.707*BR+0.5*LFE";

fn request(input_codec: &str, output_codec: &str) -> ProfileContext {
    ProfileContext {
        file: "/media/movie.mkv".to_string(),
        input_ctx: InputStreamContext {
            file: "/media/movie.mkv".to_string(),
            stream: 1,
            codec: input_codec.to_string(),
            audio_channels: Some(2),
        },
        output_ctx: OutputStreamContext {
            outdir: "/tmp/x".to_string(),
            start_num: 0,
            target_gop: 5,
            codec: output_codec.to_string(),
            audio_channels: Some(2),
            bitrate: None,
            width: None,
            height: None,
        },
    }
}

fn owned(items: &[&str]) -> Vec<String> {
    items.iter().map(|s| s.to_string()).collect()
}

fn reason(r: Result<(), NightfallError>) -> String {
    match r {
        Ok(()) => panic!("the request was accepted"),
        Err(e) => e.message(),
    }
}

fn position(args: &[String], text: &str) -> usize {
    match args.iter().position(|a| a == text) {
        Some(i) => i,
        None => panic!("{} is missing", text),
    }
}

#[test]
fn metadata_of_every_profile() {
    assert_eq!(Eac3TransmuxProfile.profile_type(), ProfileType::Transmux);
    assert_eq!(Eac3TransmuxProfile.stream_type(), StreamType::Audio);
    assert_eq!(Eac3TransmuxProfile.name(), "Eac3TransmuxProfile");
    assert_eq!(Eac3TransmuxProfile.tag(), "eac3_copy");

    assert_eq!(Ac3TransmuxProfile.profile_type(), ProfileType::Transmux);
    assert_eq!(Ac3TransmuxProfile.stream_type(), StreamType::Audio);
    assert_eq!(Ac3TransmuxProfile.name(), "Ac3TransmuxProfile");
    assert_eq!(Ac3TransmuxProfile.tag(), "ac3_copy");

    assert_eq!(AacTranscodeProfile.profile_type(), ProfileType::Transcode);
    assert_eq!(AacTranscodeProfile.stream_type(), StreamType::Audio);
    assert_eq!(AacTranscodeProfile.name(), "AacTranscodeProfile");
    assert_eq!(AacTranscodeProfile.tag(), "aac");

    assert_eq!(ThumbnailProfile.profile_type(), ProfileType::Transcode);
    assert_eq!(ThumbnailProfile.stream_type(), StreamType::Thumbnail);
    assert_eq!(ThumbnailProfile.name(), "ThumbnailProfile");
    assert_eq!(ThumbnailProfile.tag(), "jpg");
}

#[test]
fn eac3_request_goes_to_the_eac3_profile_only() {
    let ctx = request("eac3", "eac3");
    assert_eq!(Eac3TransmuxProfile.supports(&ctx), Ok(()));
    assert!(Ac3TransmuxProfile.supports(&ctx).is_err());
}

#[test]
fn ac3_request_goes_to_the_ac3_profile_only() {
    let ctx = request("ac3", "ac3");
    assert_eq!(Ac3TransmuxProfile.supports(&ctx), Ok(()));
    assert!(Eac3TransmuxProfile.supports(&ctx).is_err());
}

#[test]
fn transmux_refuses_a_codec_change_and_names_its_codec() {
    let ctx = request("eac3", "aac");
    assert_eq!(
        Eac3TransmuxProfile.supports(&ctx),
        Err(NightfallError::ProfileNotSupported(
            "Profile only supports eac3 input and output codecs.".to_string()
        ))
    );
    let ctx = request("aac", "ac3");
    assert_eq!(
        reason(Ac3TransmuxProfile.supports(&ctx)),
        "Profile only supports ac3 input and output codecs."
    );
    let ctx = request("aac", "aac");
    assert!(Eac3TransmuxProfile.supports(&ctx).is_err());
    assert!(Ac3TransmuxProfile.supports(&ctx).is_err());
}

#[test]
fn supports_gives_the_same_answer_each_time() {
    let ctx = request("ac3", "eac3");
    assert_eq!(Eac3TransmuxProfile.supports(&ctx), Eac3TransmuxProfile.supports(&ctx));
    let ctx = request("eac3", "eac3");
    assert_eq!(Eac3TransmuxProfile.supports(&ctx), Eac3TransmuxProfile.supports(&ctx));
}

#[test]
fn aac_looks_at_the_output_codec_alone() {
    for input in ["aac", "ac3", "eac3", "flac", ""] {
        assert_eq!(AacTranscodeProfile.supports(&request(input, "aac")), Ok(()));
        assert_eq!(
            reason(AacTranscodeProfile.supports(&request(input, "ac3"))),
            "Profile only supports aac as output codec, not ac3."
        );
    }
    assert!(AacTranscodeProfile.supports(&request("aac", "AAC")).is_err());
    assert!(AacTranscodeProfile.supports(&request("aac", "aac ")).is_err());
}

#[test]
fn aac_refusal_cites_the_codec_asked_for() {
    assert_eq!(
        AacTranscodeProfile.supports(&request("aac", "opus")),
        Err(NightfallError::ProfileNotSupported(
            "Profile only supports aac as output codec, not opus.".to_string()
        ))
    );
    assert_eq!(
        reason(AacTranscodeProfile.supports(&request("aac", ""))),
        "Profile only supports aac as output codec, not ."
    );
}

#[test]
fn a_profile_that_accepts_also_builds() {
    let ctx = request("eac3", "eac3");
    assert!(Eac3TransmuxProfile.supports(&ctx).is_ok());
    assert!(Eac3TransmuxProfile.build(ctx).is_some());
    let ctx = request("ac3", "aac");
    assert!(AacTranscodeProfile.supports(&ctx).is_ok());
    assert!(AacTranscodeProfile.build(ctx).is_some());
    let ctx = request("h264", "jpg");
    assert!(ThumbnailProfile.supports(&ctx).is_ok());
    assert!(ThumbnailProfile.build(ctx).is_some());
}

#[test]
fn aac_accepts_a_sizing_request_that_thumbnails_refuse() {
    let mut ctx = request("ac3", "aac");
    ctx.output_ctx.width = Some(1280);
    ctx.output_ctx.height = Some(720);
    assert_eq!(AacTranscodeProfile.supports(&ctx), Ok(()));
    ctx.output_ctx.codec = "jpg".to_string();
    assert!(ThumbnailProfile.supports(&ctx).is_err());
}

#[test]
fn thumbnail_accepts_jpg_without_sizing() {
    assert_eq!(ThumbnailProfile.supports(&request("h264", "jpg")), Ok(()));
}

#[test]
fn thumbnail_refuses_any_sizing_whatever_the_codec() {
    let text = "Thumbnails have a fixed size: height, width and bitrate cannot be requested.";
    for codec in ["jpg", "png"] {
        let mut ctx = request("h264", codec);
        ctx.output_ctx.height = Some(90);
        assert_eq!(reason(ThumbnailProfile.supports(&ctx)), text);

        let mut ctx = request("h264", codec);
        ctx.output_ctx.width = Some(160);
        assert_eq!(reason(ThumbnailProfile.supports(&ctx)), text);

        let mut ctx = request("h264", codec);
        ctx.output_ctx.bitrate = Some(1_000);
        assert_eq!(reason(ThumbnailProfile.supports(&ctx)), text);
    }
}

#[test]
fn thumbnail_refuses_other_codecs_citing_the_source_codec() {
    assert_eq!(
        reason(ThumbnailProfile.supports(&request("h264", "png"))),
        "Codec h264 not supported."
    );
    assert_eq!(
        reason(ThumbnailProfile.supports(&request("", "aac"))),
        "Codec  not supported."
    );
}

#[test]
fn transmux_arguments_from_the_first_segment() {
    let expected = owned(&[
        "-y",
        "-ss",
        "0",
        "-i",
        "/media/movie.mkv",
        "-copyts",
        "-map",
        "0:1",
        "-c:0",
        "copy",
        "-start_at_zero",
        "-fps_mode",
        "auto",
        "-avoid_negative_ts",
        "make_non_negative",
        "-f",
        "hls",
        "-hls_playlist_type",
        "event",
        "-start_number",
        "0",
        "-hls_flags",
        "temp_file+append_list",
        "-max_delay",
        "5000000",
        "-hls_segment_options",
        CONTINUOUS,
        "-hls_fmp4_init_filename",
        "0_init.mp4",
        "-hls_time",
        "5",
        "-force_key_frames",
        "expr:gte(t,n_forced*5)",
        "-hls_segment_type",
        "fmp4",
        "-loglevel",
        "info",
        "-progress",
        "pipe:1",
        "-hls_segment_filename",
        "/tmp/x/%d.m4s",
        "/tmp/x/playlist.m3u8",
    ]);
    assert_eq!(Eac3TransmuxProfile.build(request("eac3", "eac3")), Some(expected.clone()));
    assert_eq!(Ac3TransmuxProfile.build(request("ac3", "ac3")), Some(expected));
}

#[test]
fn ac3_resumed_at_the_fourth_segment() {
    let mut ctx = request("ac3", "ac3");
    ctx.output_ctx.start_num = 3;
    ctx.output_ctx.target_gop = 6;
    assert_eq!(Ac3TransmuxProfile.supports(&ctx), Ok(()));
    let args = Ac3TransmuxProfile.build(ctx).unwrap();

    assert_eq!(args[position(&args, "-ss") + 1], "18");
    assert_eq!(args[position(&args, "-map") + 1], "0:1");
    assert_eq!(args[position(&args, "-c:0") + 1], "copy");
    assert_eq!(args[position(&args, "-start_number") + 1], "3");
    assert_eq!(args[position(&args, "-hls_segment_options") + 1], DISCONTINUOUS);
    assert!(!args.iter().any(|a| a == CONTINUOUS));
    assert_eq!(args[position(&args, "-hls_fmp4_init_filename") + 1], "3_init.mp4");
    assert_eq!(args[position(&args, "-hls_time") + 1], "6");
    assert_eq!(args[position(&args, "-force_key_frames") + 1], "expr:gte(t,n_forced*6)");
    assert_eq!(args[position(&args, "-hls_segment_filename") + 1], "/tmp/x/%d.m4s");
    assert_eq!(args[args.len() - 1], "/tmp/x/playlist.m3u8");
    assert_eq!(args.len(), 42);
}

#[test]
fn seek_is_segment_number_times_segment_length() {
    for (n, g, seek) in [
        (0u32, 5u32, "0"),
        (1, 1, "1"),
        (7, 10, "70"),
        (12, 3, "36"),
        (4_294_967_295, 4_294_967_295, "18446744065119617025"),
    ] {
        for aac in [false, true] {
            let mut ctx = request("eac3", if aac { "aac" } else { "eac3" });
            ctx.output_ctx.start_num = n;
            ctx.output_ctx.target_gop = g;
            let args = if aac {
                AacTranscodeProfile.build(ctx).unwrap()
            } else {
                Eac3TransmuxProfile.build(ctx).unwrap()
            };
            assert_eq!(args[1], "-ss");
            assert_eq!(args[2], seek);
        }
    }
}

#[test]
fn segment_options_tell_a_resumed_stream_apart() {
    for n in [0u32, 1, 2, 500] {
        let mut ctx = request("eac3", "eac3");
        ctx.output_ctx.start_num = n;
        let copy = Eac3TransmuxProfile.build(ctx.clone()).unwrap();
        ctx.output_ctx.codec = "aac".to_string();
        let aac = AacTranscodeProfile.build(ctx).unwrap();
        for args in [copy, aac] {
            let resumed = args.iter().any(|a| a == DISCONTINUOUS);
            let fresh = args.iter().any(|a| a == CONTINUOUS);
            assert_eq!(resumed, n > 0);
            assert_eq!(fresh, n == 0);
        }
    }
}

#[test]
fn aac_arguments_without_downmix_at_the_default_bit_rate() {
    let expected = owned(&[
        "-y",
        "-ss",
        "0",
        "-i",
        "/media/movie.mkv",
        "-copyts",
        "-map",
        "0:1",
        "-c:0",
        "aac",
        "-ab",
        "120000",
        "-start_at_zero",
        "-fps_mode",
        "auto",
        "-avoid_negative_ts",
        "make_non_negative",
        "-f",
        "hls",
        "-hls_playlist_type",
        "event",
        "-start_number",
        "0",
        "-hls_flags",
        "temp_file+append_list",
        "-max_delay",
        "5000000",
        "-hls_segment_options",
        CONTINUOUS,
        "-hls_fmp4_init_filename",
        "0_init.mp4",
        "-hls_time",
        "5",
        "-force_key_frames",
        "expr:gte(t,n_forced*5)",
        "-hls_segment_type",
        "fmp4",
        "-loglevel",
        "info",
        "-progress",
        "pipe:1",
        "-hls_segment_filename",
        "/tmp/x/%d.m4s",
        "/tmp/x/playlist.m3u8",
    ]);
    assert_eq!(AacTranscodeProfile.build(request("ac3", "aac")), Some(expected));
}

#[test]
fn aac_downmixes_when_channel_counts_differ() {
    let mut ctx = request("ac3", "aac");
    ctx.input_ctx.audio_channels = Some(6);
    ctx.input_ctx.stream = 2;
    ctx.output_ctx.bitrate = Some(192_000);
    ctx.output_ctx.start_num = 2;
    ctx.output_ctx.target_gop = 4;
    let args = AacTranscodeProfile.build(ctx).unwrap();
    assert_eq!(
        args[..14].to_vec(),
        owned(&[
            "-y",
            "-ss",
            "8",
            "-i",
            "/media/movie.mkv",
            "-copyts",
            "-map",
            "0:2",
            "-c:0",
            "aac",
            "-af",
            DOWNMIX,
            "-ab",
            "192000",
        ])
    );
    assert_eq!(args.len(), 46);
    assert_eq!(args[14], "-start_at_zero");
    assert_eq!(args[position(&args, "-hls_segment_options") + 1], DISCONTINUOUS);
    assert_eq!(args[position(&args, "-hls_fmp4_init_filename") + 1], "2_init.mp4");
}

#[test]
fn aac_downmix_follows_the_channel_counts() {
    for (have, want, mixed) in [
        (Some(2u64), Some(2u64), false),
        (Some(6), Some(6), false),
        (None, None, false),
        (Some(6), Some(2), true),
        (Some(1), Some(2), true),
        (Some(2), None, true),
        (None, Some(2), true),
    ] {
        let mut ctx = request("ac3", "aac");
        ctx.input_ctx.audio_channels = have;
        ctx.output_ctx.audio_channels = want;
        let args = AacTranscodeProfile.build(ctx).unwrap();
        assert_eq!(args.iter().any(|a| a == DOWNMIX), mixed);
        assert_eq!(args.iter().any(|a| a == "-af"), mixed);
        assert_eq!(args[10], if mixed { "-af" } else { "-ab" });
    }
}

#[test]
fn thumbnail_arguments() {
    let expected = owned(&[
        "-y",
        "-skip_frame",
        "nokey",
        "-i",
        "/media/movie.mkv",
        "-vf",
        "fps=1/2,scale=min(320\\,iw):ow/dar,tile=8x6",
        "-c:v",
        "mjpeg",
        "-fps_mode",
        "passthrough",
        "-qscale:v",
        "2",
        "/tmp/x/%010d.jpg",
    ]);
    assert_eq!(ThumbnailProfile.build(request("h264", "jpg")), Some(expected));
}

#[test]
fn build_gives_the_same_arguments_each_time() {
    let mut ctx = request("ac3", "aac");
    ctx.input_ctx.audio_channels = Some(6);
    ctx.output_ctx.start_num = 9;
    assert_eq!(
        AacTranscodeProfile.build(ctx.clone()),
        AacTranscodeProfile.build(ctx.clone())
    );
    assert_eq!(Eac3TransmuxProfile.build(ctx.clone()), Ac3TransmuxProfile.build(ctx.clone()));
    assert_eq!(ThumbnailProfile.build(ctx.clone()), ThumbnailProfile.build(ctx));
}

#[test]
fn build_uses_the_resolved_path_and_keeps_unicode() {
    let mut ctx = request("eac3", "eac3");
    ctx.file = "/srv/фильм 1.mkv".to_string();
    ctx.output_ctx.outdir = "/tmp/ö".to_string();
    let args = Eac3TransmuxProfile.build(ctx).unwrap();
    assert_eq!(args[4], "/srv/фильм 1.mkv");
    assert_eq!(args[40], "/tmp/ö/%d.m4s");
    assert_eq!(args[41], "/tmp/ö/playlist.m3u8");
}

#[test]
fn a_path_may_look_like_the_segment_options() {
    let mut ctx = request("eac3", "eac3");
    ctx.file = CONTINUOUS.to_string();
    ctx.output_ctx.start_num = 1;
    let args = Eac3TransmuxProfile.build(ctx).unwrap();
    assert_eq!(args[4], CONTINUOUS);
    assert_eq!(args[26], DISCONTINUOUS);
}

#[test]
fn output_request_invariant() {
    let mut ctx = request("eac3", "eac3");
    assert!(ctx.output_ctx.is_well_formed());
    ctx.output_ctx.target_gop = 0;
    assert!(!ctx.output_ctx.is_well_formed());
}
