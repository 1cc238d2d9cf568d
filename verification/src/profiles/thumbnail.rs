//! Tile sheets of thumbnails sampled from the key frames of a video.

use vstd::prelude::*;
use vstd::string::*;
use crate::context::OutputStreamView;
use crate::context::ProfileContext;
use crate::context::ProfileContextView;
use crate::error::NightfallError;
use crate::profiles::argument_texts;
use crate::profiles::segmented::push_string;
use crate::profiles::segmented::push_text;
use crate::profiles::ProfileType;
use crate::profiles::StreamType;
use crate::profiles::TranscodingProfile;
use crate::text::is_text;
use crate::text::joined;

verus! {

/// Whether the request asks for a size or a bit rate, which a tile sheet of
/// fixed geometry cannot honour.
pub open spec fn asks_for_sizing(out: OutputStreamView) -> bool {
    out.height is Some || out.width is Some || out.bitrate is Some
}

/// The filter chain: one frame every two seconds, at most 320 pixels wide
/// with the aspect ratio kept, laid out eight by six.
pub open spec fn tile_filter() -> Seq<char> {
    "fps=1/2,scale=min(320\\,iw):ow/dar,tile=8x6"@
}

/// File name pattern of the tile sheets: a counter of ten digits.
pub open spec fn sheet_pattern(out: OutputStreamView) -> Seq<char> {
    out.outdir + "/%010d.jpg"@
}

/// The refusal of a request that sets a height, a width or a bit rate.
pub open spec fn sizing_refusal() -> Seq<char> {
    "Thumbnails have a fixed size: height, width and bitrate cannot be requested."@
}

/// The refusal that names the source codec.
pub open spec fn codec_refusal(codec: Seq<char>) -> Seq<char> {
    "Codec "@ + codec + " not supported."@
}

/// Samples key frames into JPEG tile sheets.
#[derive(Debug)]
pub struct ThumbnailProfile;

impl TranscodingProfile for ThumbnailProfile {
    open spec fn classification(&self) -> ProfileType {
        ProfileType::Transcode
    }

    open spec fn medium(&self) -> StreamType {
        StreamType::Thumbnail
    }

    open spec fn name_text(&self) -> Seq<char> {
        "ThumbnailProfile"@
    }

    open spec fn tag_text(&self) -> Seq<char> {
        "jpg"@
    }

    open spec fn accepts(&self, ctx: ProfileContextView) -> bool {
        !asks_for_sizing(ctx.output_ctx) && ctx.output_ctx.codec == "jpg"@
    }

    open spec fn refusal(&self, ctx: ProfileContextView) -> Seq<char> {
        if asks_for_sizing(ctx.output_ctx) {
            sizing_refusal()
        } else {
            codec_refusal(ctx.input_ctx.codec)
        }
    }

    open spec fn arguments(&self, ctx: ProfileContextView) -> Seq<Seq<char>> {
        seq![
            "-y"@,
            "-skip_frame"@,
            "nokey"@,
            "-i"@,
            ctx.file,
            "-vf"@,
            tile_filter(),
            "-c:v"@,
            "mjpeg"@,
            "-fps_mode"@,
            "passthrough"@,
            "-qscale:v"@,
            "2"@,
            sheet_pattern(ctx.output_ctx),
        ]
    }

    fn profile_type(&self) -> (r: ProfileType) {
        ProfileType::Transcode
    }

    fn stream_type(&self) -> (r: StreamType) {
        StreamType::Thumbnail
    }

    fn name(&self) -> (r: &str) {
        "ThumbnailProfile"
    }

    fn tag(&self) -> (r: &str) {
        "jpg"
    }

    fn supports(&self, ctx: &ProfileContext) -> (r: Result<(), NightfallError>) {
        if ctx.output_ctx.height.is_some() || ctx.output_ctx.width.is_some()
            || ctx.output_ctx.bitrate.is_some() {
            return Err(
                NightfallError::ProfileNotSupported(
                    String::from_str(
                        "Thumbnails have a fixed size: height, width and bitrate cannot be requested.",
                    ),
                ),
            );
        }
        if is_text(&ctx.output_ctx.codec, "jpg") {
            return Ok(());
        }
        let head: String = joined("Codec ", ctx.input_ctx.codec.as_str());
        Err(NightfallError::ProfileNotSupported(joined(head.as_str(), " not supported.")))
    }

    fn build(&self, ctx: ProfileContext) -> (r: Option<Vec<String>>)
        ensures
            r is Some,
    {
        let sheets: String = joined(ctx.output_ctx.outdir.as_str(), "/%010d.jpg");
        let mut args: Vec<String> = Vec::new();
        assert(argument_texts(args@) =~= Seq::<Seq<char>>::empty());
        push_text(&mut args, "-y");
        push_text(&mut args, "-skip_frame");
        push_text(&mut args, "nokey");
        push_text(&mut args, "-i");
        push_string(&mut args, ctx.file);
        push_text(&mut args, "-vf");
        push_text(&mut args, "fps=1/2,scale=min(320\\,iw):ow/dar,tile=8x6");
        push_text(&mut args, "-c:v");
        push_text(&mut args, "mjpeg");
        push_text(&mut args, "-fps_mode");
        push_text(&mut args, "passthrough");
        push_text(&mut args, "-qscale:v");
        push_text(&mut args, "2");
        push_string(&mut args, sheets);
        Some(args)
    }
}

} // verus!
