//! Audio strategies: lossless repackaging of `eac3` and `ac3`, and
//! re-encoding to `aac` with an optional stereo downmix.

use vstd::prelude::*;
use vstd::string::*;
use crate::context::OutputStreamView;
use crate::context::ProfileContext;
use crate::context::ProfileContextView;
use crate::error::NightfallError;
use crate::profiles::argument_texts;
use crate::profiles::segmented::input_stage_args;
use crate::profiles::segmented::push_output_stage;
use crate::profiles::segmented::push_string;
use crate::profiles::segmented::push_text;
use crate::profiles::segmented::segmented_arguments;
use crate::profiles::ProfileType;
use crate::profiles::StreamType;
use crate::profiles::TranscodingProfile;
use crate::text::decimal;
use crate::text::decimal_string;
use crate::text::is_text;
use crate::text::joined;

verus! {

/// Repackaging cannot change the codec: source and target must both be
/// `codec`.
pub open spec fn transmux_accepts(ctx: ProfileContextView, codec: Seq<char>) -> bool {
    ctx.input_ctx.codec == ctx.output_ctx.codec && ctx.input_ctx.codec == codec
}

/// The refusal of a repackaging strategy names the one codec it takes.
pub open spec fn transmux_refusal(codec: Seq<char>) -> Seq<char> {
    "Profile only supports "@ + codec + " input and output codecs."@
}

/// The codec choice of a repackaging strategy: copy the stream as it is.
pub open spec fn copy_stage() -> Seq<Seq<char>> {
    seq!["copy"@]
}

/// Arguments of a repackaging strategy.
pub open spec fn transmux_arguments(ctx: ProfileContextView) -> Seq<Seq<char>> {
    segmented_arguments(ctx, copy_stage())
}

/// The applicability check shared by the repackaging strategies.
pub fn transmux_supports(ctx: &ProfileContext, codec: &str) -> (r: Result<(), NightfallError>)
    ensures
        r is Ok <==> transmux_accepts(ctx@, codec@),
        r matches Err(e) ==> e.reason() == transmux_refusal(codec@),
{
    if ctx.input_ctx.codec == ctx.output_ctx.codec && is_text(&ctx.input_ctx.codec, codec) {
        return Ok(());
    }
    let head: String = joined("Profile only supports ", codec);
    Err(NightfallError::ProfileNotSupported(joined(head.as_str(), " input and output codecs.")))
}

/// The argument construction shared by the repackaging strategies.
pub fn transmux_build(ctx: &ProfileContext) -> (args: Vec<String>)
    ensures
        argument_texts(args@) == transmux_arguments(ctx@),
{
    let mut args: Vec<String> = input_stage_args(ctx);
    push_text(&mut args, "copy");
    push_output_stage(&mut args, ctx);
    assert(argument_texts(args@) =~= transmux_arguments(ctx@));
    args
}

/// Repackages an `eac3` stream without touching its samples.
#[derive(Debug)]
pub struct Eac3TransmuxProfile;

impl TranscodingProfile for Eac3TransmuxProfile {
    open spec fn classification(&self) -> ProfileType {
        ProfileType::Transmux
    }

    open spec fn medium(&self) -> StreamType {
        StreamType::Audio
    }

    open spec fn name_text(&self) -> Seq<char> {
        "Eac3TransmuxProfile"@
    }

    open spec fn tag_text(&self) -> Seq<char> {
        "eac3_copy"@
    }

    open spec fn accepts(&self, ctx: ProfileContextView) -> bool {
        transmux_accepts(ctx, "eac3"@)
    }

    open spec fn refusal(&self, ctx: ProfileContextView) -> Seq<char> {
        transmux_refusal("eac3"@)
    }

    open spec fn arguments(&self, ctx: ProfileContextView) -> Seq<Seq<char>> {
        transmux_arguments(ctx)
    }

    fn profile_type(&self) -> (r: ProfileType) {
        ProfileType::Transmux
    }

    fn stream_type(&self) -> (r: StreamType) {
        StreamType::Audio
    }

    fn name(&self) -> (r: &str) {
        "Eac3TransmuxProfile"
    }

    fn tag(&self) -> (r: &str) {
        "eac3_copy"
    }

    fn supports(&self, ctx: &ProfileContext) -> (r: Result<(), NightfallError>) {
        transmux_supports(ctx, "eac3")
    }

    fn build(&self, ctx: ProfileContext) -> (r: Option<Vec<String>>)
        ensures
            r is Some,
    {
        Some(transmux_build(&ctx))
    }
}

/// Repackages an `ac3` stream without touching its samples.
#[derive(Debug)]
pub struct Ac3TransmuxProfile;

impl TranscodingProfile for Ac3TransmuxProfile {
    open spec fn classification(&self) -> ProfileType {
        ProfileType::Transmux
    }

    open spec fn medium(&self) -> StreamType {
        StreamType::Audio
    }

    open spec fn name_text(&self) -> Seq<char> {
        "Ac3TransmuxProfile"@
    }

    open spec fn tag_text(&self) -> Seq<char> {
        "ac3_copy"@
    }

    open spec fn accepts(&self, ctx: ProfileContextView) -> bool {
        transmux_accepts(ctx, "ac3"@)
    }

    open spec fn refusal(&self, ctx: ProfileContextView) -> Seq<char> {
        transmux_refusal("ac3"@)
    }

    open spec fn arguments(&self, ctx: ProfileContextView) -> Seq<Seq<char>> {
        transmux_arguments(ctx)
    }

    fn profile_type(&self) -> (r: ProfileType) {
        ProfileType::Transmux
    }

    fn stream_type(&self) -> (r: StreamType) {
        StreamType::Audio
    }

    fn name(&self) -> (r: &str) {
        "Ac3TransmuxProfile"
    }

    fn tag(&self) -> (r: &str) {
        "ac3_copy"
    }

    fn supports(&self, ctx: &ProfileContext) -> (r: Result<(), NightfallError>) {
        transmux_supports(ctx, "ac3")
    }

    fn build(&self, ctx: ProfileContext) -> (r: Option<Vec<String>>)
        ensures
            r is Some,
    {
        Some(transmux_build(&ctx))
    }
}

/// The filter that folds a surround layout into stereo: centre and
/// low-frequency channels at half weight, front and rear at 0.707.
pub open spec fn stereo_downmix_filter() -> Seq<char> {
    "pan=stereo|FL=0.5*FC+0.707*FL+0.707*BL+0.5*LFE|FR=0.5*FC+0.707*FR+0.707*BR+0.5*LFE"@
}

/// Whether source and target disagree on the channel count.
pub open spec fn needs_downmix(ctx: ProfileContextView) -> bool {
    ctx.input_ctx.audio_channels != ctx.output_ctx.audio_channels
}

/// The filter arguments: present exactly when a downmix is needed.
pub open spec fn downmix_stage(ctx: ProfileContextView) -> Seq<Seq<char>> {
    if needs_downmix(ctx) {
        seq!["-af"@, stereo_downmix_filter()]
    } else {
        Seq::empty()
    }
}

/// The bit rate to encode at: the one asked for, else 120 000 bits per
/// second.
pub open spec fn target_bitrate(out: OutputStreamView) -> nat {
    match out.bitrate {
        Some(b) => b,
        None => 120_000,
    }
}

/// The codec choice of the re-encoding strategy: encoder, optional downmix,
/// bit rate.
pub open spec fn aac_stage(ctx: ProfileContextView) -> Seq<Seq<char>> {
    seq!["aac"@] + downmix_stage(ctx) + seq!["-ab"@, decimal(target_bitrate(ctx.output_ctx))]
}

/// The refusal of the re-encoding strategy: it names the one codec the
/// strategy produces and cites the codec that was asked for instead.
pub open spec fn aac_refusal(requested: Seq<char>) -> Seq<char> {
    "Profile only supports aac as output codec, not "@ + requested + "."@
}

/// Re-encodes any audio stream to `aac`.
#[derive(Debug)]
pub struct AacTranscodeProfile;

impl TranscodingProfile for AacTranscodeProfile {
    open spec fn classification(&self) -> ProfileType {
        ProfileType::Transcode
    }

    open spec fn medium(&self) -> StreamType {
        StreamType::Audio
    }

    open spec fn name_text(&self) -> Seq<char> {
        "AacTranscodeProfile"@
    }

    open spec fn tag_text(&self) -> Seq<char> {
        "aac"@
    }

    open spec fn accepts(&self, ctx: ProfileContextView) -> bool {
        ctx.output_ctx.codec == "aac"@
    }

    open spec fn refusal(&self, ctx: ProfileContextView) -> Seq<char> {
        aac_refusal(ctx.output_ctx.codec)
    }

    open spec fn arguments(&self, ctx: ProfileContextView) -> Seq<Seq<char>> {
        segmented_arguments(ctx, aac_stage(ctx))
    }

    fn profile_type(&self) -> (r: ProfileType) {
        ProfileType::Transcode
    }

    fn stream_type(&self) -> (r: StreamType) {
        StreamType::Audio
    }

    fn name(&self) -> (r: &str) {
        "AacTranscodeProfile"
    }

    fn tag(&self) -> (r: &str) {
        "aac"
    }

    fn supports(&self, ctx: &ProfileContext) -> (r: Result<(), NightfallError>) {
        if is_text(&ctx.output_ctx.codec, "aac") {
            return Ok(());
        }
        let head: String = joined(
            "Profile only supports aac as output codec, not ",
            ctx.output_ctx.codec.as_str(),
        );
        Err(NightfallError::ProfileNotSupported(joined(head.as_str(), ".")))
    }

    fn build(&self, ctx: ProfileContext) -> (r: Option<Vec<String>>)
        ensures
            r is Some,
    {
        let mut args: Vec<String> = input_stage_args(&ctx);
        push_text(&mut args, "aac");

        let same_channels: bool = match (ctx.input_ctx.audio_channels, ctx.output_ctx.audio_channels) {
            (Some(have), Some(want)) => have == want,
            (None, None) => true,
            _ => false,
        };
        if !same_channels {
            push_text(&mut args, "-af");
            push_text(
                &mut args,
                "pan=stereo|FL=0.5*FC+0.707*FL+0.707*BL+0.5*LFE|FR=0.5*FC+0.707*FR+0.707*BR+0.5*LFE",
            );
        }

        let rate: u64 = match ctx.output_ctx.bitrate {
            Some(b) => b,
            None => 120_000,
        };
        push_text(&mut args, "-ab");
        push_string(&mut args, decimal_string(rate));

        push_output_stage(&mut args, &ctx);
        assert(argument_texts(args@) =~= self.arguments(ctx@));
        Some(args)
    }
}

} // verus!
