//! What holds of the strategies for every request.

use vstd::prelude::*;
use crate::context::ProfileContext;
use crate::context::ProfileContextView;
use crate::error::NightfallError;
use crate::profiles::argument_texts;
use crate::profiles::audio::aac_refusal;
use crate::profiles::audio::aac_stage;
use crate::profiles::audio::copy_stage;
use crate::profiles::audio::needs_downmix;
use crate::profiles::audio::stereo_downmix_filter;
use crate::profiles::audio::target_bitrate;
use crate::profiles::audio::transmux_accepts;
use crate::profiles::audio::transmux_refusal;
use crate::profiles::audio::AacTranscodeProfile;
use crate::profiles::audio::Ac3TransmuxProfile;
use crate::profiles::audio::Eac3TransmuxProfile;
use crate::profiles::segmented::continuous_options;
use crate::profiles::segmented::discontinuous_options;
use crate::profiles::segmented::lemma_seek_argument;
use crate::profiles::segmented::lemma_segment_options_shape;
use crate::profiles::segmented::lemma_segmented_layout;
use crate::profiles::segmented::lemma_standalone_occurrence;
use crate::profiles::segmented::standalone_text;
use crate::profiles::thumbnail::asks_for_sizing;
use crate::profiles::thumbnail::codec_refusal;
use crate::profiles::thumbnail::sizing_refusal;
use crate::profiles::thumbnail::ThumbnailProfile;
use crate::profiles::TranscodingProfile;
use crate::text::decimal;
use crate::text::lemma_decimal_head;

verus! {

/// A request that keeps the codec `eac3` is served by the `eac3` strategy and
/// refused by the `ac3` strategy; one that keeps `ac3`, the other way round.
pub proof fn lemma_transmux_codecs_exclusive(ctx: ProfileContextView)
    ensures
        ctx.input_ctx.codec == "eac3"@ && ctx.output_ctx.codec == "eac3"@
            ==> Eac3TransmuxProfile.accepts(ctx) && !Ac3TransmuxProfile.accepts(ctx),
        ctx.input_ctx.codec == "ac3"@ && ctx.output_ctx.codec == "ac3"@
            ==> Ac3TransmuxProfile.accepts(ctx) && !Eac3TransmuxProfile.accepts(ctx),
{
    reveal_strlit("eac3");
    reveal_strlit("ac3");
    assert("eac3"@.len() == 4);
    assert("ac3"@.len() == 3);
}

/// A repackaging strategy refuses every request whose source and target
/// codecs differ, and its refusal spells out the codec it takes.
pub proof fn lemma_transmux_refuses_mismatch(ctx: ProfileContextView, codec: Seq<char>)
    requires
        ctx.input_ctx.codec != ctx.output_ctx.codec,
    ensures
        !transmux_accepts(ctx, codec),
        transmux_refusal(codec).subrange(22, 22 + codec.len() as int) == codec,
        !Eac3TransmuxProfile.accepts(ctx),
        !Ac3TransmuxProfile.accepts(ctx),
        Eac3TransmuxProfile.refusal(ctx) == "Profile only supports eac3 input and output codecs."@,
        Ac3TransmuxProfile.refusal(ctx) == "Profile only supports ac3 input and output codecs."@,
{
    reveal_strlit("Profile only supports ");
    reveal_strlit(" input and output codecs.");
    reveal_strlit("eac3");
    reveal_strlit("ac3");
    reveal_strlit("Profile only supports eac3 input and output codecs.");
    reveal_strlit("Profile only supports ac3 input and output codecs.");
    assert(transmux_refusal(codec).subrange(22, 22 + codec.len() as int) =~= codec);
    assert(transmux_refusal("eac3"@) =~= "Profile only supports eac3 input and output codecs."@);
    assert(transmux_refusal("ac3"@) =~= "Profile only supports ac3 input and output codecs."@);
}

/// The re-encoding strategy looks at the target codec alone: it serves a
/// request exactly when that codec is `aac`, whatever the source is and
/// whatever size or bit rate is asked for.
pub proof fn lemma_aac_accepts_by_target(a: ProfileContextView, b: ProfileContextView)
    ensures
        AacTranscodeProfile.accepts(a) <==> a.output_ctx.codec == "aac"@,
        a.output_ctx.codec == b.output_ctx.codec ==> (AacTranscodeProfile.accepts(a)
            <==> AacTranscodeProfile.accepts(b)),
{
}

/// The re-encoding strategy refuses every request for another target codec,
/// and its refusal spells out both the codec it produces and the one that
/// was asked for.
pub proof fn lemma_aac_refusal_names_codecs(ctx: ProfileContextView)
    requires
        ctx.output_ctx.codec != "aac"@,
    ensures
        !AacTranscodeProfile.accepts(ctx),
        AacTranscodeProfile.refusal(ctx) == aac_refusal(ctx.output_ctx.codec),
        aac_refusal(ctx.output_ctx.codec).subrange(22, 25) == "aac"@,
        aac_refusal(ctx.output_ctx.codec).subrange(47, 47 + ctx.output_ctx.codec.len() as int)
            == ctx.output_ctx.codec,
        aac_refusal("ac3"@) == "Profile only supports aac as output codec, not ac3."@,
{
    reveal_strlit("Profile only supports aac as output codec, not ");
    reveal_strlit(".");
    reveal_strlit("aac");
    reveal_strlit("ac3");
    reveal_strlit("Profile only supports aac as output codec, not ac3.");
    let codec = ctx.output_ctx.codec;
    assert(aac_refusal(codec).subrange(22, 25) =~= "aac"@);
    assert(aac_refusal(codec).subrange(47, 47 + codec.len() as int) =~= codec);
    assert(aac_refusal("ac3"@) =~= "Profile only supports aac as output codec, not ac3."@);
}

/// The thumbnail strategy tells its two refusals apart: a request that sets
/// a height, a width or a bit rate is told that the size is fixed, whatever
/// its codec; any other refused request is told which source codec it had.
pub proof fn lemma_thumbnail_refusal_reasons(ctx: ProfileContextView)
    ensures
        asks_for_sizing(ctx.output_ctx) ==> ThumbnailProfile.refusal(ctx) == sizing_refusal(),
        !asks_for_sizing(ctx.output_ctx) ==> ThumbnailProfile.refusal(ctx) == codec_refusal(
            ctx.input_ctx.codec,
        ),
        codec_refusal(ctx.input_ctx.codec).subrange(6, 6 + ctx.input_ctx.codec.len() as int)
            == ctx.input_ctx.codec,
        sizing_refusal() != codec_refusal(ctx.input_ctx.codec),
{
    reveal_strlit("Thumbnails have a fixed size: height, width and bitrate cannot be requested.");
    reveal_strlit("Codec ");
    reveal_strlit(" not supported.");
    let codec = ctx.input_ctx.codec;
    assert(codec_refusal(codec).subrange(6, 6 + codec.len() as int) =~= codec);
    assert(sizing_refusal()[0] == 'T');
    assert(codec_refusal(codec)[0] == 'C');
}

/// The thumbnail strategy refuses every request that sets a height, a width
/// or a bit rate, whatever its codec, and every request whose target codec is
/// not `jpg`.
pub proof fn lemma_thumbnail_refusals(ctx: ProfileContextView)
    ensures
        ctx.output_ctx.height is Some ==> !ThumbnailProfile.accepts(ctx),
        ctx.output_ctx.width is Some ==> !ThumbnailProfile.accepts(ctx),
        ctx.output_ctx.bitrate is Some ==> !ThumbnailProfile.accepts(ctx),
        ctx.output_ctx.codec != "jpg"@ ==> !ThumbnailProfile.accepts(ctx),
{
}

/// Two verdicts of one strategy on requests with the same content agree:
/// both accept, or both refuse for the same reason.
pub proof fn lemma_supports_deterministic<P: TranscodingProfile>(
    profile: P,
    a: ProfileContext,
    b: ProfileContext,
    first: Result<(), NightfallError>,
    second: Result<(), NightfallError>,
)
    requires
        a@ == b@,
        first is Ok <==> profile.accepts(a@),
        first matches Err(e) ==> e.reason() == profile.refusal(a@),
        second is Ok <==> profile.accepts(b@),
        second matches Err(e) ==> e.reason() == profile.refusal(b@),
    ensures
        first is Ok <==> second is Ok,
        first is Err ==> first->Err_0.reason() == second->Err_0.reason(),
{
}

/// Two answers of one strategy to requests with the same content hold the
/// same texts in the same order.
pub proof fn lemma_build_deterministic<P: TranscodingProfile>(
    profile: P,
    a: ProfileContext,
    b: ProfileContext,
    first: Vec<String>,
    second: Vec<String>,
)
    requires
        a@ == b@,
        argument_texts(first@) == profile.arguments(a@),
        argument_texts(second@) == profile.arguments(b@),
    ensures
        first@.len() == second@.len(),
        forall|i: int| 0 <= i < first@.len() ==> (#[trigger] first@[i])@ == second@[i]@,
{
    assert(argument_texts(first@).len() == argument_texts(second@).len());
    assert forall|i: int| 0 <= i < first@.len() implies (#[trigger] first@[i])@ == second@[i]@ by {
        assert(argument_texts(first@)[i] == argument_texts(second@)[i]);
    }
}

/// Every segmented strategy seeks to the first segment's number times the
/// segment length.
pub proof fn lemma_seek_offset(ctx: ProfileContextView)
    ensures
        Eac3TransmuxProfile.arguments(ctx)[1] == "-ss"@,
        Eac3TransmuxProfile.arguments(ctx)[2] == decimal(
            ctx.output_ctx.start_num * ctx.output_ctx.target_gop,
        ),
        Ac3TransmuxProfile.arguments(ctx)[1] == "-ss"@,
        Ac3TransmuxProfile.arguments(ctx)[2] == decimal(
            ctx.output_ctx.start_num * ctx.output_ctx.target_gop,
        ),
        AacTranscodeProfile.arguments(ctx)[1] == "-ss"@,
        AacTranscodeProfile.arguments(ctx)[2] == decimal(
            ctx.output_ctx.start_num * ctx.output_ctx.target_gop,
        ),
{
    lemma_seek_argument(ctx, copy_stage());
    lemma_seek_argument(ctx, aac_stage(ctx));
}

/// The downmix filter is a standalone text and differs from both forms of
/// the segment options.
pub proof fn lemma_downmix_filter_shape()
    ensures
        standalone_text(stereo_downmix_filter()),
        stereo_downmix_filter() != continuous_options(),
        stereo_downmix_filter() != discontinuous_options(),
{
    lemma_segment_options_shape();
    reveal_strlit(
        "pan=stereo|FL=0.5*FC+0.707*FL+0.707*BL+0.5*LFE|FR=0.5*FC+0.707*FR+0.707*BR+0.5*LFE",
    );
}

/// Of the codec choices, only that of the re-encoding strategy holds a
/// standalone text, and only the downmix filter.
pub proof fn lemma_codec_stage_texts(ctx: ProfileContextView, t: Seq<char>)
    requires
        standalone_text(t),
    ensures
        !copy_stage().contains(t),
        aac_stage(ctx).contains(t) <==> needs_downmix(ctx) && t == stereo_downmix_filter(),
        aac_stage(ctx).len() == if needs_downmix(ctx) { 5int } else { 3int },
{
    reveal_strlit("copy");
    reveal_strlit("aac");
    reveal_strlit("-af");
    reveal_strlit("-ab");
    lemma_decimal_head(target_bitrate(ctx.output_ctx));
    let stage = aac_stage(ctx);
    if needs_downmix(ctx) {
        assert(stage.len() == 5);
        assert(stage[2] == stereo_downmix_filter());
        assert(stage[4] == decimal(target_bitrate(ctx.output_ctx)));
    } else {
        assert(stage.len() == 3);
        assert(stage[2] == decimal(target_bitrate(ctx.output_ctx)));
    }
}

/// A stream that resumes after its first segment carries the discontinuous
/// segment options and not the continuous ones; a stream that starts at its
/// first segment carries the continuous ones and not the discontinuous. The
/// input path is free text: the statement leaves out a path that is itself
/// one of the two option texts.
pub proof fn lemma_discontinuity_marker(ctx: ProfileContextView)
    requires
        ctx.file != continuous_options(),
        ctx.file != discontinuous_options(),
    ensures
        Eac3TransmuxProfile.arguments(ctx).contains(discontinuous_options())
            <==> ctx.output_ctx.start_num > 0,
        Eac3TransmuxProfile.arguments(ctx).contains(continuous_options())
            <==> ctx.output_ctx.start_num == 0,
        Ac3TransmuxProfile.arguments(ctx).contains(discontinuous_options())
            <==> ctx.output_ctx.start_num > 0,
        Ac3TransmuxProfile.arguments(ctx).contains(continuous_options())
            <==> ctx.output_ctx.start_num == 0,
        AacTranscodeProfile.arguments(ctx).contains(discontinuous_options())
            <==> ctx.output_ctx.start_num > 0,
        AacTranscodeProfile.arguments(ctx).contains(continuous_options())
            <==> ctx.output_ctx.start_num == 0,
{
    lemma_segment_options_shape();
    lemma_downmix_filter_shape();
    lemma_codec_stage_texts(ctx, continuous_options());
    lemma_codec_stage_texts(ctx, discontinuous_options());
    lemma_standalone_occurrence(ctx, copy_stage(), continuous_options());
    lemma_standalone_occurrence(ctx, copy_stage(), discontinuous_options());
    lemma_standalone_occurrence(ctx, aac_stage(ctx), continuous_options());
    lemma_standalone_occurrence(ctx, aac_stage(ctx), discontinuous_options());
}

/// The re-encoding strategy puts the downmix filter, behind its flag, right
/// after the encoder's name when source and target channel counts differ,
/// and goes straight on to the bit rate when they agree.
pub proof fn lemma_downmix_place(ctx: ProfileContextView)
    ensures
        AacTranscodeProfile.arguments(ctx)[9] == "aac"@,
        needs_downmix(ctx) ==> AacTranscodeProfile.arguments(ctx)[10] == "-af"@
            && AacTranscodeProfile.arguments(ctx)[11] == stereo_downmix_filter()
            && AacTranscodeProfile.arguments(ctx)[12] == "-ab"@,
        !needs_downmix(ctx) ==> AacTranscodeProfile.arguments(ctx)[10] == "-ab"@,
{
    lemma_segmented_layout(ctx, aac_stage(ctx));
    let stage = aac_stage(ctx);
    let args = AacTranscodeProfile.arguments(ctx);
    assert(args[9 + 0int] == stage[0]);
    if needs_downmix(ctx) {
        assert(stage.len() == 5);
        assert(args[9 + 1int] == stage[1]);
        assert(args[9 + 2int] == stage[2]);
        assert(args[9 + 3int] == stage[3]);
    } else {
        assert(stage.len() == 3);
        assert(args[9 + 1int] == stage[1]);
    }
}

/// The re-encoding strategy's arguments hold the downmix filter exactly when
/// source and target channel counts differ. The input path is free text: the
/// statement leaves out a path that is itself the filter text.
pub proof fn lemma_downmix_presence(ctx: ProfileContextView)
    requires
        ctx.file != stereo_downmix_filter(),
    ensures
        AacTranscodeProfile.arguments(ctx).contains(stereo_downmix_filter()) <==> needs_downmix(
            ctx,
        ),
{
    lemma_downmix_filter_shape();
    lemma_codec_stage_texts(ctx, stereo_downmix_filter());
    lemma_standalone_occurrence(ctx, aac_stage(ctx), stereo_downmix_filter());
}

} // verus!
