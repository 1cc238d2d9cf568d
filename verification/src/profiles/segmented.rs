//! The argument layout shared by every strategy that writes a segmented,
//! seekable stream with an event playlist.

use vstd::prelude::*;
use vstd::string::*;
use crate::context::InputStreamView;
use crate::context::OutputStreamView;
use crate::context::ProfileContext;
use crate::context::ProfileContextView;
use crate::profiles::argument_texts;
use crate::profiles::lemma_argument_texts_push;
use crate::text::decimal;
use crate::text::decimal_string;
use crate::text::lemma_decimal_head;
use crate::text::joined;

verus! {

/// Where reading starts, in seconds of the output timeline: whole segments
/// before the first one produced.
pub open spec fn seek_seconds(out: OutputStreamView) -> nat {
    out.start_num * out.target_gop
}

/// The mapping expression that picks the stream out of the first input.
pub open spec fn stream_selector(input: InputStreamView) -> Seq<char> {
    "0:"@ + decimal(input.stream)
}

/// Segment options for a stream that continues from its beginning.
pub open spec fn continuous_options() -> Seq<char> {
    "movflags=frag_custom+dash+delay_moov"@
}

/// Segment options for a stream that resumes after a seek.
pub open spec fn discontinuous_options() -> Seq<char> {
    "movflags=frag_custom+dash+delay_moov+frag_discont"@
}

/// The segment options of a request: discontinuous exactly when it does not
/// start at the first segment.
pub open spec fn segment_options(out: OutputStreamView) -> Seq<char> {
    if out.start_num > 0 {
        discontinuous_options()
    } else {
        continuous_options()
    }
}

/// Name of the initialization fragment, told apart by the first segment's
/// number.
pub open spec fn init_segment_name(out: OutputStreamView) -> Seq<char> {
    decimal(out.start_num) + "_init.mp4"@
}

/// The expression that forces a key frame at every segment boundary.
pub open spec fn keyframe_expression(out: OutputStreamView) -> Seq<char> {
    "expr:gte(t,n_forced*"@ + decimal(out.target_gop) + ")"@
}

/// File name pattern of the segments.
pub open spec fn segment_pattern(out: OutputStreamView) -> Seq<char> {
    out.outdir + "/%d.m4s"@
}

/// Path of the playlist.
pub open spec fn playlist_path(out: OutputStreamView) -> Seq<char> {
    out.outdir + "/playlist.m3u8"@
}

/// Arguments up to the codec choice: overwrite, seek, input, timestamps kept,
/// stream selection.
pub open spec fn input_stage(ctx: ProfileContextView) -> Seq<Seq<char>> {
    seq![
        "-y"@,
        "-ss"@,
        decimal(seek_seconds(ctx.output_ctx)),
        "-i"@,
        ctx.file,
        "-copyts"@,
        "-map"@,
        stream_selector(ctx.input_ctx),
        "-c:0"@,
    ]
}

/// Arguments after the codec choice: timestamp handling, playlist and
/// segment settings, progress reporting and the output paths.
pub open spec fn output_stage(out: OutputStreamView) -> Seq<Seq<char>> {
    seq![
        "-start_at_zero"@,
        "-fps_mode"@,
        "auto"@,
        "-avoid_negative_ts"@,
        "make_non_negative"@,
        "-f"@,
        "hls"@,
        "-hls_playlist_type"@,
        "event"@,
        "-start_number"@,
        decimal(out.start_num),
        "-hls_flags"@,
        "temp_file+append_list"@,
        "-max_delay"@,
        "5000000"@,
        "-hls_segment_options"@,
        segment_options(out),
        "-hls_fmp4_init_filename"@,
        init_segment_name(out),
        "-hls_time"@,
        decimal(out.target_gop),
        "-force_key_frames"@,
        keyframe_expression(out),
        "-hls_segment_type"@,
        "fmp4"@,
        "-loglevel"@,
        "info"@,
        "-progress"@,
        "pipe:1"@,
        "-hls_segment_filename"@,
        segment_pattern(out),
        playlist_path(out),
    ]
}

/// The whole argument list of a segmented stream whose codec choice is
/// `codec_stage`.
pub open spec fn segmented_arguments(ctx: ProfileContextView, codec_stage: Seq<Seq<char>>) -> Seq<
    Seq<char>,
> {
    input_stage(ctx) + codec_stage + output_stage(ctx.output_ctx)
}

/// A text that none of the fixed or computed arguments around the codec
/// choice can equal, the input path and the segment options aside: it is
/// longer than every flag, does not start like a numeral or a key-frame
/// expression, and does not end like an output path.
pub open spec fn standalone_text(t: Seq<char>) -> bool {
    &&& t.len() > 23
    &&& !('0' <= t[0] <= '9')
    &&& t[0] != 'e'
    &&& t.last() != 's'
    &&& t.last() != '8'
}

/// Both forms of the segment options are standalone texts, and they differ.
pub proof fn lemma_segment_options_shape()
    ensures
        standalone_text(continuous_options()),
        standalone_text(discontinuous_options()),
        continuous_options() != discontinuous_options(),
        continuous_options().len() == 36,
        discontinuous_options().len() == 49,
{
    reveal_strlit("movflags=frag_custom+dash+delay_moov");
    reveal_strlit("movflags=frag_custom+dash+delay_moov+frag_discont");
}

/// Before the codec choice, only the input path can equal a standalone text.
pub proof fn lemma_input_stage_texts(ctx: ProfileContextView, t: Seq<char>)
    requires
        standalone_text(t),
    ensures
        input_stage(ctx).len() == 9,
        forall|i: int| 0 <= i < 9 && i != 4 ==> #[trigger] input_stage(ctx)[i] != t,
{
    reveal_strlit("-y");
    reveal_strlit("-ss");
    reveal_strlit("-i");
    reveal_strlit("-copyts");
    reveal_strlit("-map");
    reveal_strlit("0:");
    reveal_strlit("-c:0");
    lemma_decimal_head(seek_seconds(ctx.output_ctx));
    let stage = input_stage(ctx);
    assert(stage[7][0] == '0');
    assert forall|i: int| 0 <= i < 9 && i != 4 implies #[trigger] stage[i] != t by {
        if i == 2 {
            assert(stage[2] == decimal(seek_seconds(ctx.output_ctx)));
        } else if i == 7 {
            assert(stage[7][0] == '0');
        } else {
            assert(stage[i].len() <= 23);
        }
    }
}

/// After the codec choice, only the segment options can equal a standalone
/// text.
pub proof fn lemma_output_stage_texts(out: OutputStreamView, t: Seq<char>)
    requires
        standalone_text(t),
    ensures
        output_stage(out).len() == 32,
        output_stage(out)[15] == "-hls_segment_options"@,
        output_stage(out)[16] == segment_options(out),
        forall|i: int| 0 <= i < 32 && i != 16 ==> #[trigger] output_stage(out)[i] != t,
{
    reveal_strlit("-start_at_zero");
    reveal_strlit("-fps_mode");
    reveal_strlit("auto");
    reveal_strlit("-avoid_negative_ts");
    reveal_strlit("make_non_negative");
    reveal_strlit("-f");
    reveal_strlit("hls");
    reveal_strlit("-hls_playlist_type");
    reveal_strlit("event");
    reveal_strlit("-start_number");
    reveal_strlit("-hls_flags");
    reveal_strlit("temp_file+append_list");
    reveal_strlit("-max_delay");
    reveal_strlit("5000000");
    reveal_strlit("-hls_segment_options");
    reveal_strlit("-hls_fmp4_init_filename");
    reveal_strlit("_init.mp4");
    reveal_strlit("-hls_time");
    reveal_strlit("-force_key_frames");
    reveal_strlit("expr:gte(t,n_forced*");
    reveal_strlit(")");
    reveal_strlit("-hls_segment_type");
    reveal_strlit("fmp4");
    reveal_strlit("-loglevel");
    reveal_strlit("info");
    reveal_strlit("-progress");
    reveal_strlit("pipe:1");
    reveal_strlit("-hls_segment_filename");
    reveal_strlit("/%d.m4s");
    reveal_strlit("/playlist.m3u8");
    lemma_decimal_head(out.start_num);
    lemma_decimal_head(out.target_gop);
    let stage = output_stage(out);
    assert forall|i: int| 0 <= i < 32 && i != 16 implies #[trigger] stage[i] != t by {
        if i == 10 {
            assert(stage[10] == decimal(out.start_num));
        } else if i == 18 {
            assert(stage[18][0] == decimal(out.start_num)[0]);
        } else if i == 20 {
            assert(stage[20] == decimal(out.target_gop));
        } else if i == 22 {
            assert(stage[22][0] == 'e');
        } else if i == 30 {
            assert(stage[30].last() == 's');
        } else if i == 31 {
            assert(stage[31].last() == '8');
        } else {
            assert(stage[i].len() <= 23);
        }
    }
}

/// How a segmented argument list is laid out around its codec choice.
pub proof fn lemma_segmented_layout(ctx: ProfileContextView, codec_stage: Seq<Seq<char>>)
    ensures
        segmented_arguments(ctx, codec_stage).len() == 9 + codec_stage.len() + 32,
        forall|i: int|
            0 <= i < 9 ==> #[trigger] segmented_arguments(ctx, codec_stage)[i] == input_stage(
                ctx,
            )[i],
        forall|i: int|
            0 <= i < codec_stage.len() ==> #[trigger] segmented_arguments(ctx, codec_stage)[9 + i]
                == codec_stage[i],
        forall|i: int|
            0 <= i < 32 ==> #[trigger] segmented_arguments(ctx, codec_stage)[9 + codec_stage.len()
                + i] == output_stage(ctx.output_ctx)[i],
{
}

/// The seek argument of a segmented stream is the number of the first
/// segment times the segment length, whatever the codec choice.
pub proof fn lemma_seek_argument(ctx: ProfileContextView, codec_stage: Seq<Seq<char>>)
    ensures
        segmented_arguments(ctx, codec_stage)[1] == "-ss"@,
        segmented_arguments(ctx, codec_stage)[2] == decimal(
            ctx.output_ctx.start_num * ctx.output_ctx.target_gop,
        ),
{
    lemma_segmented_layout(ctx, codec_stage);
}

/// Where the segment options stand in a segmented argument list whose codec
/// choice is `codec_stage`.
pub open spec fn segment_options_index(codec_stage: Seq<Seq<char>>) -> int {
    9 + codec_stage.len() as int + 16
}

/// The segment options stand right after their flag, at a place fixed by the
/// length of the codec choice, and say whether the stream resumes.
pub proof fn lemma_segment_options_place(ctx: ProfileContextView, codec_stage: Seq<Seq<char>>)
    ensures
        segmented_arguments(ctx, codec_stage)[segment_options_index(codec_stage) - 1]
            == "-hls_segment_options"@,
        ctx.output_ctx.start_num > 0 ==> segmented_arguments(
            ctx,
            codec_stage,
        )[segment_options_index(codec_stage)] == discontinuous_options(),
        ctx.output_ctx.start_num == 0 ==> segmented_arguments(
            ctx,
            codec_stage,
        )[segment_options_index(codec_stage)] == continuous_options(),
        continuous_options() != discontinuous_options(),
{
    lemma_segment_options_shape();
    lemma_segmented_layout(ctx, codec_stage);
    lemma_output_stage_texts(ctx.output_ctx, continuous_options());
    let args = segmented_arguments(ctx, codec_stage);
    let k: int = 9 + codec_stage.len() as int;
    assert(args[k + 15] == output_stage(ctx.output_ctx)[15]);
    assert(args[k + 16] == output_stage(ctx.output_ctx)[16]);
}

/// In a segmented argument list, a standalone text other than the input
/// path occurs only inside the codec choice or as the segment options.
pub proof fn lemma_standalone_occurrence(
    ctx: ProfileContextView,
    codec_stage: Seq<Seq<char>>,
    t: Seq<char>,
)
    requires
        standalone_text(t),
        ctx.file != t,
    ensures
        segmented_arguments(ctx, codec_stage).contains(t) <==> codec_stage.contains(t)
            || segment_options(ctx.output_ctx) == t,
{
    let args = segmented_arguments(ctx, codec_stage);
    let k: int = 9 + codec_stage.len() as int;
    lemma_segmented_layout(ctx, codec_stage);
    lemma_input_stage_texts(ctx, t);
    lemma_output_stage_texts(ctx.output_ctx, t);
    if segment_options(ctx.output_ctx) == t {
        assert(args[k + 16] == t);
    }
    if codec_stage.contains(t) {
        let j = choose|j: int| 0 <= j < codec_stage.len() && codec_stage[j] == t;
        assert(args[9 + j] == t);
    }
    if args.contains(t) {
        let i = choose|i: int| 0 <= i < args.len() && args[i] == t;
        if i < 9 {
            assert(args[i] == input_stage(ctx)[i]);
            assert(input_stage(ctx)[4] == ctx.file);
        } else if i < k {
            assert(args[9 + (i - 9)] == codec_stage[i - 9]);
            assert(codec_stage.contains(t));
        } else {
            assert(args[k + (i - k)] == output_stage(ctx.output_ctx)[i - k]);
        }
    }
}

/// Appends a fixed text to the arguments.
pub fn push_text(args: &mut Vec<String>, text: &str)
    ensures
        argument_texts(final(args)@) == argument_texts(old(args)@).push(text@),
{
    let s: String = String::from_str(text);
    proof {
        lemma_argument_texts_push(args@, s);
    }
    args.push(s);
}

/// Appends an owned text to the arguments.
pub fn push_string(args: &mut Vec<String>, text: String)
    ensures
        argument_texts(final(args)@) == argument_texts(old(args)@).push(text@),
{
    proof {
        lemma_argument_texts_push(args@, text);
    }
    args.push(text);
}

/// Starts an argument list with everything that precedes the codec choice.
pub fn input_stage_args(ctx: &ProfileContext) -> (args: Vec<String>)
    ensures
        argument_texts(args@) == input_stage(ctx@),
{
    let start: u64 = ctx.output_ctx.start_num as u64;
    let gop: u64 = ctx.output_ctx.target_gop as u64;
    assert(start * gop <= 0xffff_ffff * 0xffff_ffff) by (nonlinear_arith)
        requires
            start <= 0xffff_ffff,
            gop <= 0xffff_ffff,
    ;
    let seek: u64 = start * gop;
    let selector: String = joined("0:", decimal_string(ctx.input_ctx.stream as u64).as_str());
    let mut args: Vec<String> = Vec::new();
    assert(argument_texts(args@) =~= Seq::<Seq<char>>::empty());
    push_text(&mut args, "-y");
    push_text(&mut args, "-ss");
    push_string(&mut args, decimal_string(seek));
    push_text(&mut args, "-i");
    push_string(&mut args, ctx.file.clone());
    push_text(&mut args, "-copyts");
    push_text(&mut args, "-map");
    push_string(&mut args, selector);
    push_text(&mut args, "-c:0");
    args
}

/// Appends everything that follows the codec choice.
pub fn push_output_stage(args: &mut Vec<String>, ctx: &ProfileContext)
    ensures
        argument_texts(final(args)@) == argument_texts(old(args)@) + output_stage(ctx.output_ctx@),
{
    let ghost before: Seq<Seq<char>> = argument_texts(args@);
    let start_num: String = decimal_string(ctx.output_ctx.start_num as u64);
    let gop: String = decimal_string(ctx.output_ctx.target_gop as u64);
    let init_seg: String = joined(start_num.as_str(), "_init.mp4");
    let seg_name: String = joined(ctx.output_ctx.outdir.as_str(), "/%d.m4s");
    let playlist: String = joined(ctx.output_ctx.outdir.as_str(), "/playlist.m3u8");
    let expr: String = joined(joined("expr:gte(t,n_forced*", gop.as_str()).as_str(), ")");

    push_text(args, "-start_at_zero");
    push_text(args, "-fps_mode");
    push_text(args, "auto");
    push_text(args, "-avoid_negative_ts");
    push_text(args, "make_non_negative");

    push_text(args, "-f");
    push_text(args, "hls");
    push_text(args, "-hls_playlist_type");
    push_text(args, "event");
    push_text(args, "-start_number");
    push_string(args, start_num);

    // Segments in progress carry a temporary name and enter the playlist
    // only once they are complete.
    push_text(args, "-hls_flags");
    push_text(args, "temp_file+append_list");
    push_text(args, "-max_delay");
    push_text(args, "5000000");

    // A stream that starts in the middle of another is marked as a break in
    // the fragment sequence.
    push_text(args, "-hls_segment_options");
    if ctx.output_ctx.start_num > 0 {
        push_text(args, "movflags=frag_custom+dash+delay_moov+frag_discont");
    } else {
        push_text(args, "movflags=frag_custom+dash+delay_moov");
    }

    push_text(args, "-hls_fmp4_init_filename");
    push_string(args, init_seg);

    push_text(args, "-hls_time");
    push_string(args, gop);
    push_text(args, "-force_key_frames");
    push_string(args, expr);

    push_text(args, "-hls_segment_type");
    push_text(args, "fmp4");
    push_text(args, "-loglevel");
    push_text(args, "info");
    push_text(args, "-progress");
    push_text(args, "pipe:1");
    push_text(args, "-hls_segment_filename");
    push_string(args, seg_name);
    push_string(args, playlist);
    assert(argument_texts(args@) =~= before + output_stage(ctx.output_ctx@));
}

} // verus!
