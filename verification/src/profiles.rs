//! Transcoding strategies and the capabilities each of them offers.

use vstd::prelude::*;
use crate::context::ProfileContext;
use crate::context::ProfileContextView;
use crate::error::NightfallError;

pub mod audio;
pub mod guarantees;
pub mod segmented;
pub mod thumbnail;

verus! {

/// Whether a strategy re-encodes the stream or only repackages it.
#[derive(Debug, Clone, Copy, PartialEq, Eq, Structural)]
pub enum ProfileType {
    Transmux,
    Transcode,
}

/// The kind of elementary stream a strategy works on.
#[derive(Debug, Clone, Copy, PartialEq, Eq, Structural)]
pub enum StreamType {
    Audio,
    Video,
    Thumbnail,
}

/// The texts held by a list of arguments, in order.
pub open spec fn argument_texts(args: Seq<String>) -> Seq<Seq<char>> {
    args.map_values(|s: String| s@)
}

/// Pushing one argument appends its text.
pub proof fn lemma_argument_texts_push(args: Seq<String>, last: String)
    ensures
        argument_texts(args.push(last)) == argument_texts(args).push(last@),
{
    assert(argument_texts(args.push(last)) =~= argument_texts(args).push(last@));
}

/// A transcoding strategy: classification, an applicability check and the
/// construction of the engine's arguments.
pub trait TranscodingProfile {
    /// The classification that `profile_type` reports.
    spec fn classification(&self) -> ProfileType;

    /// The stream kind that `stream_type` reports.
    spec fn medium(&self) -> StreamType;

    /// The text that `name` reports.
    spec fn name_text(&self) -> Seq<char>;

    /// The text that `tag` reports.
    spec fn tag_text(&self) -> Seq<char>;

    /// Whether the strategy can serve the request.
    spec fn accepts(&self, ctx: ProfileContextView) -> bool;

    /// The explanation given when the request is refused.
    spec fn refusal(&self, ctx: ProfileContextView) -> Seq<char>;

    /// The engine's arguments for the request.
    spec fn arguments(&self, ctx: ProfileContextView) -> Seq<Seq<char>>;

    /// Whether the strategy re-encodes or repackages.
    fn profile_type(&self) -> (r: ProfileType)
        ensures
            r == self.classification(),
    ;

    /// The stream kind the strategy works on.
    fn stream_type(&self) -> (r: StreamType)
        ensures
            r == self.medium(),
    ;

    /// Name of the strategy, for diagnostics.
    fn name(&self) -> (r: &str)
        ensures
            r@ == self.name_text(),
    ;

    /// Short stable identifier of the strategy.
    fn tag(&self) -> (r: &str)
        ensures
            r@ == self.tag_text(),
    ;

    /// Succeeds exactly when the strategy can serve the request; a refusal
    /// carries the reason.
    fn supports(&self, ctx: &ProfileContext) -> (r: Result<(), NightfallError>)
        ensures
            r is Ok <==> self.accepts(ctx@),
            r matches Err(e) ==> e.reason() == self.refusal(ctx@),
    ;

    /// The ordered arguments for the engine. A request that the strategy
    /// can serve always gets an answer; on any other the strategy may
    /// decline. What it answers is fixed by the request alone.
    fn build(&self, ctx: ProfileContext) -> (r: Option<Vec<String>>)
        ensures
            self.accepts(ctx@) ==> r is Some,
            r matches Some(args) ==> argument_texts(args@) == self.arguments(ctx@),
    ;
}

} // verus!
