//! What a request says about its source stream and about the stream it wants.

use vstd::prelude::*;

verus! {

/// Facts observed about the source stream.
#[derive(Debug, Clone)]
pub struct InputStreamContext {
    /// Path of the source media.
    pub file: String,
    /// Index of the elementary stream inside the source container.
    pub stream: usize,
    /// Codec identifier of the source stream.
    pub codec: String,
    /// Channel count of the source audio, where there is any.
    pub audio_channels: Option<u64>,
}

/// Properties wanted of the produced stream.
#[derive(Debug, Clone)]
pub struct OutputStreamContext {
    /// Directory that receives segments, playlist or images.
    pub outdir: String,
    /// Sequence index of the first segment to produce.
    pub start_num: u32,
    /// Segment duration in whole seconds.
    pub target_gop: u32,
    /// Codec identifier wanted for the output.
    pub codec: String,
    /// Channel count wanted; `None` leaves it open.
    pub audio_channels: Option<u64>,
    /// Bit rate wanted, in bits per second; `None` leaves it open.
    pub bitrate: Option<u64>,
    /// Frame width wanted; `None` leaves it open.
    pub width: Option<i64>,
    /// Frame height wanted; `None` leaves it open.
    pub height: Option<i64>,
}

/// One request: source facts, wanted properties and the resolved source path
/// that the engine is to open.
#[derive(Debug, Clone)]
pub struct ProfileContext {
    /// Resolved path handed to the engine as its input.
    pub file: String,
    /// Facts about the source stream.
    pub input_ctx: InputStreamContext,
    /// Properties wanted of the output.
    pub output_ctx: OutputStreamContext,
}

/// Mathematical content of an [`InputStreamContext`].
pub struct InputStreamView {
    pub file: Seq<char>,
    pub stream: nat,
    pub codec: Seq<char>,
    pub audio_channels: Option<nat>,
}

/// Mathematical content of an [`OutputStreamContext`].
pub struct OutputStreamView {
    pub outdir: Seq<char>,
    pub start_num: nat,
    pub target_gop: nat,
    pub codec: Seq<char>,
    pub audio_channels: Option<nat>,
    pub bitrate: Option<nat>,
    pub width: Option<int>,
    pub height: Option<int>,
}

/// Mathematical content of a [`ProfileContext`].
pub struct ProfileContextView {
    pub file: Seq<char>,
    pub input_ctx: InputStreamView,
    pub output_ctx: OutputStreamView,
}

impl OutputStreamView {
    /// A segment lasts at least one second.
    pub open spec fn well_formed(self) -> bool {
        self.target_gop > 0
    }
}

/// An optional count as a natural number.
pub open spec fn count_view(c: Option<u64>) -> Option<nat> {
    match c {
        Some(n) => Some(n as nat),
        None => None,
    }
}

/// An optional dimension as an integer.
pub open spec fn dimension_view(d: Option<i64>) -> Option<int> {
    match d {
        Some(n) => Some(n as int),
        None => None,
    }
}

impl View for InputStreamContext {
    type V = InputStreamView;

    open spec fn view(&self) -> InputStreamView {
        InputStreamView {
            file: self.file@,
            stream: self.stream as nat,
            codec: self.codec@,
            audio_channels: count_view(self.audio_channels),
        }
    }
}

impl View for OutputStreamContext {
    type V = OutputStreamView;

    open spec fn view(&self) -> OutputStreamView {
        OutputStreamView {
            outdir: self.outdir@,
            start_num: self.start_num as nat,
            target_gop: self.target_gop as nat,
            codec: self.codec@,
            audio_channels: count_view(self.audio_channels),
            bitrate: count_view(self.bitrate),
            width: dimension_view(self.width),
            height: dimension_view(self.height),
        }
    }
}

impl View for ProfileContext {
    type V = ProfileContextView;

    open spec fn view(&self) -> ProfileContextView {
        ProfileContextView {
            file: self.file@,
            input_ctx: self.input_ctx@,
            output_ctx: self.output_ctx@,
        }
    }
}

impl OutputStreamContext {
    /// Tells whether the request keeps the invariant of its segment length.
    pub fn is_well_formed(&self) -> (r: bool)
        ensures
            r == self@.well_formed(),
    {
        self.target_gop > 0
    }
}

} // verus!
