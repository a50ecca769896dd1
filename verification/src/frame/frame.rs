//! The handle of one decoded buffer.

use vstd::prelude::*;

verus! {

/// What the engine says of a frame it has decoded: the fields of the frame
/// that this layer hands on.
#[derive(Clone, Copy, Debug, PartialEq, Eq, Structural)]
pub struct FrameInfo {
    /// Presentation time, in the track's time base.
    pub pts: i64,
    /// Duration of the packet the frame came from, in the track's time base.
    pub pkt_duration: i64,
    /// Width of a picture, in pixels; 0 for audio.
    pub width: i32,
    /// Height of a picture, in pixels; 0 for audio.
    pub height: i32,
    /// Number of audio samples per channel; 0 for video.
    pub nb_samples: i32,
    /// The engine's number of the pixel or sample format.
    pub format: i32,
    /// 1 for a key frame, 0 otherwise.
    pub key_frame: i32,
}

/// The fields of a frame that holds nothing: all zero.
pub open spec fn blank_frame_info() -> FrameInfo {
    FrameInfo {
        pts: 0,
        pkt_duration: 0,
        width: 0,
        height: 0,
        nb_samples: 0,
        format: 0,
        key_frame: 0,
    }
}

/// What a frame is, to a contract: whether it holds a reference to a decoded
/// buffer of the engine, and its fields.
pub struct FrameState {
    pub buffered: bool,
    pub info: FrameInfo,
}

impl FrameState {
    /// The state of a frame that holds nothing.
    pub open spec fn blank() -> FrameState {
        FrameState { buffered: false, info: blank_frame_info() }
    }

    /// The state of a frame that holds a decoded buffer with the fields `info`.
    pub open spec fn filled(info: FrameInfo) -> FrameState {
        FrameState { buffered: true, info }
    }
}

/// The owner of one decoded buffer. It is made empty and is no output until
/// a decoder has filled it.
#[derive(Debug)]
pub struct Frame {
    buffered: bool,
    info: FrameInfo,
}

impl View for Frame {
    type V = FrameState;

    closed spec fn view(&self) -> FrameState {
        FrameState { buffered: self.buffered, info: self.info }
    }
}

impl Frame {
    /// A frame that holds nothing, all of its fields zero.
    pub fn new() -> (frame: Frame)
        ensures
            frame@ == FrameState::blank(),
    {
        Frame {
            buffered: false,
            info: FrameInfo {
                pts: 0,
                pkt_duration: 0,
                width: 0,
                height: 0,
                nb_samples: 0,
                format: 0,
                key_frame: 0,
            },
        }
    }

    /// Gives up the decoded buffer, if one is held, and blanks the fields.
    /// The result says whether a buffer was held: the engine's reference is
    /// to be dropped exactly then.
    pub fn unref(&mut self) -> (released: bool)
        ensures
            released == old(self)@.buffered,
            final(self)@ == FrameState::blank(),
    {
        let released: bool = self.buffered;
        let blank: Frame = Frame::new();
        *self = blank;
        released
    }

    /// Makes the frame hold the decoded buffer with the fields `info`.
    pub(crate) fn fill(&mut self, info: &FrameInfo)
        ensures
            final(self)@ == FrameState::filled(*info),
    {
        self.buffered = true;
        self.info = *info;
    }

    /// Whether the frame holds a decoded buffer, that is, whether it is output.
    pub fn is_buffered(&self) -> (b: bool)
        ensures
            b == self@.buffered,
    {
        self.buffered
    }

    /// The frame's fields.
    pub fn info(&self) -> (info: FrameInfo)
        ensures
            info == self@.info,
    {
        self.info
    }

    /// Presentation time.
    pub fn pts(&self) -> (pts: i64)
        ensures
            pts == self@.info.pts,
    {
        self.info.pts
    }

    /// Duration of the packet the frame came from.
    pub fn duration(&self) -> (duration: i64)
        ensures
            duration == self@.info.pkt_duration,
    {
        self.info.pkt_duration
    }
}

} // verus!
