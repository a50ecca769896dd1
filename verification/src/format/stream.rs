//! One elementary track of a container, as the demuxer's probe describes it.

use vstd::prelude::*;

verus! {

/// The engine's media-type tag of a video track.
pub const AVMEDIA_TYPE_VIDEO: i32 = 0;

/// The engine's media-type tag of an audio track.
pub const AVMEDIA_TYPE_AUDIO: i32 = 1;

/// The engine's media-type tag of a subtitle track.
pub const AVMEDIA_TYPE_SUBTITLE: i32 = 3;

/// What kind of media a track carries.
#[derive(Clone, Copy, Debug, PartialEq, Eq, Structural)]
pub enum MediaKind {
    Video,
    Audio,
    Subtitle,
    /// Data, attachments, and whatever the engine could not name.
    Other,
}

/// The kind of media that the engine's tag `codec_type` stands for.
pub open spec fn media_kind_of(codec_type: i32) -> MediaKind {
    if codec_type == AVMEDIA_TYPE_VIDEO {
        MediaKind::Video
    } else if codec_type == AVMEDIA_TYPE_AUDIO {
        MediaKind::Audio
    } else if codec_type == AVMEDIA_TYPE_SUBTITLE {
        MediaKind::Subtitle
    } else {
        MediaKind::Other
    }
}

/// The codec parameters of a track, as far as this layer reads them: the
/// media-type tag and the codec's number. Everything else in them is the
/// engine's own.
#[derive(Clone, Copy, Debug, PartialEq, Eq, Structural)]
pub struct CodecParamsView {
    pub codec_type: i32,
    pub codec_id: u32,
}

/// A reference to one track of an opened source. It owns nothing: it is a
/// copy of what the probe found, so it stays valid whatever becomes of the
/// source it came from.
#[derive(Clone, Copy, Debug, PartialEq, Eq, Structural)]
pub struct Stream {
    id: i32,
    codecpar: CodecParamsView,
}

impl Stream {
    /// The track's numeric id.
    pub closed spec fn spec_id(self) -> i32 {
        self.id
    }

    /// The track's codec parameters.
    pub closed spec fn spec_codecpar(self) -> CodecParamsView {
        self.codecpar
    }

    /// The kind of media the track carries.
    pub open spec fn spec_media_type(self) -> MediaKind {
        media_kind_of(self.spec_codecpar().codec_type)
    }

    /// The reference to the track with the id `id` and the codec parameters `codecpar`.
    pub fn wrap(id: i32, codecpar: CodecParamsView) -> (stream: Stream)
        ensures
            stream.spec_id() == id,
            stream.spec_codecpar() == codecpar,
    {
        Stream { id, codecpar }
    }

    /// The kind of media the track carries, from the tag in its codec parameters.
    pub fn media_type(&self) -> (kind: MediaKind)
        ensures
            kind == self.spec_media_type(),
    {
        let tag: i32 = self.codecpar.codec_type;
        if tag == AVMEDIA_TYPE_VIDEO {
            MediaKind::Video
        } else if tag == AVMEDIA_TYPE_AUDIO {
            MediaKind::Audio
        } else if tag == AVMEDIA_TYPE_SUBTITLE {
            MediaKind::Subtitle
        } else {
            MediaKind::Other
        }
    }

    /// Whether the track carries video.
    pub fn is_video_stream(&self) -> (b: bool)
        ensures
            b == (self.spec_media_type() == MediaKind::Video),
            b == (self.spec_codecpar().codec_type == AVMEDIA_TYPE_VIDEO),
    {
        self.codecpar.codec_type == AVMEDIA_TYPE_VIDEO
    }

    /// Whether the track carries audio.
    pub fn is_audio_stream(&self) -> (b: bool)
        ensures
            b == (self.spec_media_type() == MediaKind::Audio),
            b == (self.spec_codecpar().codec_type == AVMEDIA_TYPE_AUDIO),
    {
        self.codecpar.codec_type == AVMEDIA_TYPE_AUDIO
    }

    /// Whether the track carries subtitles.
    pub fn is_subtitle_stream(&self) -> (b: bool)
        ensures
            b == (self.spec_media_type() == MediaKind::Subtitle),
            b == (self.spec_codecpar().codec_type == AVMEDIA_TYPE_SUBTITLE),
    {
        self.codecpar.codec_type == AVMEDIA_TYPE_SUBTITLE
    }

    /// The track's codec parameters, to build a decoder from.
    pub fn codecpar(&self) -> (params: CodecParamsView)
        ensures
            params == self.spec_codecpar(),
    {
        self.codecpar
    }

    /// The track's numeric id.
    pub fn id(&self) -> (id: i32)
        ensures
            id == self.spec_id(),
    {
        self.id
    }
}

/// The three tests name the kind: each holds exactly when the track is of
/// its kind, so no two of them hold of one track, and none holds exactly
/// when the kind is `Other`.
pub proof fn media_kind_is_one(stream: Stream)
    ensures
        stream.spec_media_type() == MediaKind::Video <==> stream.spec_codecpar().codec_type
            == AVMEDIA_TYPE_VIDEO,
        stream.spec_media_type() == MediaKind::Audio <==> stream.spec_codecpar().codec_type
            == AVMEDIA_TYPE_AUDIO,
        stream.spec_media_type() == MediaKind::Subtitle <==> stream.spec_codecpar().codec_type
            == AVMEDIA_TYPE_SUBTITLE,
        stream.spec_media_type() == MediaKind::Other <==> (stream.spec_codecpar().codec_type
            != AVMEDIA_TYPE_VIDEO && stream.spec_codecpar().codec_type != AVMEDIA_TYPE_AUDIO
            && stream.spec_codecpar().codec_type != AVMEDIA_TYPE_SUBTITLE),
{
}

} // verus!
