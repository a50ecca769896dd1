use rs_ffmpeg::frame::frame::Frame;
use rs_ffmpeg::packet::packet::{Packet, AV_NOPTS_VALUE};
use rs_ffmpeg::{CodecParamsView, MediaKind, Stream};

fn track(id: i32, codec_type: i32, codec_id: u32) -> Stream {
    Stream::wrap(id, CodecParamsView { codec_type, codec_id })
}

#[test]
fn wrap_keeps_id_and_parameters() {
    let params = CodecParamsView { codec_type: 0, codec_id: 27 };
    let stream = Stream::wrap(5, params);
    assert_eq!(stream.id(), 5);
    assert_eq!(stream.codecpar(), params);
    assert_eq!(stream.codecpar().codec_id, 27);
}

#[test]
fn media_type_follows_the_tag() {
    assert_eq!(track(0, 0, 27).media_type(), MediaKind::Video);
    assert_eq!(track(1, 1, 86018).media_type(), MediaKind::Audio);
    assert_eq!(track(2, 3, 94213).media_type(), MediaKind::Subtitle);
    assert_eq!(track(3, 2, 0).media_type(), MediaKind::Other);
    assert_eq!(track(4, 4, 0).media_type(), MediaKind::Other);
    assert_eq!(track(5, -1, 0).media_type(), MediaKind::Other);
    assert_eq!(track(6, 5, 0).media_type(), MediaKind::Other);
}

#[test]
fn exactly_one_of_the_three_tests_holds_for_a_named_kind() {
    let video = track(0, 0, 27);
    assert!(video.is_video_stream());
    assert!(!video.is_audio_stream());
    assert!(!video.is_subtitle_stream());
    let audio = track(1, 1, 86018);
    assert!(!audio.is_video_stream());
    assert!(audio.is_audio_stream());
    assert!(!audio.is_subtitle_stream());
    let subtitle = track(2, 3, 94213);
    assert!(!subtitle.is_video_stream());
    assert!(!subtitle.is_audio_stream());
    assert!(subtitle.is_subtitle_stream());
    let data = track(3, 2, 0);
    assert!(!data.is_video_stream());
    assert!(!data.is_audio_stream());
    assert!(!data.is_subtitle_stream());
}

#[test]
fn new_packet_is_blank() {
    let packet = Packet::new();
    assert!(!packet.is_buffered());
    assert_eq!(packet.size(), 0);
    assert_eq!(packet.stream_index(), 0);
    assert_eq!(packet.pts(), AV_NOPTS_VALUE);
    assert_eq!(packet.dts(), AV_NOPTS_VALUE);
    assert_eq!(packet.pts(), i64::MIN);
    assert_eq!(packet.duration(), 0);
    assert_eq!(packet.info().pos, -1);
    assert_eq!(packet.info().flags, 0);
}

#[test]
fn unref_of_a_blank_packet_releases_nothing() {
    let mut packet = Packet::new();
    assert!(!packet.unref());
    assert!(!packet.unref());
    assert!(!packet.is_buffered());
    assert_eq!(packet.info(), Packet::new().info());
}

#[test]
fn new_frame_is_zeroed() {
    let frame = Frame::new();
    assert!(!frame.is_buffered());
    assert_eq!(frame.pts(), 0);
    assert_eq!(frame.duration(), 0);
    assert_eq!(frame.info().width, 0);
    assert_eq!(frame.info().height, 0);
    assert_eq!(frame.info().nb_samples, 0);
    assert_eq!(frame.info().format, 0);
    assert_eq!(frame.info().key_frame, 0);
}

#[test]
fn unref_of_a_blank_frame_releases_nothing() {
    let mut frame = Frame::new();
    assert!(!frame.unref());
    assert!(!frame.is_buffered());
}
