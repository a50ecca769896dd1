use rs_ffmpeg::ff_error::AVERROR_EOF;
use rs_ffmpeg::{
    CallPlan, CodecParamsView, Decoder, DecoderOpenStep, DemuxStatus, EngineReply, Frame,
    FrameInfo, Input, InputOpenStep, InputReply, Packet, PacketInfo, ReceiveStatus, Signals,
    Stream,
};

fn video() -> Stream {
    Stream::wrap(1, CodecParamsView { codec_type: 0, codec_id: 27 })
}

fn open_input() -> Input {
    let mut step = InputOpenStep::Pending(Input::with_url("clip.mp4"));
    let replies =
        vec![InputReply::Object(true), InputReply::Code(0), InputReply::Probed(0, vec![video()])];
    for reply in replies {
        step = match step {
            InputOpenStep::Pending(open) => open.advance(reply),
            ended => ended,
        };
    }
    match step {
        InputOpenStep::Done(Ok(input)) => input,
        _ => panic!("the input did not open"),
    }
}

fn open_decoder() -> Decoder {
    let mut step = DecoderOpenStep::Pending(Decoder::with_stream_and_signals(
        video(),
        Signals::with_errno(11),
    ));
    for reply in [
        EngineReply::Object(true),
        EngineReply::Object(true),
        EngineReply::Code(0),
        EngineReply::Code(0),
    ] {
        step = match step {
            DecoderOpenStep::Pending(open) => open.advance(reply),
            ended => ended,
        };
    }
    match step {
        DecoderOpenStep::Done(Ok(decoder)) => decoder,
        _ => panic!("the decoder did not open"),
    }
}

fn some_packet() -> PacketInfo {
    PacketInfo { size: 9, stream_index: 0, pts: 1, dts: 1, duration: 1, pos: 0, flags: 0 }
}

fn some_frame() -> FrameInfo {
    FrameInfo { pts: 1, pkt_duration: 1, width: 2, height: 2, nb_samples: 0, format: 0, key_frame: 0 }
}

#[test]
fn a_read_into_an_empty_packet_only_calls() {
    let input = open_input();
    let packet = Packet::new();
    assert_eq!(input.read_plan(&packet), CallPlan { unref: false, call: true });
}

#[test]
fn a_read_into_a_filled_packet_drops_its_buffer_first() {
    let mut input = open_input();
    let mut packet = Packet::new();
    assert_eq!(input.read_packet(&mut packet, 0, &some_packet()), DemuxStatus::Success);
    assert_eq!(input.read_plan(&packet), CallPlan { unref: true, call: true });
    assert_eq!(input.read_packet(&mut packet, -5, &some_packet()), DemuxStatus::Error(-5));
    assert_eq!(input.read_plan(&packet), CallPlan { unref: false, call: true });
}

#[test]
fn an_exhausted_input_is_not_asked_any_more() {
    let mut input = open_input();
    let mut packet = Packet::new();
    input.read_packet(&mut packet, 0, &some_packet());
    input.read_packet(&mut packet, AVERROR_EOF, &some_packet());
    assert_eq!(input.read_plan(&packet), CallPlan { unref: false, call: false });
}

#[test]
fn a_filled_packet_releases_its_buffer_once() {
    let mut input = open_input();
    let mut packet = Packet::new();
    input.read_packet(&mut packet, 0, &some_packet());
    assert!(packet.unref());
    assert!(!packet.is_buffered());
    assert_eq!(packet.info(), Packet::new().info());
    assert!(!packet.unref());
}

#[test]
fn an_open_decoder_plans_the_calls() {
    let mut decoder = open_decoder();
    let mut frame = Frame::new();
    assert_eq!(decoder.send_plan(), CallPlan { unref: false, call: true });
    assert_eq!(decoder.receive_plan(&frame), CallPlan { unref: false, call: true });
    assert_eq!(decoder.dequeue_frame(&mut frame, 0, &some_frame()), ReceiveStatus::Ready);
    assert_eq!(decoder.receive_plan(&frame), CallPlan { unref: true, call: true });
}

#[test]
fn a_flushed_decoder_plans_no_call() {
    let mut decoder = open_decoder();
    let mut frame = Frame::new();
    decoder.dequeue_frame(&mut frame, 0, &some_frame());
    let mut other = Frame::new();
    decoder.dequeue_frame(&mut other, AVERROR_EOF, &some_frame());
    assert_eq!(decoder.send_plan(), CallPlan { unref: false, call: false });
    assert_eq!(decoder.receive_plan(&other), CallPlan { unref: false, call: false });
    assert_eq!(decoder.receive_plan(&frame), CallPlan { unref: true, call: false });
    assert_eq!(decoder.dequeue_frame(&mut frame, 0, &some_frame()), ReceiveStatus::Flushed);
    assert!(!frame.is_buffered());
}

#[test]
fn a_filled_frame_releases_its_buffer_once() {
    let mut decoder = open_decoder();
    let mut frame = Frame::new();
    decoder.dequeue_frame(&mut frame, 0, &some_frame());
    assert!(frame.unref());
    assert!(!frame.is_buffered());
    assert_eq!(frame.info(), Frame::new().info());
    assert!(!frame.unref());
}
