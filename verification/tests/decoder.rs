use rs_ffmpeg::ff_error::{AVERROR_DECODER_NOT_FOUND, AVERROR_EOF, AVERROR_INVALIDDATA};
use rs_ffmpeg::{
    CodecParamsView, Decoder, DecoderOpen, DecoderOpenError, DecoderOpenStep, DecoderRequest,
    EngineReply, Frame, FrameInfo, ReceiveStatus, SendStatus, Signals, Stream,
};

fn video() -> Stream {
    Stream::wrap(1, CodecParamsView { codec_type: 0, codec_id: 27 })
}

fn pending(step: DecoderOpenStep) -> DecoderOpen {
    match step {
        DecoderOpenStep::Pending(open) => open,
        DecoderOpenStep::Done(_) => panic!("the opening has ended"),
    }
}

fn done(step: DecoderOpenStep) -> Result<Decoder, DecoderOpenError> {
    match step {
        DecoderOpenStep::Done(result) => result,
        DecoderOpenStep::Pending(_) => panic!("the opening has not ended"),
    }
}

fn failure(step: DecoderOpenStep) -> DecoderOpenError {
    match done(step) {
        Err(error) => error,
        Ok(_) => panic!("the opening has succeeded"),
    }
}

fn opened() -> Decoder {
    let open = Decoder::with_stream_and_signals(video(), Signals::with_errno(11));
    let open = pending(open.advance(EngineReply::Object(true)));
    let open = pending(open.advance(EngineReply::Object(true)));
    let open = pending(open.advance(EngineReply::Code(0)));
    match done(open.advance(EngineReply::Code(0))) {
        Ok(decoder) => decoder,
        Err(_) => panic!("the opening has failed"),
    }
}

fn picture(pts: i64, pkt_duration: i64) -> FrameInfo {
    FrameInfo { pts, pkt_duration, width: 640, height: 360, nb_samples: 0, format: 0, key_frame: 1 }
}

#[test]
fn opening_looks_the_decoder_up_by_the_codec_of_the_track() {
    let open = Decoder::with_stream(video());
    assert_eq!(open.request(), DecoderRequest::FindDecoder(27));
    assert!(!open.holds_context());
}

#[test]
fn an_unregistered_codec_is_not_found() {
    let stream = Stream::wrap(0, CodecParamsView { codec_type: 0, codec_id: 999999 });
    let open = Decoder::with_stream(stream);
    assert_eq!(open.request(), DecoderRequest::FindDecoder(999999));
    assert_eq!(failure(open.advance(EngineReply::Object(false))), DecoderOpenError::NotFound);
}

#[test]
fn a_failed_allocation_fails_the_opening() {
    let open = Decoder::with_stream(video());
    let open = pending(open.advance(EngineReply::Object(true)));
    assert_eq!(open.request(), DecoderRequest::AllocContext);
    assert!(!open.holds_context());
    assert_eq!(failure(open.advance(EngineReply::Object(false))), DecoderOpenError::AllocFailed);
}

#[test]
fn a_failed_copy_frees_the_context_and_keeps_the_code() {
    let open = Decoder::with_stream(video());
    let open = pending(open.advance(EngineReply::Object(true)));
    let open = pending(open.advance(EngineReply::Object(true)));
    assert_eq!(open.request(), DecoderRequest::CopyParameters);
    assert!(open.holds_context());
    let open = pending(open.advance(EngineReply::Code(-22)));
    assert_eq!(open.request(), DecoderRequest::FreeContext);
    assert!(open.holds_context());
    assert_eq!(
        failure(open.advance(EngineReply::Released)),
        DecoderOpenError::ParamCopyFailed(-22)
    );
}

#[test]
fn a_failed_initialisation_frees_the_context_and_keeps_the_code() {
    let open = Decoder::with_stream(video());
    let open = pending(open.advance(EngineReply::Object(true)));
    let open = pending(open.advance(EngineReply::Object(true)));
    let open = pending(open.advance(EngineReply::Code(0)));
    assert_eq!(open.request(), DecoderRequest::OpenCodec);
    let open = pending(open.advance(EngineReply::Code(AVERROR_DECODER_NOT_FOUND)));
    assert_eq!(open.request(), DecoderRequest::FreeContext);
    assert_eq!(
        failure(open.advance(EngineReply::Released)),
        DecoderOpenError::OpenFailed(AVERROR_DECODER_NOT_FOUND)
    );
}

#[test]
fn an_opened_decoder_is_bound_to_its_track_and_open() {
    let decoder = opened();
    assert_eq!(decoder.stream(), video());
    assert_eq!(decoder.signals(), Signals::with_errno(11));
    assert!(!decoder.is_flushed());
}

#[test]
fn a_decoder_opened_on_this_machine_has_its_signals() {
    let open = Decoder::with_stream(video());
    let open = pending(open.advance(EngineReply::Object(true)));
    let open = pending(open.advance(EngineReply::Object(true)));
    let open = pending(open.advance(EngineReply::Code(0)));
    let mut decoder = done(open.advance(EngineReply::Code(0))).unwrap();
    assert_eq!(decoder.signals(), Signals::platform());
    assert_eq!(decoder.enqueue_packet(-libc::EAGAIN), SendStatus::Busy);
}

#[test]
fn stray_answers_do_not_move_the_opening() {
    let open = Decoder::with_stream(video());
    let open = pending(open.advance(EngineReply::Code(0)));
    let open = pending(open.advance(EngineReply::Released));
    assert_eq!(open.request(), DecoderRequest::FindDecoder(27));
    let open = pending(open.advance(EngineReply::Object(true)));
    let open = pending(open.advance(EngineReply::Code(-1)));
    assert_eq!(open.request(), DecoderRequest::AllocContext);
    let open = pending(open.advance(EngineReply::Object(true)));
    let open = pending(open.advance(EngineReply::Object(false)));
    let open = pending(open.advance(EngineReply::Released));
    assert_eq!(open.request(), DecoderRequest::CopyParameters);
    let open = pending(open.advance(EngineReply::Code(-1)));
    let open = pending(open.advance(EngineReply::Code(0)));
    let open = pending(open.advance(EngineReply::Object(true)));
    assert_eq!(open.request(), DecoderRequest::FreeContext);
    assert_eq!(failure(open.advance(EngineReply::Released)), DecoderOpenError::ParamCopyFailed(-1));
}

#[test]
fn send_codes_are_read_as_statuses() {
    let signals = Signals::with_errno(11);
    assert_eq!(SendStatus::from_code(&signals, 0), SendStatus::Accepted);
    assert_eq!(SendStatus::from_code(&signals, 3), SendStatus::Accepted);
    assert_eq!(SendStatus::from_code(&signals, -11), SendStatus::Busy);
    assert_eq!(SendStatus::from_code(&signals, AVERROR_EOF), SendStatus::Flushed);
    assert_eq!(
        SendStatus::from_code(&signals, AVERROR_INVALIDDATA),
        SendStatus::Error(AVERROR_INVALIDDATA)
    );
    assert_eq!(SendStatus::from_code(&signals, -35), SendStatus::Error(-35));
    assert_eq!(SendStatus::from_code(&Signals::with_errno(35), -35), SendStatus::Busy);
    assert_eq!(SendStatus::from_code(&Signals::with_errno(35), -11), SendStatus::Error(-11));
}

#[test]
fn receive_codes_are_read_as_statuses() {
    let signals = Signals::with_errno(11);
    assert_eq!(ReceiveStatus::from_code(&signals, 0), ReceiveStatus::Ready);
    assert_eq!(ReceiveStatus::from_code(&signals, -11), ReceiveStatus::NeedsInput);
    assert_eq!(ReceiveStatus::from_code(&signals, AVERROR_EOF), ReceiveStatus::Flushed);
    assert_eq!(ReceiveStatus::from_code(&signals, -1), ReceiveStatus::Error(-1));
    assert_eq!(ReceiveStatus::from_code(&signals, i32::MIN), ReceiveStatus::Error(i32::MIN));
}

#[test]
fn an_open_decoder_reports_what_the_engine_answers() {
    let mut decoder = opened();
    assert_eq!(decoder.enqueue_packet(0), SendStatus::Accepted);
    assert_eq!(decoder.enqueue_packet(-11), SendStatus::Busy);
    assert_eq!(decoder.enqueue_packet(-5), SendStatus::Error(-5));
    assert!(!decoder.is_flushed());
    assert_eq!(decoder.enqueue_packet(0), SendStatus::Accepted);
}

#[test]
fn a_ready_frame_is_filled_with_what_was_decoded() {
    let mut decoder = opened();
    let mut frame = Frame::new();
    let decoded = picture(1024, 512);
    assert_eq!(decoder.dequeue_frame(&mut frame, 0, &decoded), ReceiveStatus::Ready);
    assert!(frame.is_buffered());
    assert_eq!(frame.info(), decoded);
    assert_eq!(frame.pts(), 1024);
    assert_eq!(frame.duration(), 512);
}

#[test]
fn a_frame_is_empty_unless_it_is_ready() {
    let mut decoder = opened();
    let mut frame = Frame::new();
    let decoded = picture(1024, 512);
    assert_eq!(decoder.dequeue_frame(&mut frame, 0, &decoded), ReceiveStatus::Ready);
    assert_eq!(decoder.dequeue_frame(&mut frame, -11, &decoded), ReceiveStatus::NeedsInput);
    assert!(!frame.is_buffered());
    assert_eq!(frame.info(), Frame::new().info());
    assert_eq!(decoder.dequeue_frame(&mut frame, 0, &decoded), ReceiveStatus::Ready);
    assert_eq!(decoder.dequeue_frame(&mut frame, -5, &decoded), ReceiveStatus::Error(-5));
    assert!(!frame.is_buffered());
    assert!(!decoder.is_flushed());
}

#[test]
fn end_of_stream_on_receive_finishes_the_decoder() {
    let mut decoder = opened();
    let mut frame = Frame::new();
    let decoded = picture(0, 0);
    assert_eq!(decoder.dequeue_frame(&mut frame, AVERROR_EOF, &decoded), ReceiveStatus::Flushed);
    assert!(decoder.is_flushed());
    assert!(!frame.is_buffered());
    assert_eq!(decoder.enqueue_packet(0), SendStatus::Flushed);
}

#[test]
fn end_of_stream_on_send_finishes_the_decoder() {
    let mut decoder = opened();
    let mut frame = Frame::new();
    assert_eq!(decoder.enqueue_packet(AVERROR_EOF), SendStatus::Flushed);
    assert!(decoder.is_flushed());
    assert_eq!(decoder.dequeue_frame(&mut frame, 0, &picture(1, 1)), ReceiveStatus::Flushed);
    assert!(!frame.is_buffered());
}

#[test]
fn a_flushed_decoder_says_flushed_for_ever() {
    let mut decoder = opened();
    let mut frame = Frame::new();
    let decoded = picture(7, 7);
    assert_eq!(decoder.dequeue_frame(&mut frame, AVERROR_EOF, &decoded), ReceiveStatus::Flushed);
    for code in [0, 1, -11, -5, AVERROR_EOF, i32::MIN, i32::MAX, 0, 0] {
        assert_eq!(decoder.dequeue_frame(&mut frame, code, &decoded), ReceiveStatus::Flushed);
        assert!(decoder.is_flushed());
        assert!(!frame.is_buffered());
        assert_eq!(decoder.enqueue_packet(code), SendStatus::Flushed);
        assert!(decoder.is_flushed());
    }
    assert_eq!(decoder.stream(), video());
}
