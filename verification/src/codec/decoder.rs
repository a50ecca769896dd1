//! The decoder of one track: how it is opened, and the protocol by which
//! packets go in and frames come out.
//!
//! The engine does the decoding. This module decides: what to ask of the
//! engine while a decoder is opened, what each of its answers means, and
//! what state the decoder is in afterwards.

use crate::engine::{CallPlan, EngineReply};
use crate::ff_error::{Signals, AVERROR_EOF};
use crate::format::stream::Stream;
use crate::frame::frame::{Frame, FrameInfo, FrameState};
use vstd::prelude::*;

verus! {

/// What became of a packet that was submitted to a decoder.
#[derive(Clone, Copy, Debug, PartialEq, Eq, Structural)]
pub enum SendStatus {
    /// The packet is queued.
    Accepted,
    /// The engine's queue is full: drain frames, then submit the same packet again.
    Busy,
    /// The decoder is finished and takes no more packets.
    Flushed,
    /// The engine refused the packet with this code.
    Error(i32),
}

/// What became of an attempt to take a frame from a decoder.
#[derive(Clone, Copy, Debug, PartialEq, Eq, Structural)]
pub enum ReceiveStatus {
    /// The frame is filled.
    Ready,
    /// No frame yet: submit more packets first.
    NeedsInput,
    /// The decoder is finished and drained: no frame will come any more.
    Flushed,
    /// The engine failed with this code.
    Error(i32),
}

/// Why a decoder could not be opened.
#[derive(Clone, Copy, Debug, PartialEq, Eq, Structural)]
pub enum DecoderOpenError {
    /// The engine has no decoder for the track's codec.
    NotFound,
    /// The engine could not allocate a decoder context.
    AllocFailed,
    /// The engine could not take over the track's codec parameters.
    ParamCopyFailed(i32),
    /// The engine could not initialise the decoder.
    OpenFailed(i32),
}

/// What the engine's answer `code` to a submitted packet means.
pub open spec fn send_status_of(signals: Signals, code: i32) -> SendStatus {
    if code >= 0 {
        SendStatus::Accepted
    } else if code == signals.end_of_stream() {
        SendStatus::Flushed
    } else if code == signals.retry() {
        SendStatus::Busy
    } else {
        SendStatus::Error(code)
    }
}

/// What the engine's answer `code` to a request for a frame means.
pub open spec fn receive_status_of(signals: Signals, code: i32) -> ReceiveStatus {
    if code >= 0 {
        ReceiveStatus::Ready
    } else if code == signals.end_of_stream() {
        ReceiveStatus::Flushed
    } else if code == signals.retry() {
        ReceiveStatus::NeedsInput
    } else {
        ReceiveStatus::Error(code)
    }
}

impl SendStatus {
    /// Reads the engine's answer to a submitted packet.
    pub fn from_code(signals: &Signals, code: i32) -> (status: SendStatus)
        ensures
            status == send_status_of(*signals, code),
    {
        if code >= 0 {
            SendStatus::Accepted
        } else if code == AVERROR_EOF {
            SendStatus::Flushed
        } else if signals.is_retry_signal(code) {
            SendStatus::Busy
        } else {
            SendStatus::Error(code)
        }
    }
}

impl ReceiveStatus {
    /// Reads the engine's answer to a request for a frame.
    pub fn from_code(signals: &Signals, code: i32) -> (status: ReceiveStatus)
        ensures
            status == receive_status_of(*signals, code),
    {
        if code >= 0 {
            ReceiveStatus::Ready
        } else if code == AVERROR_EOF {
            ReceiveStatus::Flushed
        } else if signals.is_retry_signal(code) {
            ReceiveStatus::NeedsInput
        } else {
            ReceiveStatus::Error(code)
        }
    }
}

/// A status is an error exactly when the code is a genuine failure, and it
/// then carries the code unchanged. So neither signal is ever taken for a
/// failure, nor a failure for a signal or for success.
pub proof fn errors_are_failures(signals: Signals, code: i32)
    ensures
        send_status_of(signals, code) is Error <==> signals.failure(code),
        receive_status_of(signals, code) is Error <==> signals.failure(code),
        signals.failure(code) ==> send_status_of(signals, code) == SendStatus::Error(code),
        signals.failure(code) ==> receive_status_of(signals, code) == ReceiveStatus::Error(code),
        send_status_of(signals, code) is Accepted <==> code >= 0,
        receive_status_of(signals, code) is Ready <==> code >= 0,
{
}

/// What a decoder is, to a contract: the track it is bound to, the signals
/// it reads the engine's answers by, and whether it is finished.
pub struct DecoderView {
    pub stream: Stream,
    pub signals: Signals,
    pub flushed: bool,
}

impl DecoderView {
    /// The status that a packet submitted now gets, when the engine answers `code`.
    /// A finished decoder does not hear the engine.
    pub open spec fn send_status(self, code: i32) -> SendStatus {
        if self.flushed {
            SendStatus::Flushed
        } else {
            send_status_of(self.signals, code)
        }
    }

    /// The status that a request for a frame made now gets, when the engine
    /// answers `code`. A finished decoder does not hear the engine.
    pub open spec fn receive_status(self, code: i32) -> ReceiveStatus {
        if self.flushed {
            ReceiveStatus::Flushed
        } else {
            receive_status_of(self.signals, code)
        }
    }

    /// The decoder after a packet was submitted and the engine answered `code`:
    /// finished from then on exactly if it was before or the status is `Flushed`.
    pub open spec fn after_send(self, code: i32) -> DecoderView {
        DecoderView { flushed: self.send_status(code) is Flushed, ..self }
    }

    /// The decoder after a frame was asked for and the engine answered `code`.
    pub open spec fn after_receive(self, code: i32) -> DecoderView {
        DecoderView { flushed: self.receive_status(code) is Flushed, ..self }
    }
}

/// The frame after it was offered to a decoder that gave `status`: filled
/// with what the engine decoded when the status is `Ready`, empty otherwise.
pub open spec fn frame_after(status: ReceiveStatus, decoded: FrameInfo) -> FrameState {
    if status is Ready {
        FrameState::filled(decoded)
    } else {
        FrameState::blank()
    }
}

/// The owner of one decoder context of the engine, bound to the codec
/// parameters of one track. It is open until the engine signals the end of
/// the stream, and finished ever after.
#[derive(Debug)]
pub struct Decoder {
    stream: Stream,
    signals: Signals,
    flushed: bool,
}

impl View for Decoder {
    type V = DecoderView;

    closed spec fn view(&self) -> DecoderView {
        DecoderView { stream: self.stream, signals: self.signals, flushed: self.flushed }
    }
}

impl Decoder {
    /// The track the decoder is bound to.
    pub fn stream(&self) -> (stream: Stream)
        ensures
            stream == self@.stream,
    {
        self.stream
    }

    /// The signals by which the decoder reads the engine's answers.
    pub fn signals(&self) -> (signals: Signals)
        ensures
            signals == self@.signals,
    {
        self.signals
    }

    /// Whether the decoder is finished. The engine need not be asked any
    /// more then: the answer is `Flushed` whatever it says.
    pub fn is_flushed(&self) -> (b: bool)
        ensures
            b == self@.flushed,
    {
        self.flushed
    }

    /// What to do with the engine to submit a packet: make the call, unless
    /// the decoder is finished. The packet keeps what it holds.
    pub fn send_plan(&self) -> (plan: CallPlan)
        ensures
            plan == (CallPlan { unref: false, call: !self@.flushed }),
    {
        CallPlan { unref: false, call: !self.flushed }
    }

    /// What to do with the engine to take a frame into `frame`: drop what
    /// the frame holds, and make the call, unless the decoder is finished.
    pub fn receive_plan(&self, frame: &Frame) -> (plan: CallPlan)
        ensures
            plan == (CallPlan { unref: frame@.buffered, call: !self@.flushed }),
    {
        CallPlan { unref: frame.is_buffered(), call: !self.flushed }
    }

    /// Takes the engine's answer `code` to one submitted packet, and says
    /// what became of the packet.
    ///
    /// On `Busy` the packet was not taken: frames are to be drained with
    /// `dequeue_frame` until it says `NeedsInput`, and the same packet
    /// submitted again.
    pub fn enqueue_packet(&mut self, code: i32) -> (status: SendStatus)
        ensures
            status == old(self)@.send_status(code),
            final(self)@ == old(self)@.after_send(code),
    {
        if self.flushed {
            return SendStatus::Flushed;
        }
        let status: SendStatus = SendStatus::from_code(&self.signals, code);
        if let SendStatus::Flushed = status {
            self.flushed = true;
        }
        status
    }

    /// Takes the engine's answer `code` to one request for a frame, with the
    /// fields `decoded` of what it decoded, and says what became of the
    /// request. The frame is filled on `Ready` and empty otherwise.
    pub fn dequeue_frame(&mut self, frame: &mut Frame, code: i32, decoded: &FrameInfo) -> (status:
        ReceiveStatus)
        ensures
            status == old(self)@.receive_status(code),
            final(self)@ == old(self)@.after_receive(code),
            final(frame)@ == frame_after(status, *decoded),
    {
        let status: ReceiveStatus = if self.flushed {
            ReceiveStatus::Flushed
        } else {
            ReceiveStatus::from_code(&self.signals, code)
        };
        match status {
            ReceiveStatus::Ready => {
                frame.fill(decoded);
            },
            ReceiveStatus::Flushed => {
                self.flushed = true;
                frame.unref();
            },
            _ => {
                frame.unref();
            },
        }
        status
    }
}

/// What is asked of the engine next while a decoder is opened.
#[derive(Clone, Copy, Debug, PartialEq, Eq, Structural)]
pub enum DecoderRequest {
    /// Look up the decoder for the codec with this number.
    FindDecoder(u32),
    /// Allocate a context for the decoder that was found.
    AllocContext,
    /// Copy the track's codec parameters into the context.
    CopyParameters,
    /// Initialise the decoder in the context.
    OpenCodec,
    /// Free the context.
    FreeContext,
}

/// How far the opening of a decoder has come.
#[derive(Clone, Copy, Debug, PartialEq, Eq, Structural)]
pub enum DecoderStage {
    /// The decoder is being looked up. No context exists.
    Finding,
    /// The context is being allocated.
    Allocating,
    /// The context exists; the codec parameters are being copied into it.
    Copying,
    /// The context exists; the decoder is being initialised.
    Opening,
    /// A step has failed with this error; the context is being freed.
    Releasing(DecoderOpenError),
}

/// What an opening is, to a contract.
pub struct DecoderOpenView {
    pub stream: Stream,
    pub signals: Signals,
    pub stage: DecoderStage,
}

/// What an answer of the engine makes of an opening.
pub enum DecoderOutcome {
    /// The opening goes on, in this state.
    Pending(DecoderOpenView),
    /// The decoder is open. The context is now its own.
    Opened(DecoderView),
    /// The opening has failed. No context is left.
    Failed(DecoderOpenError),
}

impl DecoderOpenView {
    /// The opening of a decoder for `stream`, before anything was asked.
    pub open spec fn start(stream: Stream, signals: Signals) -> DecoderOpenView {
        DecoderOpenView { stream, signals, stage: DecoderStage::Finding }
    }

    /// The opening at another stage.
    pub open spec fn at(self, stage: DecoderStage) -> DecoderOpenView {
        DecoderOpenView { stage, ..self }
    }

    /// What is asked of the engine in this state.
    pub open spec fn request(self) -> DecoderRequest {
        match self.stage {
            DecoderStage::Finding => DecoderRequest::FindDecoder(self.stream.spec_codecpar().codec_id),
            DecoderStage::Allocating => DecoderRequest::AllocContext,
            DecoderStage::Copying => DecoderRequest::CopyParameters,
            DecoderStage::Opening => DecoderRequest::OpenCodec,
            DecoderStage::Releasing(_) => DecoderRequest::FreeContext,
        }
    }

    /// Whether a context of the engine exists in this state, which somebody
    /// has to free or to own.
    pub open spec fn holds_context(self) -> bool {
        self.stage is Copying || self.stage is Opening || self.stage is Releasing
    }

    /// Whether `reply` is an answer to what is asked in this state: an
    /// object or nothing to a lookup or an allocation, a code to a call, and
    /// the release to the freeing.
    pub open spec fn answered_by(self, reply: EngineReply) -> bool {
        match self.stage {
            DecoderStage::Finding | DecoderStage::Allocating => reply is Object,
            DecoderStage::Copying | DecoderStage::Opening => reply is Code,
            DecoderStage::Releasing(_) => reply is Released,
        }
    }

    /// What the answer `reply` makes of this state. An answer to something
    /// that was not asked changes nothing.
    pub open spec fn next(self, reply: EngineReply) -> DecoderOutcome {
        match self.stage {
            DecoderStage::Finding => match reply {
                EngineReply::Object(true) => DecoderOutcome::Pending(
                    self.at(DecoderStage::Allocating),
                ),
                EngineReply::Object(false) => DecoderOutcome::Failed(DecoderOpenError::NotFound),
                _ => DecoderOutcome::Pending(self),
            },
            DecoderStage::Allocating => match reply {
                EngineReply::Object(true) => DecoderOutcome::Pending(self.at(DecoderStage::Copying)),
                EngineReply::Object(false) => DecoderOutcome::Failed(
                    DecoderOpenError::AllocFailed,
                ),
                _ => DecoderOutcome::Pending(self),
            },
            DecoderStage::Copying => match reply {
                EngineReply::Code(code) => if code < 0 {
                    DecoderOutcome::Pending(
                        self.at(DecoderStage::Releasing(DecoderOpenError::ParamCopyFailed(code))),
                    )
                } else {
                    DecoderOutcome::Pending(self.at(DecoderStage::Opening))
                },
                _ => DecoderOutcome::Pending(self),
            },
            DecoderStage::Opening => match reply {
                EngineReply::Code(code) => if code < 0 {
                    DecoderOutcome::Pending(
                        self.at(DecoderStage::Releasing(DecoderOpenError::OpenFailed(code))),
                    )
                } else {
                    DecoderOutcome::Opened(
                        DecoderView { stream: self.stream, signals: self.signals, flushed: false },
                    )
                },
                _ => DecoderOutcome::Pending(self),
            },
            DecoderStage::Releasing(error) => match reply {
                EngineReply::Released => DecoderOutcome::Failed(error),
                _ => DecoderOutcome::Pending(self),
            },
        }
    }

    /// What the answers `replies`, taken in order, make of this state. Once
    /// the opening has ended, further answers are not heard.
    pub open spec fn run(self, replies: Seq<EngineReply>) -> DecoderOutcome
        decreases replies.len(),
    {
        if replies.len() == 0 {
            DecoderOutcome::Pending(self)
        } else {
            match self.next(replies.first()) {
                DecoderOutcome::Pending(then) => then.run(replies.drop_first()),
                ended => ended,
            }
        }
    }
}

/// The opening of a decoder, between the first request to the engine and
/// the last answer. It says what to ask next; each answer moves it on, until
/// it ends in a decoder or in an error.
#[derive(Debug)]
pub struct DecoderOpen {
    stream: Stream,
    signals: Signals,
    stage: DecoderStage,
}

impl View for DecoderOpen {
    type V = DecoderOpenView;

    closed spec fn view(&self) -> DecoderOpenView {
        DecoderOpenView { stream: self.stream, signals: self.signals, stage: self.stage }
    }
}

/// What an answer of the engine has made of an opening.
#[derive(Debug)]
pub enum DecoderOpenStep {
    /// The opening goes on: ask what it asks for.
    Pending(DecoderOpen),
    /// The opening has ended, in the decoder or in the reason why there is none.
    Done(Result<Decoder, DecoderOpenError>),
}

impl View for DecoderOpenStep {
    type V = DecoderOutcome;

    open spec fn view(&self) -> DecoderOutcome {
        match *self {
            DecoderOpenStep::Pending(open) => DecoderOutcome::Pending(open@),
            DecoderOpenStep::Done(Ok(decoder)) => DecoderOutcome::Opened(decoder@),
            DecoderOpenStep::Done(Err(error)) => DecoderOutcome::Failed(error),
        }
    }
}

impl Decoder {
    /// Begins to open a decoder for the track `stream`, with the signals of
    /// the machine. Nothing has been asked of the engine yet.
    pub fn with_stream(stream: Stream) -> (open: DecoderOpen)
        ensures
            open@.stream == stream,
            open@.stage == DecoderStage::Finding,
            open@.signals.retry() > i32::MIN,
    {
        DecoderOpen { stream, signals: Signals::platform(), stage: DecoderStage::Finding }
    }

    /// Begins to open a decoder for the track `stream`, for an engine with
    /// the signals `signals`.
    pub fn with_stream_and_signals(stream: Stream, signals: Signals) -> (open: DecoderOpen)
        ensures
            open@ == DecoderOpenView::start(stream, signals),
    {
        DecoderOpen { stream, signals, stage: DecoderStage::Finding }
    }
}

impl DecoderOpen {
    /// What to ask of the engine now.
    pub fn request(&self) -> (request: DecoderRequest)
        ensures
            request == self@.request(),
    {
        match self.stage {
            DecoderStage::Finding => DecoderRequest::FindDecoder(self.stream.codecpar().codec_id),
            DecoderStage::Allocating => DecoderRequest::AllocContext,
            DecoderStage::Copying => DecoderRequest::CopyParameters,
            DecoderStage::Opening => DecoderRequest::OpenCodec,
            DecoderStage::Releasing(_) => DecoderRequest::FreeContext,
        }
    }

    /// Whether a context of the engine exists now.
    pub fn holds_context(&self) -> (b: bool)
        ensures
            b == self@.holds_context(),
    {
        match self.stage {
            DecoderStage::Finding => false,
            DecoderStage::Allocating => false,
            _ => true,
        }
    }

    fn at(self, stage: DecoderStage) -> (step: DecoderOpenStep)
        ensures
            step@ == DecoderOutcome::Pending(self@.at(stage)),
    {
        DecoderOpenStep::Pending(
            DecoderOpen { stream: self.stream, signals: self.signals, stage },
        )
    }

    /// Takes the engine's answer to the request and moves on.
    pub fn advance(self, reply: EngineReply) -> (step: DecoderOpenStep)
        ensures
            step@ == self@.next(reply),
    {
        match self.stage {
            DecoderStage::Finding => match reply {
                EngineReply::Object(true) => self.at(DecoderStage::Allocating),
                EngineReply::Object(false) => DecoderOpenStep::Done(Err(DecoderOpenError::NotFound)),
                _ => DecoderOpenStep::Pending(self),
            },
            DecoderStage::Allocating => match reply {
                EngineReply::Object(true) => self.at(DecoderStage::Copying),
                EngineReply::Object(false) => DecoderOpenStep::Done(
                    Err(DecoderOpenError::AllocFailed),
                ),
                _ => DecoderOpenStep::Pending(self),
            },
            DecoderStage::Copying => match reply {
                EngineReply::Code(code) => if code < 0 {
                    self.at(DecoderStage::Releasing(DecoderOpenError::ParamCopyFailed(code)))
                } else {
                    self.at(DecoderStage::Opening)
                },
                _ => DecoderOpenStep::Pending(self),
            },
            DecoderStage::Opening => match reply {
                EngineReply::Code(code) => if code < 0 {
                    self.at(DecoderStage::Releasing(DecoderOpenError::OpenFailed(code)))
                } else {
                    DecoderOpenStep::Done(
                        Ok(Decoder { stream: self.stream, signals: self.signals, flushed: false }),
                    )
                },
                _ => DecoderOpenStep::Pending(self),
            },
            DecoderStage::Releasing(error) => match reply {
                EngineReply::Released => DecoderOpenStep::Done(Err(error)),
                _ => DecoderOpenStep::Pending(self),
            },
        }
    }
}

/// The number of contexts that exist at the end of `outcome`: the one of an
/// opening that holds one, the one of an opened decoder, none after a failure.
pub open spec fn contexts_left(outcome: DecoderOutcome) -> nat {
    match outcome {
        DecoderOutcome::Pending(open) => if open.holds_context() {
            1
        } else {
            0
        },
        DecoderOutcome::Opened(_) => 1,
        DecoderOutcome::Failed(_) => 0,
    }
}

impl DecoderOpenView {
    /// How many contexts the engine allocated over `replies`: one for each
    /// allocation that was asked for and returned an object.
    pub open spec fn allocations(self, replies: Seq<EngineReply>) -> nat
        decreases replies.len(),
    {
        if replies.len() == 0 {
            0
        } else {
            let here: nat = if self.stage is Allocating && replies.first() == EngineReply::Object(
                true,
            ) {
                1
            } else {
                0
            };
            match self.next(replies.first()) {
                DecoderOutcome::Pending(then) => here + then.allocations(replies.drop_first()),
                _ => here,
            }
        }
    }

    /// How many contexts the engine freed over `replies`: one for each
    /// freeing that was asked for and carried out.
    pub open spec fn releases(self, replies: Seq<EngineReply>) -> nat
        decreases replies.len(),
    {
        if replies.len() == 0 {
            0
        } else {
            let here: nat = if self.stage is Releasing && replies.first() is Released {
                1
            } else {
                0
            };
            match self.next(replies.first()) {
                DecoderOutcome::Pending(then) => here + then.releases(replies.drop_first()),
                _ => here,
            }
        }
    }

    /// How many of `replies` were answers to what the opening asked when
    /// they came.
    pub open spec fn answers(self, replies: Seq<EngineReply>) -> nat
        decreases replies.len(),
    {
        if replies.len() == 0 {
            0
        } else {
            let here: nat = if self.answered_by(replies.first()) {
                1
            } else {
                0
            };
            match self.next(replies.first()) {
                DecoderOutcome::Pending(then) => here + then.answers(replies.drop_first()),
                _ => here,
            }
        }
    }

    /// How far the opening has come, as a number.
    pub open spec fn rank(self) -> nat {
        match self.stage {
            DecoderStage::Finding => 0,
            DecoderStage::Allocating => 1,
            DecoderStage::Copying => 2,
            DecoderStage::Opening => 3,
            DecoderStage::Releasing(_) => 4,
        }
    }
}

/// Opening a decoder ends in exactly one of five ways, by what the engine
/// answers: no decoder found, no context allocated, parameters not copied,
/// decoder not initialised, or a decoder that is open and bound to the track.
/// After a failed copy or initialisation the context is freed first.
pub proof fn decoder_open_results(stream: Stream, signals: Signals, copy_code: i32, open_code: i32)
    ensures
        DecoderOpenView::start(stream, signals).run(seq![EngineReply::Object(false)])
            == DecoderOutcome::Failed(DecoderOpenError::NotFound),
        DecoderOpenView::start(stream, signals).run(
            seq![EngineReply::Object(true), EngineReply::Object(false)],
        ) == DecoderOutcome::Failed(DecoderOpenError::AllocFailed),
        copy_code < 0 ==> DecoderOpenView::start(stream, signals).run(
            seq![
                EngineReply::Object(true),
                EngineReply::Object(true),
                EngineReply::Code(copy_code),
                EngineReply::Released,
            ],
        ) == DecoderOutcome::Failed(DecoderOpenError::ParamCopyFailed(copy_code)),
        copy_code >= 0 && open_code < 0 ==> DecoderOpenView::start(stream, signals).run(
            seq![
                EngineReply::Object(true),
                EngineReply::Object(true),
                EngineReply::Code(copy_code),
                EngineReply::Code(open_code),
                EngineReply::Released,
            ],
        ) == DecoderOutcome::Failed(DecoderOpenError::OpenFailed(open_code)),
        copy_code >= 0 && open_code >= 0 ==> DecoderOpenView::start(stream, signals).run(
            seq![
                EngineReply::Object(true),
                EngineReply::Object(true),
                EngineReply::Code(copy_code),
                EngineReply::Code(open_code),
            ],
        ) == DecoderOutcome::Opened(DecoderView { stream, signals, flushed: false }),
{
    reveal_with_fuel(DecoderOpenView::run, 6);
}

/// No context is leaked and none is freed twice: over any answers of the
/// engine, from any state of an opening, the contexts that existed at the
/// start and those that were allocated since are exactly those that were
/// freed and those that exist at the end. An opening that has failed leaves
/// none; one that has succeeded leaves the one that the decoder owns.
pub proof fn contexts_are_accounted_for(open: DecoderOpenView, replies: Seq<EngineReply>)
    ensures
        contexts_left(DecoderOutcome::Pending(open)) + open.allocations(replies) == open.releases(
            replies,
        ) + contexts_left(open.run(replies)),
    decreases replies.len(),
{
    if replies.len() > 0 {
        match open.next(replies.first()) {
            DecoderOutcome::Pending(then) => {
                contexts_are_accounted_for(then, replies.drop_first());
            },
            _ => {},
        }
    }
}

/// An opening moves forward only: an answer to what was asked brings it to a
/// later stage or to its end, and any other answer leaves it as it is.
pub proof fn opening_moves_forward(open: DecoderOpenView, reply: EngineReply)
    ensures
        !open.answered_by(reply) ==> open.next(reply) == DecoderOutcome::Pending(open),
        open.answered_by(reply) ==> (open.next(reply) matches DecoderOutcome::Pending(then)
            ==> open.rank() < then.rank() <= 4),
{
}

/// No opening goes on for ever: one that is still going on after `replies`
/// has heard at most four answers to what it asked. The fifth ends it.
pub proof fn opening_ends(open: DecoderOpenView, replies: Seq<EngineReply>)
    ensures
        open.run(replies) matches DecoderOutcome::Pending(then) ==> open.rank() + open.answers(
            replies,
        ) <= then.rank() <= 4,
    decreases replies.len(),
{
    if replies.len() > 0 {
        opening_moves_forward(open, replies.first());
        match open.next(replies.first()) {
            DecoderOutcome::Pending(then) => {
                opening_ends(then, replies.drop_first());
            },
            _ => {},
        }
    }
}

/// One call on a decoder, with the engine's answer.
pub enum DecoderCall {
    /// A packet was submitted, and the engine answered with this code.
    Send(i32),
    /// A frame was asked for, and the engine answered with this code.
    Receive(i32),
}

impl DecoderView {
    /// The decoder after `call`.
    pub open spec fn after(self, call: DecoderCall) -> DecoderView {
        match call {
            DecoderCall::Send(code) => self.after_send(code),
            DecoderCall::Receive(code) => self.after_receive(code),
        }
    }

    /// The decoder after `calls`, in order.
    pub open spec fn after_all(self, calls: Seq<DecoderCall>) -> DecoderView
        decreases calls.len(),
    {
        if calls.len() == 0 {
            self
        } else {
            self.after_all(calls.drop_last()).after(calls.last())
        }
    }
}

/// A finished decoder stays finished: whatever is called on it, however
/// often, and whatever the engine answers, it is unchanged afterwards, and
/// it says `Flushed` to every packet and to every request for a frame.
pub proof fn flushed_is_terminal(decoder: DecoderView, calls: Seq<DecoderCall>)
    requires
        decoder.flushed,
    ensures
        decoder.after_all(calls) == decoder,
        forall|code: i32| #[trigger]
            decoder.after_all(calls).receive_status(code) == ReceiveStatus::Flushed,
        forall|code: i32| #[trigger]
            decoder.after_all(calls).send_status(code) == SendStatus::Flushed,
    decreases calls.len(),
{
    if calls.len() > 0 {
        flushed_is_terminal(decoder, calls.drop_last());
    }
}

/// A decoder is finished from the first `Flushed` on: once some call has
/// left it finished, no later call opens it again.
pub proof fn flushed_is_kept(decoder: DecoderView, calls: Seq<DecoderCall>, more: Seq<DecoderCall>)
    requires
        decoder.after_all(calls).flushed,
    ensures
        decoder.after_all(calls + more).flushed,
    decreases more.len(),
{
    if more.len() == 0 {
        assert(calls + more =~= calls);
    } else {
        flushed_is_kept(decoder, calls, more.drop_last());
        assert((calls + more).drop_last() =~= calls + more.drop_last());
    }
}

} // verus!
