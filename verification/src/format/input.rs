//! The demuxer of one source: how it is opened, its table of tracks, and
//! the reading of packets.
//!
//! The engine does the reading. This module decides: what to ask of the
//! engine while a source is opened, what each of its answers means, and
//! what state the input is in afterwards.

use crate::engine::CallPlan;
use crate::ff_error::AVERROR_EOF;
use crate::format::stream::Stream;
use crate::packet::packet::{Packet, PacketInfo};
use vstd::prelude::*;

verus! {

/// What became of an attempt to read a packet.
#[derive(Clone, Copy, Debug, PartialEq, Eq, Structural)]
pub enum DemuxStatus {
    /// The packet is filled.
    Success,
    /// The source is exhausted: no read will succeed any more.
    EndOfStream,
    /// The engine failed with this code.
    Error(i32),
}

/// Why a source could not be opened.
#[derive(Clone, Copy, Debug, PartialEq, Eq, Structural)]
pub enum OpenError {
    /// The engine could not allocate a demuxer context.
    ContextAllocFailed,
    /// The engine could not open the source.
    OpenFailed(i32),
    /// The engine could not find out what tracks the source has.
    ProbeFailed(i32),
}

/// What the engine's answer `code` to a read means.
pub open spec fn demux_status_of(code: i32) -> DemuxStatus {
    if code >= 0 {
        DemuxStatus::Success
    } else if code == AVERROR_EOF {
        DemuxStatus::EndOfStream
    } else {
        DemuxStatus::Error(code)
    }
}

impl DemuxStatus {
    /// Reads the engine's answer to a read.
    pub fn from_code(code: i32) -> (status: DemuxStatus)
        ensures
            status == demux_status_of(code),
    {
        if code >= 0 {
            DemuxStatus::Success
        } else if code == AVERROR_EOF {
            DemuxStatus::EndOfStream
        } else {
            DemuxStatus::Error(code)
        }
    }
}

/// What an input is, to a contract: the source it reads, the tracks that
/// the probe found, in the engine's order, and whether it is exhausted.
pub struct InputView {
    pub url: Seq<char>,
    pub streams: Seq<Stream>,
    pub exhausted: bool,
}

impl InputView {
    /// The track at `index`, if there is one.
    pub open spec fn stream(self, index: int) -> Option<Stream> {
        if 0 <= index < self.streams.len() {
            Some(self.streams[index])
        } else {
            None
        }
    }

    /// What the input hears when the engine answers a read with `code`: the
    /// end of the stream once it is exhausted, the engine's answer before.
    pub open spec fn heard(self, code: i32) -> i32 {
        if self.exhausted {
            AVERROR_EOF
        } else {
            code
        }
    }

    /// The status that a read made now gets, when the engine answers `code`.
    pub open spec fn read_status(self, code: i32) -> DemuxStatus {
        demux_status_of(self.heard(code))
    }

    /// The input after a read that the engine answered with `code`:
    /// exhausted from then on exactly if the status is `EndOfStream`.
    pub open spec fn after_read(self, code: i32) -> InputView {
        InputView { exhausted: self.read_status(code) is EndOfStream, ..self }
    }

    /// The input after reads that the engine answered with `codes`, in order.
    pub open spec fn after_reads(self, codes: Seq<i32>) -> InputView
        decreases codes.len(),
    {
        if codes.len() == 0 {
            self
        } else {
            self.after_reads(codes.drop_last()).after_read(codes.last())
        }
    }
}

/// The owner of one demuxer context of the engine, opened on one source and
/// probed. Its table of tracks does not change.
#[derive(Debug)]
pub struct Input {
    url: String,
    streams: Vec<Stream>,
    exhausted: bool,
}

impl View for Input {
    type V = InputView;

    closed spec fn view(&self) -> InputView {
        InputView { url: self.url@, streams: self.streams@, exhausted: self.exhausted }
    }
}

impl Input {
    #[verifier::type_invariant]
    spec fn table_fits(self) -> bool {
        self.streams@.len() <= u32::MAX
    }

    /// The source that the input reads.
    pub fn url(&self) -> (url: &str)
        ensures
            url@ == self@.url,
    {
        self.url.as_str()
    }

    /// Whether the source is exhausted. The engine need not be asked any
    /// more then: the answer is `EndOfStream` whatever it says.
    pub fn is_exhausted(&self) -> (b: bool)
        ensures
            b == self@.exhausted,
    {
        self.exhausted
    }

    /// The number of tracks that the probe found.
    pub fn get_stream_count(&self) -> (count: u32)
        ensures
            count == self@.streams.len(),
    {
        proof {
            use_type_invariant(self);
        }
        self.streams.len() as u32
    }

    /// The track at `index`: `None` exactly when `index` is not below the
    /// number of tracks.
    pub fn get_stream(&self, index: u32) -> (stream: Option<Stream>)
        ensures
            stream == self@.stream(index as int),
    {
        if (index as usize) < self.streams.len() {
            Some(self.streams[index as usize])
        } else {
            None
        }
    }

    /// What to do with the engine to read into `out`: drop what the packet
    /// holds, and make the call, unless the source is exhausted.
    pub fn read_plan(&self, out: &Packet) -> (plan: CallPlan)
        ensures
            plan == (CallPlan { unref: out@.buffered, call: !self@.exhausted }),
    {
        CallPlan { unref: out.is_buffered(), call: !self.exhausted }
    }

    /// Takes the engine's answer `code` to one read into `out`, with the
    /// fields `info` of the packet it read, and says what became of the read.
    ///
    /// Whatever `out` held before is given up, as `read_plan` has asked. It
    /// holds the new packet on `Success` and nothing otherwise.
    pub fn read_packet(&mut self, out: &mut Packet, code: i32, info: &PacketInfo) -> (status:
        DemuxStatus)
        ensures
            status == old(self)@.read_status(code),
            final(self)@ == old(self)@.after_read(code),
            final(out)@ == old(out)@.after_read(old(self)@.heard(code), *info),
    {
        proof {
            use_type_invariant(&*self);
        }
        let heard: i32 = if self.exhausted {
            AVERROR_EOF
        } else {
            code
        };
        let status: DemuxStatus = DemuxStatus::from_code(heard);
        if let DemuxStatus::EndOfStream = status {
            self.exhausted = true;
        }
        out.refill(heard, info);
        status
    }
}

/// The table of tracks is what the count and the lookup say it is: the
/// lookup finds a track at every index below the count, the one at that
/// place of the table, and none at the count or above.
pub proof fn stream_table_is_consistent(input: InputView)
    ensures
        forall|i: int| 0 <= i < input.streams.len() ==> #[trigger] input.stream(i) == Some(
            input.streams[i],
        ),
        forall|i: int| i >= input.streams.len() ==> #[trigger] input.stream(i) is None,
        input.stream(input.streams.len() as int) is None,
{
}

/// An exhausted input stays exhausted: whatever the engine answers to
/// further reads, it is unchanged afterwards, and says `EndOfStream` to each.
pub proof fn exhausted_is_terminal(input: InputView, codes: Seq<i32>)
    requires
        input.exhausted,
    ensures
        input.after_reads(codes) == input,
        forall|code: i32| #[trigger]
            input.after_reads(codes).read_status(code) == DemuxStatus::EndOfStream,
    decreases codes.len(),
{
    if codes.len() > 0 {
        exhausted_is_terminal(input, codes.drop_last());
    }
}

/// An answer of the engine to a request made while a source is opened.
#[derive(Debug)]
pub enum InputReply {
    /// An allocation has returned: an object (`true`) or nothing.
    Object(bool),
    /// A call has returned this result code.
    Code(i32),
    /// The probe has returned this result code, and the source has these
    /// tracks, in the engine's order.
    Probed(i32, Vec<Stream>),
    /// What was to be closed has been closed.
    Released,
}

/// What an answer of the engine is, to a contract.
pub enum InputReplyView {
    Object(bool),
    Code(i32),
    Probed(i32, Seq<Stream>),
    Released,
}

impl View for InputReply {
    type V = InputReplyView;

    open spec fn view(&self) -> InputReplyView {
        match *self {
            InputReply::Object(found) => InputReplyView::Object(found),
            InputReply::Code(code) => InputReplyView::Code(code),
            InputReply::Probed(code, streams) => InputReplyView::Probed(code, streams@),
            InputReply::Released => InputReplyView::Released,
        }
    }
}

/// What is asked of the engine next while a source is opened.
#[derive(Clone, Copy, Debug, PartialEq, Eq, Structural)]
pub enum InputRequest {
    /// Allocate a demuxer context.
    AllocContext,
    /// Open the source in the context.
    OpenSource,
    /// Find out what tracks the source has.
    ProbeStreams,
    /// Close the source and free the context.
    CloseContext,
}

/// How far the opening of a source has come.
#[derive(Clone, Copy, Debug, PartialEq, Eq, Structural)]
pub enum InputStage {
    /// The context is being allocated.
    Allocating,
    /// The context exists; the source is being opened.
    Opening,
    /// The source is open; its tracks are being probed.
    Probing,
    /// A step has failed with this error; the context is being closed.
    Releasing(OpenError),
}

/// What an opening is, to a contract.
pub struct InputOpenView {
    pub url: Seq<char>,
    pub stage: InputStage,
}

/// What an answer of the engine makes of an opening.
pub enum InputOutcome {
    /// The opening goes on, in this state.
    Pending(InputOpenView),
    /// The source is open and probed. The context is now the input's own.
    Opened(InputView),
    /// The opening has failed. No context is left.
    Failed(OpenError),
}

impl InputOpenView {
    /// The opening of `url`, before anything was asked.
    pub open spec fn start(url: Seq<char>) -> InputOpenView {
        InputOpenView { url, stage: InputStage::Allocating }
    }

    /// The opening at another stage.
    pub open spec fn at(self, stage: InputStage) -> InputOpenView {
        InputOpenView { stage, ..self }
    }

    /// What is asked of the engine in this state.
    pub open spec fn request(self) -> InputRequest {
        match self.stage {
            InputStage::Allocating => InputRequest::AllocContext,
            InputStage::Opening => InputRequest::OpenSource,
            InputStage::Probing => InputRequest::ProbeStreams,
            InputStage::Releasing(_) => InputRequest::CloseContext,
        }
    }

    /// Whether a context of the engine exists in this state, which somebody
    /// has to close or to own.
    pub open spec fn holds_context(self) -> bool {
        !(self.stage is Allocating)
    }

    /// Whether `reply` is an answer to what is asked in this state: an
    /// object or nothing to the allocation, a code to the opening, a code
    /// and a table that an input can hold to the probe, and the release to
    /// the closing.
    pub open spec fn answered_by(self, reply: InputReplyView) -> bool {
        match self.stage {
            InputStage::Allocating => reply is Object,
            InputStage::Opening => reply is Code,
            InputStage::Probing => reply matches InputReplyView::Probed(_, streams)
                && streams.len() <= u32::MAX,
            InputStage::Releasing(_) => reply is Released,
        }
    }

    /// What the answer `reply` makes of this state. An answer to something
    /// that was not asked changes nothing.
    pub open spec fn next(self, reply: InputReplyView) -> InputOutcome {
        if !self.answered_by(reply) {
            InputOutcome::Pending(self)
        } else {
            match reply {
                InputReplyView::Object(allocated) => if allocated {
                    InputOutcome::Pending(self.at(InputStage::Opening))
                } else {
                    InputOutcome::Failed(OpenError::ContextAllocFailed)
                },
                InputReplyView::Code(code) => if code < 0 {
                    InputOutcome::Pending(self.at(InputStage::Releasing(OpenError::OpenFailed(code))))
                } else {
                    InputOutcome::Pending(self.at(InputStage::Probing))
                },
                InputReplyView::Probed(code, streams) => if code < 0 {
                    InputOutcome::Pending(
                        self.at(InputStage::Releasing(OpenError::ProbeFailed(code))),
                    )
                } else {
                    InputOutcome::Opened(InputView { url: self.url, streams, exhausted: false })
                },
                InputReplyView::Released => match self.stage {
                    InputStage::Releasing(error) => InputOutcome::Failed(error),
                    _ => InputOutcome::Pending(self),
                },
            }
        }
    }

    /// What the answers `replies`, taken in order, make of this state. Once
    /// the opening has ended, further answers are not heard.
    pub open spec fn run(self, replies: Seq<InputReplyView>) -> InputOutcome
        decreases replies.len(),
    {
        if replies.len() == 0 {
            InputOutcome::Pending(self)
        } else {
            match self.next(replies.first()) {
                InputOutcome::Pending(then) => then.run(replies.drop_first()),
                ended => ended,
            }
        }
    }

    /// How many contexts the engine allocated over `replies`.
    pub open spec fn allocations(self, replies: Seq<InputReplyView>) -> nat
        decreases replies.len(),
    {
        if replies.len() == 0 {
            0
        } else {
            let here: nat = if self.stage is Allocating && replies.first()
                == InputReplyView::Object(true) {
                1
            } else {
                0
            };
            match self.next(replies.first()) {
                InputOutcome::Pending(then) => here + then.allocations(replies.drop_first()),
                _ => here,
            }
        }
    }

    /// How many contexts the engine closed over `replies`.
    pub open spec fn releases(self, replies: Seq<InputReplyView>) -> nat
        decreases replies.len(),
    {
        if replies.len() == 0 {
            0
        } else {
            let here: nat = if self.stage is Releasing && replies.first() is Released {
                1
            } else {
                0
            };
            match self.next(replies.first()) {
                InputOutcome::Pending(then) => here + then.releases(replies.drop_first()),
                _ => here,
            }
        }
    }

    /// How many of `replies` were answers to what the opening asked when
    /// they came.
    pub open spec fn answers(self, replies: Seq<InputReplyView>) -> nat
        decreases replies.len(),
    {
        if replies.len() == 0 {
            0
        } else {
            let here: nat = if self.answered_by(replies.first()) {
                1
            } else {
                0
            };
            match self.next(replies.first()) {
                InputOutcome::Pending(then) => here + then.answers(replies.drop_first()),
                _ => here,
            }
        }
    }

    /// How far the opening has come, as a number.
    pub open spec fn rank(self) -> nat {
        match self.stage {
            InputStage::Allocating => 0,
            InputStage::Opening => 1,
            InputStage::Probing => 2,
            InputStage::Releasing(_) => 3,
        }
    }
}

/// The number of contexts that exist at the end of `outcome`: the one of an
/// opening that holds one, the one of an opened input, none after a failure.
pub open spec fn input_contexts_left(outcome: InputOutcome) -> nat {
    match outcome {
        InputOutcome::Pending(open) => if open.holds_context() {
            1
        } else {
            0
        },
        InputOutcome::Opened(_) => 1,
        InputOutcome::Failed(_) => 0,
    }
}

/// The opening of a source, between the first request to the engine and the
/// last answer. It says what to ask next; each answer moves it on, until it
/// ends in an input or in an error.
#[derive(Debug)]
pub struct InputOpen {
    url: String,
    stage: InputStage,
}

impl View for InputOpen {
    type V = InputOpenView;

    closed spec fn view(&self) -> InputOpenView {
        InputOpenView { url: self.url@, stage: self.stage }
    }
}

/// What an answer of the engine has made of an opening.
#[derive(Debug)]
pub enum InputOpenStep {
    /// The opening goes on: ask what it asks for.
    Pending(InputOpen),
    /// The opening has ended, in the input or in the reason why there is none.
    Done(Result<Input, OpenError>),
}

impl View for InputOpenStep {
    type V = InputOutcome;

    open spec fn view(&self) -> InputOutcome {
        match *self {
            InputOpenStep::Pending(open) => InputOutcome::Pending(open@),
            InputOpenStep::Done(Ok(input)) => InputOutcome::Opened(input@),
            InputOpenStep::Done(Err(error)) => InputOutcome::Failed(error),
        }
    }
}

impl Input {
    /// Begins to open the source `url`. Nothing has been asked of the engine yet.
    pub fn with_url(url: &str) -> (open: InputOpen)
        ensures
            open@ == InputOpenView::start(url@),
    {
        InputOpen { url: url.to_owned(), stage: InputStage::Allocating }
    }
}

impl InputOpen {
    /// The source that is being opened.
    pub fn url(&self) -> (url: &str)
        ensures
            url@ == self@.url,
    {
        self.url.as_str()
    }

    /// What to ask of the engine now.
    pub fn request(&self) -> (request: InputRequest)
        ensures
            request == self@.request(),
    {
        match self.stage {
            InputStage::Allocating => InputRequest::AllocContext,
            InputStage::Opening => InputRequest::OpenSource,
            InputStage::Probing => InputRequest::ProbeStreams,
            InputStage::Releasing(_) => InputRequest::CloseContext,
        }
    }

    /// Whether a context of the engine exists now.
    pub fn holds_context(&self) -> (b: bool)
        ensures
            b == self@.holds_context(),
    {
        match self.stage {
            InputStage::Allocating => false,
            _ => true,
        }
    }

    fn at(self, stage: InputStage) -> (step: InputOpenStep)
        ensures
            step@ == InputOutcome::Pending(self@.at(stage)),
    {
        InputOpenStep::Pending(InputOpen { url: self.url, stage })
    }

    /// Takes the engine's answer to the request and moves on.
    pub fn advance(self, reply: InputReply) -> (step: InputOpenStep)
        ensures
            step@ == self@.next(reply@),
    {
        match self.stage {
            InputStage::Allocating => match reply {
                InputReply::Object(true) => self.at(InputStage::Opening),
                InputReply::Object(false) => InputOpenStep::Done(
                    Err(OpenError::ContextAllocFailed),
                ),
                _ => InputOpenStep::Pending(self),
            },
            InputStage::Opening => match reply {
                InputReply::Code(code) => if code < 0 {
                    self.at(InputStage::Releasing(OpenError::OpenFailed(code)))
                } else {
                    self.at(InputStage::Probing)
                },
                _ => InputOpenStep::Pending(self),
            },
            InputStage::Probing => match reply {
                InputReply::Probed(code, streams) => if streams.len() > u32::MAX as usize {
                    InputOpenStep::Pending(self)
                } else if code < 0 {
                    self.at(InputStage::Releasing(OpenError::ProbeFailed(code)))
                } else {
                    InputOpenStep::Done(Ok(Input { url: self.url, streams, exhausted: false }))
                },
                _ => InputOpenStep::Pending(self),
            },
            InputStage::Releasing(error) => match reply {
                InputReply::Released => InputOpenStep::Done(Err(error)),
                _ => InputOpenStep::Pending(self),
            },
        }
    }
}

/// Opening a source ends in exactly one of four ways, by what the engine
/// answers: no context allocated, source not opened, tracks not probed, or
/// an input that holds the tracks the probe found. After a failed opening
/// or probe the context is closed first.
pub proof fn input_open_results(
    url: Seq<char>,
    open_code: i32,
    probe_code: i32,
    streams: Seq<Stream>,
)
    requires
        streams.len() <= u32::MAX,
    ensures
        InputOpenView::start(url).run(seq![InputReplyView::Object(false)]) == InputOutcome::Failed(
            OpenError::ContextAllocFailed,
        ),
        open_code < 0 ==> InputOpenView::start(url).run(
            seq![
                InputReplyView::Object(true),
                InputReplyView::Code(open_code),
                InputReplyView::Released,
            ],
        ) == InputOutcome::Failed(OpenError::OpenFailed(open_code)),
        open_code >= 0 && probe_code < 0 ==> InputOpenView::start(url).run(
            seq![
                InputReplyView::Object(true),
                InputReplyView::Code(open_code),
                InputReplyView::Probed(probe_code, streams),
                InputReplyView::Released,
            ],
        ) == InputOutcome::Failed(OpenError::ProbeFailed(probe_code)),
        open_code >= 0 && probe_code >= 0 ==> InputOpenView::start(url).run(
            seq![
                InputReplyView::Object(true),
                InputReplyView::Code(open_code),
                InputReplyView::Probed(probe_code, streams),
            ],
        ) == InputOutcome::Opened(InputView { url, streams, exhausted: false }),
{
    reveal_with_fuel(InputOpenView::run, 5);
}

/// No context is leaked and none is closed twice: over any answers of the
/// engine, from any state of an opening, the contexts that existed at the
/// start and those that were allocated since are exactly those that were
/// closed and those that exist at the end. An opening that has failed
/// leaves none; one that has succeeded leaves the one that the input owns.
pub proof fn input_contexts_are_accounted_for(open: InputOpenView, replies: Seq<InputReplyView>)
    ensures
        input_contexts_left(InputOutcome::Pending(open)) + open.allocations(replies)
            == open.releases(replies) + input_contexts_left(open.run(replies)),
    decreases replies.len(),
{
    if replies.len() > 0 {
        match open.next(replies.first()) {
            InputOutcome::Pending(then) => {
                input_contexts_are_accounted_for(then, replies.drop_first());
            },
            _ => {},
        }
    }
}

/// An opening moves forward only: an answer to what was asked brings it to
/// a later stage or to its end, and any other answer leaves it as it is.
pub proof fn input_opening_moves_forward(open: InputOpenView, reply: InputReplyView)
    ensures
        !open.answered_by(reply) ==> open.next(reply) == InputOutcome::Pending(open),
        open.answered_by(reply) ==> (open.next(reply) matches InputOutcome::Pending(then)
            ==> open.rank() < then.rank() <= 3),
{
}

/// No opening goes on for ever: one that is still going on after `replies`
/// has heard at most three answers to what it asked. The fourth ends it.
pub proof fn input_opening_ends(open: InputOpenView, replies: Seq<InputReplyView>)
    ensures
        open.run(replies) matches InputOutcome::Pending(then) ==> open.rank() + open.answers(
            replies,
        ) <= then.rank() <= 3,
    decreases replies.len(),
{
    if replies.len() > 0 {
        input_opening_moves_forward(open, replies.first());
        match open.next(replies.first()) {
            InputOutcome::Pending(then) => {
                input_opening_ends(then, replies.drop_first());
            },
            _ => {},
        }
    }
}

} // verus!
