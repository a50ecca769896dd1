//! A stand-in for the engine's decoder, and the run of the protocol that
//! pumps packets through it.
//!
//! The stand-in is the least that the protocol says of an engine: a queue
//! of bounded capacity between packets and frames. A packet is taken while
//! the queue has room and refused with the retry signal when it is full; a
//! frame is given while the queue holds a packet and refused with the retry
//! signal when it is empty. Each packet gives one frame, with the packet's
//! timing.

use crate::codec::decoder::{Decoder, ReceiveStatus, SendStatus};
use crate::ff_error::Signals;
use crate::frame::frame::{blank_frame_info, Frame, FrameInfo, FrameState};
use crate::packet::packet::{Packet, PacketInfo};
use vstd::prelude::*;

verus! {

/// The frame that the stand-in decodes from a packet: the packet's
/// presentation time and duration, and nothing else.
pub open spec fn frame_of(packet: PacketInfo) -> FrameInfo {
    FrameInfo {
        pts: packet.pts,
        pkt_duration: packet.duration,
        width: 0,
        height: 0,
        nb_samples: 0,
        format: 0,
        key_frame: 0,
    }
}

/// The frames that the stand-in decodes from `packets`, in their order.
pub open spec fn frames_of(packets: Seq<PacketInfo>) -> Seq<FrameInfo> {
    Seq::new(packets.len(), |i: int| frame_of(packets[i]))
}

/// The fields of `packets`, in their order.
pub open spec fn infos_of(packets: Seq<Packet>) -> Seq<PacketInfo> {
    Seq::new(packets.len(), |i: int| packets[i]@.info)
}

/// What the stand-in is, to a contract: how many packets it can hold, and
/// the packets it holds, oldest first.
pub struct StubView {
    pub capacity: nat,
    pub queue: Seq<PacketInfo>,
}

impl StubView {
    /// Whether the queue has room for one more packet.
    pub open spec fn has_room(self) -> bool {
        self.queue.len() < self.capacity
    }

    /// The code that answers a submitted packet.
    pub open spec fn send_code(self, signals: Signals) -> i32 {
        if self.has_room() {
            0
        } else {
            signals.retry()
        }
    }

    /// The stand-in after `packet` was submitted.
    pub open spec fn after_send(self, packet: PacketInfo) -> StubView {
        if self.has_room() {
            StubView { queue: self.queue.push(packet), ..self }
        } else {
            self
        }
    }

    /// The code that answers a request for a frame.
    pub open spec fn receive_code(self, signals: Signals) -> i32 {
        if self.queue.len() > 0 {
            0
        } else {
            signals.retry()
        }
    }

    /// The frame that a request for one gets: that of the oldest packet, or
    /// an empty one.
    pub open spec fn received(self) -> FrameInfo {
        if self.queue.len() > 0 {
            frame_of(self.queue.first())
        } else {
            blank_frame_info()
        }
    }

    /// The stand-in after a frame was asked for.
    pub open spec fn after_receive(self) -> StubView {
        if self.queue.len() > 0 {
            StubView { queue: self.queue.drop_first(), ..self }
        } else {
            self
        }
    }
}

/// The stand-in for the engine's decoder.
#[derive(Debug)]
pub struct StubEngine {
    /// One less than the capacity, so that the capacity is never nothing.
    spare: usize,
    queue: Vec<PacketInfo>,
}

impl View for StubEngine {
    type V = StubView;

    closed spec fn view(&self) -> StubView {
        StubView { capacity: (self.spare + 1) as nat, queue: self.queue@ }
    }
}

impl StubEngine {
    /// An empty stand-in that can hold `capacity` packets; none if it could
    /// hold no packet at all.
    pub fn new(capacity: usize) -> (engine: Option<StubEngine>)
        ensures
            capacity == 0 <==> engine is None,
            engine matches Some(e) ==> e@.capacity == capacity && e@.queue.len() == 0,
    {
        if capacity == 0 {
            None
        } else {
            Some(StubEngine { spare: capacity - 1, queue: Vec::new() })
        }
    }

    /// How many packets the stand-in holds.
    pub fn queued(&self) -> (n: usize)
        ensures
            n == self@.queue.len(),
    {
        self.queue.len()
    }

    /// Takes `packet` if there is room, and answers as the engine would, in
    /// the codes of `signals`.
    pub fn send(&mut self, signals: &Signals, packet: &Packet) -> (code: i32)
        ensures
            code == old(self)@.send_code(*signals),
            final(self)@ == old(self)@.after_send(packet@.info),
    {
        if self.queue.len() <= self.spare {
            self.queue.push(packet.info());
            0
        } else {
            signals.retry_code()
        }
    }

    /// Gives the frame of the oldest packet if there is one, and answers as
    /// the engine would, in the codes of `signals`.
    pub fn receive(&mut self, signals: &Signals) -> (answer: (i32, FrameInfo))
        ensures
            answer.0 == old(self)@.receive_code(*signals),
            answer.1 == old(self)@.received(),
            final(self)@ == old(self)@.after_receive(),
    {
        if self.queue.len() > 0 {
            let packet: PacketInfo = self.queue.remove(0);
            (
                0,
                FrameInfo {
                    pts: packet.pts,
                    pkt_duration: packet.duration,
                    width: 0,
                    height: 0,
                    nb_samples: 0,
                    format: 0,
                    key_frame: 0,
                },
            )
        } else {
            (
                signals.retry_code(),
                FrameInfo {
                    pts: 0,
                    pkt_duration: 0,
                    width: 0,
                    height: 0,
                    nb_samples: 0,
                    format: 0,
                    key_frame: 0,
                },
            )
        }
    }
}

/// Takes frames from `decoder` until it says `NeedsInput`, and appends them
/// to `frames`. Every packet that the engine held has then come out as its
/// frame, in order, and the engine holds none.
pub fn drain(
    decoder: &mut Decoder,
    engine: &mut StubEngine,
    frame: &mut Frame,
    frames: &mut Vec<FrameInfo>,
) -> (last: ReceiveStatus)
    requires
        old(decoder)@.signals.distinct(),
        !old(decoder)@.flushed,
    ensures
        last == ReceiveStatus::NeedsInput,
        final(decoder)@ == old(decoder)@,
        final(engine)@.capacity == old(engine)@.capacity,
        final(engine)@.queue.len() == 0,
        final(frames)@ == old(frames)@ + frames_of(old(engine)@.queue),
        final(frame)@ == FrameState::blank(),
{
    let signals: Signals = decoder.signals();
    let ghost decoder_before = decoder@;
    let ghost queue_before = engine@.queue;
    let ghost frames_before = frames@;
    loop
        invariant
            decoder_before == old(decoder)@,
            queue_before == old(engine)@.queue,
            frames_before == old(frames)@,
            decoder@ == decoder_before,
            signals == decoder_before.signals,
            signals.distinct(),
            !decoder_before.flushed,
            engine@.capacity == old(engine)@.capacity,
            frames@ + frames_of(engine@.queue) == frames_before + frames_of(queue_before),
        decreases engine@.queue.len(),
    {
        let ghost queue_now = engine@.queue;
        let ghost frames_now = frames@;
        let answer: (i32, FrameInfo) = engine.receive(&signals);
        let status: ReceiveStatus = decoder.dequeue_frame(frame, answer.0, &answer.1);
        match status {
            ReceiveStatus::Ready => {
                frames.push(frame.info());
                assert(frames@ + frames_of(engine@.queue) =~= frames_now + frames_of(queue_now));
            },
            _ => {
                return status;
            },
        }
    }
}

/// Submits `packet` to `decoder`, and, when the decoder is busy, drains it
/// and submits the same packet once more. The result is the status of the
/// last attempt and the number of attempts. The packet is accepted: at the
/// first attempt if the engine had room, and at the second otherwise, for
/// draining makes room. No frame is lost on the way.
pub fn submit(
    decoder: &mut Decoder,
    engine: &mut StubEngine,
    packet: &Packet,
    frame: &mut Frame,
    frames: &mut Vec<FrameInfo>,
) -> (result: (SendStatus, u8))
    requires
        old(decoder)@.signals.distinct(),
        !old(decoder)@.flushed,
    ensures
        result.0 == SendStatus::Accepted,
        result.1 == (if old(engine)@.has_room() {
            1u8
        } else {
            2u8
        }),
        final(decoder)@ == old(decoder)@,
        final(engine)@.capacity == old(engine)@.capacity,
        old(engine)@.has_room() ==> final(engine)@.queue == old(engine)@.queue.push(packet@.info)
            && final(frames)@ == old(frames)@,
        !old(engine)@.has_room() ==> final(engine)@.queue == seq![packet@.info] && final(frames)@
            == old(frames)@ + frames_of(old(engine)@.queue),
{
    let signals: Signals = decoder.signals();
    let code: i32 = engine.send(&signals, packet);
    let status: SendStatus = decoder.enqueue_packet(code);
    match status {
        SendStatus::Busy => {
            drain(decoder, engine, frame, frames);
            let again: i32 = engine.send(&signals, packet);
            let status: SendStatus = decoder.enqueue_packet(again);
            (status, 2)
        },
        _ => (status, 1),
    }
}

/// Submits `packets` to `decoder`, one after the other, draining whenever
/// the decoder is busy, and counts those that were accepted. Every packet
/// is, whatever the engine's capacity and however many packets there are;
/// and the frames that have come out, followed by those of the packets that
/// the engine still holds, are the frames of all the packets, in order.
pub fn submit_all(
    decoder: &mut Decoder,
    engine: &mut StubEngine,
    packets: &Vec<Packet>,
    frame: &mut Frame,
    frames: &mut Vec<FrameInfo>,
) -> (accepted: usize)
    requires
        old(decoder)@.signals.distinct(),
        !old(decoder)@.flushed,
    ensures
        accepted == packets@.len(),
        final(decoder)@ == old(decoder)@,
        final(engine)@.capacity == old(engine)@.capacity,
        final(frames)@ + frames_of(final(engine)@.queue) == old(frames)@ + frames_of(
            old(engine)@.queue + infos_of(packets@),
        ),
{
    let ghost queue_before = engine@.queue;
    let ghost frames_before = frames@;
    let mut accepted: usize = 0;
    while accepted < packets.len()
        invariant
            queue_before == old(engine)@.queue,
            frames_before == old(frames)@,
            accepted <= packets@.len(),
            decoder@ == old(decoder)@,
            decoder@.signals.distinct(),
            !decoder@.flushed,
            engine@.capacity == old(engine)@.capacity,
            frames@ + frames_of(engine@.queue) == frames_before + frames_of(
                queue_before + infos_of(packets@.take(accepted as int)),
            ),
        decreases packets@.len() - accepted,
    {
        let ghost queue_now = engine@.queue;
        let ghost frames_now = frames@;
        let result: (SendStatus, u8) = submit(decoder, engine, &packets[accepted], frame, frames);
        proof {
            let taken = infos_of(packets@.take(accepted as int));
            let more = infos_of(packets@.take(accepted + 1));
            assert(more =~= taken.push(packets@[accepted as int]@.info));
            assert(frames@ + frames_of(engine@.queue) =~= (frames_now + frames_of(queue_now)).push(
                frame_of(packets@[accepted as int]@.info),
            ));
            assert(frames_of(queue_before + more) =~= frames_of(queue_before + taken).push(
                frame_of(packets@[accepted as int]@.info),
            ));
        }
        if let SendStatus::Accepted = result.0 {
            accepted = accepted + 1;
        }
    }
    accepted
}

} // verus!
