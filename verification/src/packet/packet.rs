//! The handle of one compressed-data buffer.

use vstd::prelude::*;

verus! {

/// The timestamp the engine writes where it knows none.
pub const AV_NOPTS_VALUE: i64 = i64::MIN;

/// What the engine says of a packet it has read: the fields of the packet
/// that this layer hands on.
#[derive(Clone, Copy, Debug, PartialEq, Eq, Structural)]
pub struct PacketInfo {
    /// Number of bytes of compressed data.
    pub size: i32,
    /// Index of the track the packet belongs to.
    pub stream_index: i32,
    /// Presentation time, in the track's time base.
    pub pts: i64,
    /// Decoding time, in the track's time base.
    pub dts: i64,
    /// Duration, in the track's time base; 0 where unknown.
    pub duration: i64,
    /// Byte position in the source; -1 where unknown.
    pub pos: i64,
    /// The engine's flags.
    pub flags: i32,
}

/// The fields of a packet that holds nothing.
pub open spec fn blank_packet_info() -> PacketInfo {
    PacketInfo {
        size: 0,
        stream_index: 0,
        pts: AV_NOPTS_VALUE,
        dts: AV_NOPTS_VALUE,
        duration: 0,
        pos: -1i64,
        flags: 0,
    }
}

/// What a packet is, to a contract: whether it holds a reference to a buffer
/// of the engine, and its fields.
pub struct PacketState {
    pub buffered: bool,
    pub info: PacketInfo,
}

impl PacketState {
    /// The state of a packet that holds nothing.
    pub open spec fn blank() -> PacketState {
        PacketState { buffered: false, info: blank_packet_info() }
    }

    /// The state of a packet that holds a buffer with the fields `info`.
    pub open spec fn filled(info: PacketInfo) -> PacketState {
        PacketState { buffered: true, info }
    }

    /// The number of buffer references that the packet holds: one or none.
    pub open spec fn live(self) -> nat {
        if self.buffered {
            1
        } else {
            0
        }
    }

    /// The state after the engine has answered a read into the packet with
    /// `code` and the fields `info`: the buffer held before is given up,
    /// and a new one is held exactly when the read succeeded.
    pub open spec fn after_read(self, code: i32, info: PacketInfo) -> PacketState {
        if code >= 0 {
            PacketState::filled(info)
        } else {
            PacketState::blank()
        }
    }
}

/// The owner of one compressed-data buffer. It is made empty, filled by a
/// read from an input, and gives its buffer up when it is read into again
/// and when it is released.
#[derive(Debug)]
pub struct Packet {
    buffered: bool,
    info: PacketInfo,
}

impl View for Packet {
    type V = PacketState;

    closed spec fn view(&self) -> PacketState {
        PacketState { buffered: self.buffered, info: self.info }
    }
}

impl Packet {
    /// A packet that holds nothing.
    pub fn new() -> (packet: Packet)
        ensures
            packet@ == PacketState::blank(),
    {
        Packet {
            buffered: false,
            info: PacketInfo {
                size: 0,
                stream_index: 0,
                pts: AV_NOPTS_VALUE,
                dts: AV_NOPTS_VALUE,
                duration: 0,
                pos: -1,
                flags: 0,
            },
        }
    }

    /// Gives up the buffer, if one is held, and blanks the fields. The result
    /// says whether a buffer was held: the engine's reference is to be dropped
    /// exactly then.
    pub fn unref(&mut self) -> (released: bool)
        ensures
            released == old(self)@.buffered,
            final(self)@ == PacketState::blank(),
    {
        let released: bool = self.buffered;
        let blank: Packet = Packet::new();
        *self = blank;
        released
    }

    /// Takes the engine's answer to a read into this packet: the buffer held
    /// before is given up, and the packet holds the new one, with the fields
    /// `info`, exactly when `code` is no failure.
    pub(crate) fn refill(&mut self, code: i32, info: &PacketInfo)
        ensures
            final(self)@ == old(self)@.after_read(code, *info),
    {
        if code >= 0 {
            self.buffered = true;
            self.info = *info;
        } else {
            let blank: Packet = Packet::new();
            *self = blank;
        }
    }

    /// Whether the packet holds a buffer.
    pub fn is_buffered(&self) -> (b: bool)
        ensures
            b == self@.buffered,
    {
        self.buffered
    }

    /// The packet's fields.
    pub fn info(&self) -> (info: PacketInfo)
        ensures
            info == self@.info,
    {
        self.info
    }

    /// Number of bytes of compressed data.
    pub fn size(&self) -> (size: i32)
        ensures
            size == self@.info.size,
    {
        self.info.size
    }

    /// Index of the track the packet belongs to.
    pub fn stream_index(&self) -> (index: i32)
        ensures
            index == self@.info.stream_index,
    {
        self.info.stream_index
    }

    /// Presentation time; `AV_NOPTS_VALUE` where unknown.
    pub fn pts(&self) -> (pts: i64)
        ensures
            pts == self@.info.pts,
    {
        self.info.pts
    }

    /// Decoding time; `AV_NOPTS_VALUE` where unknown.
    pub fn dts(&self) -> (dts: i64)
        ensures
            dts == self@.info.dts,
    {
        self.info.dts
    }

    /// Duration; 0 where unknown.
    pub fn duration(&self) -> (duration: i64)
        ensures
            duration == self@.info.duration,
    {
        self.info.duration
    }
}

/// One answer of the engine to a read into a packet.
pub struct ReadEvent {
    pub code: i32,
    pub info: PacketInfo,
}

/// The state of a packet that started as `start` and was read into once for
/// each of `reads`, in order.
pub open spec fn replay_reads(start: PacketState, reads: Seq<ReadEvent>) -> PacketState
    decreases reads.len(),
{
    if reads.len() == 0 {
        start
    } else {
        replay_reads(start, reads.drop_last()).after_read(reads.last().code, reads.last().info)
    }
}

/// How many buffers the engine handed out over `reads`: one for each read
/// that succeeded.
pub open spec fn buffers_acquired(reads: Seq<ReadEvent>) -> nat
    decreases reads.len(),
{
    if reads.len() == 0 {
        0
    } else {
        buffers_acquired(reads.drop_last()) + if reads.last().code >= 0 {
            1nat
        } else {
            0nat
        }
    }
}

/// How many buffers a packet that started as `start` gave up over `reads`:
/// at each read, the one it held before it.
pub open spec fn buffers_released(start: PacketState, reads: Seq<ReadEvent>) -> nat
    decreases reads.len(),
{
    if reads.len() == 0 {
        0
    } else {
        buffers_released(start, reads.drop_last()) + replay_reads(start, reads.drop_last()).live()
    }
}

/// A packet never leaks: over any run of reads into a packet that was made
/// empty, every buffer that the engine handed out was either given up again
/// or is the one the packet holds now. So the release at the end of the
/// packet's life, which gives that one up, leaves nothing behind.
pub proof fn packet_never_leaks(reads: Seq<ReadEvent>)
    ensures
        buffers_acquired(reads) == buffers_released(PacketState::blank(), reads) + replay_reads(
            PacketState::blank(),
            reads,
        ).live(),
        replay_reads(PacketState::blank(), reads).live() <= 1,
    decreases reads.len(),
{
    if reads.len() > 0 {
        packet_never_leaks(reads.drop_last());
    }
}

} // verus!
