//! Result codes of the decoding engine: how they are built, which of them are
//! signals rather than failures, and the table of the engine's named codes.

use vstd::prelude::*;

verus! {

/// The four bytes `a`, `b`, `c`, `d` packed into one number, `a` lowest.
pub open spec fn mktag_spec(a: u8, b: u8, c: u8, d: u8) -> int {
    a + 256 * b + 65536 * c + 16777216 * d
}

/// The engine's result code for the tag `a`, `b`, `c`, `d`: the packed tag, negated.
pub open spec fn fferrtag_spec(a: u8, b: u8, c: u8, d: u8) -> int {
    -mktag_spec(a, b, c, d)
}

/// Packs four bytes into a tag, `a` in the lowest byte and `d` in the highest.
pub fn mktag(a: u8, b: u8, c: u8, d: u8) -> (tag: u32)
    ensures
        tag == mktag_spec(a, b, c, d),
{
    let tag: u32 = (a as u32) | ((b as u32) << 8) | ((c as u32) << 16) | ((d as u32) << 24);
    assert(((a as u32) | ((b as u32) << 8) | ((c as u32) << 16) | ((d as u32) << 24)) == a + 256
        * b + 65536 * c + 16777216 * d) by (bit_vector);
    tag
}

/// The result code that the engine gives the tag `a`, `b`, `c`, `d`.
///
/// A tag whose highest byte is 128 or more does not fit a signed code and is
/// left out.
pub fn fferrtag(a: u8, b: u8, c: u8, d: u8) -> (code: i32)
    requires
        d < 128,
    ensures
        code == fferrtag_spec(a, b, c, d),
        code <= 0,
{
    let tag: u32 = mktag(a, b, c, d);
    -(tag as i32)
}

/// The result code that the engine makes of the errno number `e`: its negation.
pub fn AVERROR(e: i32) -> (code: i32)
    requires
        e > i32::MIN,
    ensures
        code == -e,
{
    -e
}

/// no bitstream filter of that name
pub const AVERROR_BSF_NOT_FOUND: i32 = -1179861752;

/// an internal fault of the engine
pub const AVERROR_BUG: i32 = -558323010;

/// a buffer was too small
pub const AVERROR_BUFFER_TOO_SMALL: i32 = -1397118274;

/// no decoder for the codec
pub const AVERROR_DECODER_NOT_FOUND: i32 = -1128613112;

/// no demuxer for the container
pub const AVERROR_DEMUXER_NOT_FOUND: i32 = -1296385272;

/// no encoder for the codec
pub const AVERROR_ENCODER_NOT_FOUND: i32 = -1129203192;

/// end of stream
pub const AVERROR_EOF: i32 = -541478725;

/// an immediate exit was requested
pub const AVERROR_EXIT: i32 = -1414092869;

/// a fault in a library the engine uses
pub const AVERROR_EXTERNAL: i32 = -542398533;

/// no filter of that name
pub const AVERROR_FILTER_NOT_FOUND: i32 = -1279870712;

/// invalid data in the input
pub const AVERROR_INVALIDDATA: i32 = -1094995529;

/// no muxer for the container
pub const AVERROR_MUXER_NOT_FOUND: i32 = -1481985528;

/// no option of that name
pub const AVERROR_OPTION_NOT_FOUND: i32 = -1414549496;

/// not implemented by the engine
pub const AVERROR_PATCHWELCOME: i32 = -1163346256;

/// no protocol of that name
pub const AVERROR_PROTOCOL_NOT_FOUND: i32 = -1330794744;

/// no stream of that kind
pub const AVERROR_STREAM_NOT_FOUND: i32 = -1381258232;

/// an internal fault of the engine, second form
pub const AVERROR_BUG2: i32 = -541545794;

/// a fault of unknown kind
pub const AVERROR_UNKNOWN: i32 = -1313558101;

/// HTTP 400
pub const AVERROR_HTTP_BAD_REQUEST: i32 = -808465656;

/// HTTP 401
pub const AVERROR_HTTP_UNAUTHORIZED: i32 = -825242872;

/// HTTP 403
pub const AVERROR_HTTP_FORBIDDEN: i32 = -858797304;

/// HTTP 404
pub const AVERROR_HTTP_NOT_FOUND: i32 = -875574520;

/// another HTTP 4xx
pub const AVERROR_HTTP_OTHER_4XX: i32 = -1482175736;

/// HTTP 5xx
pub const AVERROR_HTTP_SERVER_ERROR: i32 = -1482175992;

/// Every named code is the code of its four-letter tag. The first byte of a
/// "not found" or HTTP tag is 0xF8; the others are the letters of the name.
pub proof fn named_codes_are_tags()
    ensures
        AVERROR_BSF_NOT_FOUND == fferrtag_spec(0xF8, 'B' as u8, 'S' as u8, 'F' as u8),
        AVERROR_BUG == fferrtag_spec('B' as u8, 'U' as u8, 'G' as u8, '!' as u8),
        AVERROR_BUFFER_TOO_SMALL == fferrtag_spec('B' as u8, 'U' as u8, 'F' as u8, 'S' as u8),
        AVERROR_DECODER_NOT_FOUND == fferrtag_spec(0xF8, 'D' as u8, 'E' as u8, 'C' as u8),
        AVERROR_DEMUXER_NOT_FOUND == fferrtag_spec(0xF8, 'D' as u8, 'E' as u8, 'M' as u8),
        AVERROR_ENCODER_NOT_FOUND == fferrtag_spec(0xF8, 'E' as u8, 'N' as u8, 'C' as u8),
        AVERROR_EOF == fferrtag_spec('E' as u8, 'O' as u8, 'F' as u8, ' ' as u8),
        AVERROR_EXIT == fferrtag_spec('E' as u8, 'X' as u8, 'I' as u8, 'T' as u8),
        AVERROR_EXTERNAL == fferrtag_spec('E' as u8, 'X' as u8, 'T' as u8, ' ' as u8),
        AVERROR_FILTER_NOT_FOUND == fferrtag_spec(0xF8, 'F' as u8, 'I' as u8, 'L' as u8),
        AVERROR_INVALIDDATA == fferrtag_spec('I' as u8, 'N' as u8, 'D' as u8, 'A' as u8),
        AVERROR_MUXER_NOT_FOUND == fferrtag_spec(0xF8, 'M' as u8, 'U' as u8, 'X' as u8),
        AVERROR_OPTION_NOT_FOUND == fferrtag_spec(0xF8, 'O' as u8, 'P' as u8, 'T' as u8),
        AVERROR_PATCHWELCOME == fferrtag_spec('P' as u8, 'A' as u8, 'W' as u8, 'E' as u8),
        AVERROR_PROTOCOL_NOT_FOUND == fferrtag_spec(0xF8, 'P' as u8, 'R' as u8, 'O' as u8),
        AVERROR_STREAM_NOT_FOUND == fferrtag_spec(0xF8, 'S' as u8, 'T' as u8, 'R' as u8),
        AVERROR_BUG2 == fferrtag_spec('B' as u8, 'U' as u8, 'G' as u8, ' ' as u8),
        AVERROR_UNKNOWN == fferrtag_spec('U' as u8, 'N' as u8, 'K' as u8, 'N' as u8),
        AVERROR_HTTP_BAD_REQUEST == fferrtag_spec(0xF8, '4' as u8, '0' as u8, '0' as u8),
        AVERROR_HTTP_UNAUTHORIZED == fferrtag_spec(0xF8, '4' as u8, '0' as u8, '1' as u8),
        AVERROR_HTTP_FORBIDDEN == fferrtag_spec(0xF8, '4' as u8, '0' as u8, '3' as u8),
        AVERROR_HTTP_NOT_FOUND == fferrtag_spec(0xF8, '4' as u8, '0' as u8, '4' as u8),
        AVERROR_HTTP_OTHER_4XX == fferrtag_spec(0xF8, '4' as u8, 'X' as u8, 'X' as u8),
        AVERROR_HTTP_SERVER_ERROR == fferrtag_spec(0xF8, '5' as u8, 'X' as u8, 'X' as u8),
{
}

/// The errno number by which the machine says "try again" (`libc::EAGAIN`).
///
/// The number differs from one operating system to the next, so nothing is
/// claimed of its value but that it can be negated: on every target that the
/// libc crate defines it for, it is a number above `i32::MIN`.
#[verifier::external_body]
fn os_try_again() -> (e: i32)
    ensures
        e > i32::MIN,
{
    libc::EAGAIN
}

/// The two result codes that are signals of the protocol and no failures:
/// "end of stream", which is the same everywhere, and "try again", which is
/// the machine's.
#[derive(Clone, Copy, Debug, PartialEq, Eq, Structural)]
pub struct Signals {
    retry: i32,
}

impl Signals {
    /// The code of the retry signal.
    pub closed spec fn retry(self) -> i32 {
        self.retry
    }

    /// The code of the end-of-stream signal.
    pub open spec fn end_of_stream(self) -> i32 {
        AVERROR_EOF
    }

    /// Whether the two signals can be told from success and from each other:
    /// the retry signal is negative and is not the end-of-stream signal.
    pub open spec fn distinct(self) -> bool {
        self.retry() < 0 && self.retry() != self.end_of_stream()
    }

    /// Whether `code` is a genuine failure: negative, and neither of the two signals.
    pub open spec fn failure(self, code: i32) -> bool {
        code < 0 && code != self.end_of_stream() && code != self.retry()
    }

    /// The signals of the machine the library runs on: the retry signal is
    /// the engine's code for the machine's "try again".
    pub fn platform() -> (signals: Signals)
        ensures
            signals.retry() > i32::MIN,
    {
        let e: i32 = os_try_again();
        Signals { retry: AVERROR(e) }
    }

    /// The signals of an engine whose "try again" is the errno number `errno`.
    pub fn with_errno(errno: i32) -> (signals: Signals)
        requires
            errno > i32::MIN,
        ensures
            signals.retry() == -errno,
    {
        Signals { retry: AVERROR(errno) }
    }

    /// The code of the retry signal.
    pub fn retry_code(&self) -> (code: i32)
        ensures
            code == self.retry(),
    {
        self.retry
    }

    /// Whether the two signals can be told from success and from each other.
    pub fn is_distinct(&self) -> (b: bool)
        ensures
            b == self.distinct(),
    {
        self.retry < 0 && self.retry != AVERROR_EOF
    }

    /// Whether `code` says "not yet, try again".
    pub fn is_retry_signal(&self, code: i32) -> (b: bool)
        ensures
            b == (code == self.retry()),
    {
        code == self.retry
    }

    /// Whether `code` says that the stream has ended.
    pub fn is_end_of_stream(&self, code: i32) -> (b: bool)
        ensures
            b == (code == self.end_of_stream()),
    {
        code == AVERROR_EOF
    }

    /// Whether `code` is a genuine failure, one that deserves a diagnostic.
    pub fn is_failure(&self, code: i32) -> (b: bool)
        ensures
            b == self.failure(code),
    {
        code < 0 && code != AVERROR_EOF && code != self.retry
    }
}

} // verus!
