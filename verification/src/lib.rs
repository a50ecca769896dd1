//! Ownership-checked handles over a multimedia decoding engine: inputs that
//! demux a source into packets, decoders that turn the packets of one track
//! into frames, and the protocol between them.
//!
//! The engine itself is not called from here. Each operation that needs it
//! says what is to be asked of the engine, and takes what the engine
//! answered: the handles hold the state and make the decisions.

#![allow(non_snake_case)]

use vstd::prelude::*;
use vstd::string::{StrSliceExecFns, StringExecFns};

pub mod codec;
pub mod engine;
pub mod ff_error;
pub mod format;
pub mod frame;
pub mod packet;

pub use codec::decoder::{
    Decoder, DecoderOpen, DecoderOpenError, DecoderOpenStep, DecoderRequest, ReceiveStatus,
    SendStatus,
};
pub use codec::stub::StubEngine;
pub use engine::{CallPlan, EngineReply};
pub use ff_error::{Signals, AVERROR};
pub use format::input::{
    DemuxStatus, Input, InputOpen, InputOpenStep, InputReply, InputRequest, OpenError,
};
pub use format::stream::{CodecParamsView, MediaKind, Stream};
pub use frame::frame::{Frame, FrameInfo};
pub use packet::packet::{Packet, PacketInfo};

verus! {

/// The least severity of the diagnostics that are logged.
#[derive(Clone, Copy, Debug, PartialEq, Eq, Structural)]
pub enum LogLevel {
    Trace,
    Debug,
    Info,
    Warn,
    Error,
}

/// The level that a flag asks for: `D`, `I`, `W` and `E` ask for debug,
/// info, warn and error, and everything else asks for trace.
pub open spec fn level_of_flag(flag: Seq<char>) -> LogLevel {
    if flag == seq!['D'] {
        LogLevel::Debug
    } else if flag == seq!['I'] {
        LogLevel::Info
    } else if flag == seq!['W'] {
        LogLevel::Warn
    } else if flag == seq!['E'] {
        LogLevel::Error
    } else {
        LogLevel::Trace
    }
}

impl LogLevel {
    /// The letter that marks a line of this level.
    pub open spec fn spec_tag(self) -> char {
        match self {
            LogLevel::Trace => 'T',
            LogLevel::Debug => 'D',
            LogLevel::Info => 'I',
            LogLevel::Warn => 'W',
            LogLevel::Error => 'E',
        }
    }

    /// The terminal escape that colours a line of this level.
    pub open spec fn spec_color(self) -> Seq<char> {
        match self {
            LogLevel::Trace => "\x1B[0m"@,
            LogLevel::Debug => "\x1B[92m"@,
            LogLevel::Info => "\x1B[34m"@,
            LogLevel::Warn => "\x1B[93m"@,
            LogLevel::Error => "\x1B[31m"@,
        }
    }

    /// The letter that marks a line of this level.
    pub fn tag(&self) -> (tag: char)
        ensures
            tag == self.spec_tag(),
    {
        match self {
            LogLevel::Trace => 'T',
            LogLevel::Debug => 'D',
            LogLevel::Info => 'I',
            LogLevel::Warn => 'W',
            LogLevel::Error => 'E',
        }
    }

    /// The terminal escape that colours a line of this level.
    pub fn color(&self) -> (color: &'static str)
        ensures
            color@ == self.spec_color(),
    {
        match self {
            LogLevel::Trace => "\x1B[0m",
            LogLevel::Debug => "\x1B[92m",
            LogLevel::Info => "\x1B[34m",
            LogLevel::Warn => "\x1B[93m",
            LogLevel::Error => "\x1B[31m",
        }
    }
}

/// A flag names a level by its letter: the flag made of the letter of a
/// level other than trace asks for that level.
pub proof fn flag_is_the_tag(level: LogLevel)
    requires
        level != LogLevel::Trace,
    ensures
        level_of_flag(seq![level.spec_tag()]) == level,
{
    assert(seq!['D'][0] == 'D');
    assert(seq!['I'][0] == 'I');
    assert(seq!['W'][0] == 'W');
    assert(seq!['E'][0] == 'E');
}

/// Where the file name begins in `path`: behind the last `/`, or at the
/// start where there is none.
pub open spec fn file_name_start(path: Seq<char>) -> int
    decreases path.len(),
{
    if path.len() == 0 {
        0
    } else if path.last() == '/' {
        path.len() as int
    } else {
        file_name_start(path.drop_last())
    }
}

/// The file name in `path`: what stands behind the last `/`.
pub open spec fn file_name_of(path: Seq<char>) -> Seq<char> {
    path.subrange(file_name_start(path), path.len() as int)
}

/// The file name is the longest end of the path that holds no `/`: it
/// holds none, and it begins at the start of the path or behind a `/`.
pub proof fn file_name_is_behind_last_slash(path: Seq<char>)
    ensures
        0 <= file_name_start(path) <= path.len(),
        forall|i: int| file_name_start(path) <= i < path.len() ==> path[i] != '/',
        file_name_start(path) == 0 || path[file_name_start(path) - 1] == '/',
    decreases path.len(),
{
    if path.len() > 0 && path.last() != '/' {
        let head = path.drop_last();
        file_name_is_behind_last_slash(head);
        assert forall|i: int| file_name_start(path) <= i < path.len() implies path[i] != '/' by {
            if i < head.len() {
                assert(head[i] == path[i]);
            }
        }
        if file_name_start(path) != 0 {
            assert(head[file_name_start(head) - 1] == path[file_name_start(path) - 1]);
        }
    }
}


/// The file name in `path`, to name the place of a diagnostic by.
pub fn file_name(path: &str) -> (name: &str)
    ensures
        name@ == file_name_of(path@),
{
    let len: usize = path.unicode_len();
    let mut start: usize = len;
    assert(path@.take(len as int) =~= path@);
    while start > 0
        invariant
            start <= len,
            len == path@.len(),
            file_name_start(path@) == file_name_start(path@.take(start as int)),
        decreases start,
    {
        let ghost head = path@.take(start as int);
        assert(head.last() == path@[start - 1]);
        if path.get_char(start - 1) == '/' {
            return path.substring_char(start, len);
        }
        assert(head.drop_last() =~= path@.take(start - 1));
        start = start - 1;
    }
    path.substring_char(start, len)
}

/// The character of the decimal digit `digit`.
pub open spec fn digit_char(digit: nat) -> char {
    if digit == 0 {
        '0'
    } else if digit == 1 {
        '1'
    } else if digit == 2 {
        '2'
    } else if digit == 3 {
        '3'
    } else if digit == 4 {
        '4'
    } else if digit == 5 {
        '5'
    } else if digit == 6 {
        '6'
    } else if digit == 7 {
        '7'
    } else if digit == 8 {
        '8'
    } else {
        '9'
    }
}

/// The decimal digit that the character `c` stands for.
pub open spec fn digit_value(c: char) -> nat {
    if c == '1' {
        1
    } else if c == '2' {
        2
    } else if c == '3' {
        3
    } else if c == '4' {
        4
    } else if c == '5' {
        5
    } else if c == '6' {
        6
    } else if c == '7' {
        7
    } else if c == '8' {
        8
    } else if c == '9' {
        9
    } else {
        0
    }
}

/// The number `n` in decimal digits, without leading zeros.
pub open spec fn decimal(n: nat) -> Seq<char>
    decreases n,
{
    if n < 10 {
        seq![digit_char(n)]
    } else {
        decimal(n / 10).push(digit_char(n % 10))
    }
}

/// The number that the decimal digits `digits` stand for.
pub open spec fn decimal_value(digits: Seq<char>) -> nat
    decreases digits.len(),
{
    if digits.len() == 0 {
        0
    } else {
        10 * decimal_value(digits.drop_last()) + digit_value(digits.last())
    }
}

/// The digits of a number stand for that number, and begin with a zero
/// only if the number is zero.
pub proof fn decimal_reads_back(n: nat)
    ensures
        decimal_value(decimal(n)) == n,
        decimal(n).len() >= 1,
        decimal(n).first() == '0' <==> n == 0,
    decreases n,
{
    if n < 10 {
        assert(decimal(n).drop_last() =~= Seq::<char>::empty());
        assert(decimal_value(Seq::<char>::empty()) == 0);
        assert(decimal(n).last() == digit_char(n));
    } else {
        decimal_reads_back(n / 10);
        assert(decimal(n).drop_last() =~= decimal(n / 10));
        assert(decimal(n).last() == digit_char(n % 10));
        assert(decimal(n).first() == decimal(n / 10).first());
    }
}

/// The terminal escape that ends the colour of a line.
pub open spec fn color_reset() -> Seq<char> {
    "\x1B[0m"@
}

/// One line of the log: the colour of the level, the time stamp, the place
/// in square brackets (the file name in `path`, a colon, the line number),
/// the letter of the level in square brackets, the message, and the escape
/// that ends the colour.
pub open spec fn log_line_of(
    level: LogLevel,
    stamp: Seq<char>,
    path: Seq<char>,
    line: nat,
    message: Seq<char>,
) -> Seq<char> {
    level.spec_color() + stamp + seq![' ', '['] + file_name_of(path) + seq![':'] + decimal(line)
        + seq![']', ' ', '['] + seq![level.spec_tag()] + seq![']', ' '] + message + color_reset()
}

fn digit_str(digit: u32) -> (text: &'static str)
    requires
        digit < 10,
    ensures
        text@ == seq![digit_char(digit as nat)],
{
    proof {
        reveal_strlit("0");
        reveal_strlit("1");
        reveal_strlit("2");
        reveal_strlit("3");
        reveal_strlit("4");
        reveal_strlit("5");
        reveal_strlit("6");
        reveal_strlit("7");
        reveal_strlit("8");
        reveal_strlit("9");
    }
    let text: &'static str = if digit == 0 {
        "0"
    } else if digit == 1 {
        "1"
    } else if digit == 2 {
        "2"
    } else if digit == 3 {
        "3"
    } else if digit == 4 {
        "4"
    } else if digit == 5 {
        "5"
    } else if digit == 6 {
        "6"
    } else if digit == 7 {
        "7"
    } else if digit == 8 {
        "8"
    } else {
        "9"
    };
    assert(text@ =~= seq![digit_char(digit as nat)]);
    text
}

fn append_decimal(text: &mut String, n: u32)
    ensures
        final(text)@ == old(text)@ + decimal(n as nat),
    decreases n,
{
    if n >= 10 {
        append_decimal(text, n / 10);
    }
    text.append(digit_str(n % 10));
    assert(text@ =~= old(text)@ + decimal(n as nat));
}

impl LogLevel {
    fn tag_str(&self) -> (text: &'static str)
        ensures
            text@ == seq![self.spec_tag()],
    {
        proof {
            reveal_strlit("T");
            reveal_strlit("D");
            reveal_strlit("I");
            reveal_strlit("W");
            reveal_strlit("E");
        }
        let text: &'static str = match self {
            LogLevel::Trace => "T",
            LogLevel::Debug => "D",
            LogLevel::Info => "I",
            LogLevel::Warn => "W",
            LogLevel::Error => "E",
        };
        assert(text@ =~= seq![self.spec_tag()]);
        text
    }
}

/// Lays out one line of the log: a diagnostic of the level `level`, made at
/// the time `stamp` at line `line` of the file `path`, saying `message`.
pub fn log_line(level: LogLevel, stamp: &str, path: &str, line: u32, message: &str) -> (text:
    String)
    ensures
        text@ == log_line_of(level, stamp@, path@, line as nat, message@),
{
    proof {
        reveal_strlit(" [");
        reveal_strlit(":");
        reveal_strlit("] [");
        reveal_strlit("] ");
    }
    assert(" ["@ =~= seq![' ', '[']);
    assert(":"@ =~= seq![':']);
    assert("] ["@ =~= seq![']', ' ', '[']);
    assert("] "@ =~= seq![']', ' ']);
    let mut text: String = String::new();
    text.append(level.color());
    text.append(stamp);
    text.append(" [");
    text.append(file_name(path));
    text.append(":");
    append_decimal(&mut text, line);
    text.append("] [");
    text.append(level.tag_str());
    text.append("] ");
    text.append(message);
    text.append("\x1B[0m");
    text
}

/// The helper that sets the process's logger up.
#[derive(Debug)]
pub struct LogHelper {}

impl LogHelper {
    /// The level to set the process's logger up with, for the flag
    /// `log_level_str`.
    pub fn init_logger(log_level_str: &str) -> (level: LogLevel)
        ensures
            level == level_of_flag(log_level_str@),
    {
        if log_level_str.unicode_len() != 1 {
            return LogLevel::Trace;
        }
        let letter: char = log_level_str.get_char(0);
        assert(log_level_str@ =~= seq![letter]);
        if letter == 'D' {
            LogLevel::Debug
        } else if letter == 'I' {
            LogLevel::Info
        } else if letter == 'W' {
            LogLevel::Warn
        } else if letter == 'E' {
            LogLevel::Error
        } else {
            LogLevel::Trace
        }
    }
}

/// What the first initialisation makes of the logging state `state`, and
/// what every later one leaves of it: the level of the first flag.
pub open spec fn after_init(state: Option<LogLevel>, flag: Seq<char>) -> Option<LogLevel> {
    match state {
        Some(_) => state,
        None => Some(level_of_flag(flag)),
    }
}

/// The logging state after initialisations with `flags`, in order.
pub open spec fn after_inits(state: Option<LogLevel>, flags: Seq<Seq<char>>) -> Option<LogLevel>
    decreases flags.len(),
{
    if flags.len() == 0 {
        state
    } else {
        after_init(after_inits(state, flags.drop_last()), flags.last())
    }
}

/// The logging state of a process: whether its logger has been set up, and
/// with what level. A process has one.
#[derive(Debug)]
pub struct LoggerOnce {
    level: Option<LogLevel>,
}

impl View for LoggerOnce {
    type V = Option<LogLevel>;

    closed spec fn view(&self) -> Option<LogLevel> {
        self.level
    }
}

impl LoggerOnce {
    /// The state of a process whose logger has not been set up.
    pub fn new() -> (once: LoggerOnce)
        ensures
            once@ is None,
    {
        LoggerOnce { level: None }
    }

    /// The level that the logger was set up with, if it was.
    pub fn level(&self) -> (level: Option<LogLevel>)
        ensures
            level == self@,
    {
        self.level
    }
}

/// Initialises logging, once: the first call says with what level the
/// logger is to be set up now, and every later call says that nothing is to
/// be done, and changes nothing.
pub fn init_logger(once: &mut LoggerOnce, log_level: &str) -> (install: Option<LogLevel>)
    ensures
        final(once)@ == after_init(old(once)@, log_level@),
        install == (if old(once)@ is None {
            Some(level_of_flag(log_level@))
        } else {
            None
        }),
{
    match once.level {
        Some(_) => None,
        None => {
            let level: LogLevel = LogHelper::init_logger(log_level);
            once.level = Some(level);
            Some(level)
        },
    }
}

/// Initialisation is idempotent: however often it is repeated and with
/// whatever flags, the level is that of the first flag, and is never
/// changed again.
pub proof fn init_is_idempotent(first: Seq<char>, flags: Seq<Seq<char>>)
    ensures
        after_inits(Some(level_of_flag(first)), flags) == Some(level_of_flag(first)),
        after_inits(None, seq![first] + flags) == Some(level_of_flag(first)),
    decreases flags.len(),
{
    if flags.len() == 0 {
        assert((seq![first] + flags).drop_last() =~= Seq::<Seq<char>>::empty());
        assert((seq![first] + flags).last() == first);
        assert(after_inits(None, Seq::<Seq<char>>::empty()) == None::<LogLevel>);
    } else {
        init_is_idempotent(first, flags.drop_last());
        assert((seq![first] + flags).drop_last() =~= seq![first] + flags.drop_last());
        assert((seq![first] + flags).last() == flags.last());
    }
}

} // verus!
