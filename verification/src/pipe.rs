//! The two message pipes that the game connects to: what each outcome of the
//! operating system's calls means.
//!
//! The caller makes the calls and hands their outcomes over.

use crate::adapter_worker::WriteOutcome;
use crate::codec::{self, AcreCodecError, AcreMessage, ACRE_MAX_MESSAGE_BYTES};
use crate::decimal::{self, push_decimal};
use crate::model;
use crate::text::chars_of;
use vstd::prelude::*;

verus! {

/// The pipe that the game reads.
pub const ACRE_FROM_TS_PIPE: &'static str = "\\\\.\\pipe\\acre_comm_pipe_fromTS";

/// The pipe that the game writes.
pub const ACRE_TO_TS_PIPE: &'static str = "\\\\.\\pipe\\acre_comm_pipe_toTS";

/// The most reads that drop the rest of one oversized message.
pub const MAX_DRAIN_CHUNKS: usize = 64;

/// The client end of the pipe is closed.
pub const ERROR_BROKEN_PIPE: u32 = 109;

/// There is nothing to read, or no room to write.
pub const ERROR_NO_DATA: u32 = 232;

/// The message is longer than the buffer.
pub const ERROR_MORE_DATA: u32 = 234;

/// The client connected before the server asked.
pub const ERROR_PIPE_CONNECTED: u32 = 535;

/// No client has connected yet.
pub const ERROR_PIPE_LISTENING: u32 = 536;

/// Why a pipe operation failed.
#[derive(Debug, PartialEq, Eq)]
pub enum AcrePipeError {
    NotConnected { pipe: &'static str },
    Disconnected { pipe: &'static str },
    WouldBlock { pipe: &'static str },
    MessageTooLong { pipe: &'static str },
    ShortWrite { pipe: &'static str, expected: usize, actual: usize },
    System { pipe: &'static str, operation: &'static str, code: u32 },
    Codec(AcreCodecError),
}

/// The model of a failure.
#[verifier::ext_equal]
pub enum PipeFault {
    NotConnected { pipe: Seq<char> },
    Disconnected { pipe: Seq<char> },
    WouldBlock { pipe: Seq<char> },
    MessageTooLong { pipe: Seq<char> },
    ShortWrite { pipe: Seq<char>, expected: usize, actual: usize },
    System { pipe: Seq<char>, operation: Seq<char>, code: u32 },
    Codec(AcreCodecError),
}

impl View for AcrePipeError {
    type V = PipeFault;

    open spec fn view(&self) -> PipeFault {
        match *self {
            AcrePipeError::NotConnected { pipe } => PipeFault::NotConnected { pipe: pipe@ },
            AcrePipeError::Disconnected { pipe } => PipeFault::Disconnected { pipe: pipe@ },
            AcrePipeError::WouldBlock { pipe } => PipeFault::WouldBlock { pipe: pipe@ },
            AcrePipeError::MessageTooLong { pipe } => PipeFault::MessageTooLong { pipe: pipe@ },
            AcrePipeError::ShortWrite { pipe, expected, actual } => PipeFault::ShortWrite {
                pipe: pipe@,
                expected,
                actual,
            },
            AcrePipeError::System { pipe, operation, code } => PipeFault::System {
                pipe: pipe@,
                operation: operation@,
                code,
            },
            AcrePipeError::Codec(error) => PipeFault::Codec(error),
        }
    }
}

impl PipeFault {
    /// The failure in words.
    pub open spec fn words(self) -> Seq<char> {
        match self {
            PipeFault::NotConnected { pipe } => "ACRE pipe "@ + pipe + " is not connected"@,
            PipeFault::Disconnected { pipe } => "ACRE pipe "@ + pipe + " was disconnected"@,
            PipeFault::WouldBlock { pipe } => "ACRE pipe "@ + pipe + " has backpressure"@,
            PipeFault::MessageTooLong { pipe } => "ACRE pipe "@ + pipe
                + " sent a message larger than "@ + decimal::decimal(
                ACRE_MAX_MESSAGE_BYTES as nat,
            ) + " bytes"@,
            PipeFault::ShortWrite { pipe, expected, actual } => "ACRE pipe "@ + pipe + " wrote "@
                + decimal::decimal(actual as nat) + " of "@ + decimal::decimal(expected as nat)
                + " bytes"@,
            PipeFault::System { pipe, operation, code } => operation + " failed for ACRE pipe "@
                + pipe + " (Win32 error "@ + decimal::decimal(code as nat) + ")"@,
            PipeFault::Codec(error) => error.words(),
        }
    }

    /// Whether the failure means that the connection is gone.
    pub open spec fn breaks(self) -> bool {
        self is Disconnected || self is NotConnected
    }
}

impl AcrePipeError {
    /// Puts the failure into words.
    pub fn to_string(&self) -> (words: String)
        ensures
            words@ == self@.words(),
    {
        let mut words: String = "ACRE pipe ".to_owned();
        match self {
            AcrePipeError::NotConnected { pipe } => {
                words.append(pipe);
                words.append(" is not connected");
                words
            },
            AcrePipeError::Disconnected { pipe } => {
                words.append(pipe);
                words.append(" was disconnected");
                words
            },
            AcrePipeError::WouldBlock { pipe } => {
                words.append(pipe);
                words.append(" has backpressure");
                words
            },
            AcrePipeError::MessageTooLong { pipe } => {
                words.append(pipe);
                words.append(" sent a message larger than ");
                push_decimal(&mut words, ACRE_MAX_MESSAGE_BYTES as u64);
                words.append(" bytes");
                words
            },
            AcrePipeError::ShortWrite { pipe, expected, actual } => {
                words.append(pipe);
                words.append(" wrote ");
                push_decimal(&mut words, *actual as u64);
                words.append(" of ");
                push_decimal(&mut words, *expected as u64);
                words.append(" bytes");
                words
            },
            AcrePipeError::System { pipe, operation, code } => {
                let mut words: String = (*operation).to_owned();
                words.append(" failed for ACRE pipe ");
                words.append(pipe);
                words.append(" (Win32 error ");
                push_decimal(&mut words, *code as u64);
                words.append(")");
                words
            },
            AcrePipeError::Codec(error) => error.to_string(),
        }
    }

    /// Whether the failure means that the connection is gone.
    pub fn is_broken(&self) -> (answer: bool)
        ensures
            answer == self@.breaks(),
    {
        match self {
            AcrePipeError::Disconnected { pipe } => true,
            AcrePipeError::NotConnected { pipe } => true,
            _ => false,
        }
    }
}

/// One server end of a pipe: its name, and whether a client is connected.
#[derive(Clone, Copy, Debug)]
pub struct PipeEnd {
    pub name: &'static str,
    pub connected: bool,
}

/// What to do after a read.
#[derive(Debug, PartialEq, Eq)]
pub enum ReadStep {
    Message(Vec<u8>),
    Nothing,
    /// The client is gone: disconnect the pipe, then report the failure.
    Disconnect(AcrePipeError),
    /// The message is too long: drop the rest of it, then report the failure.
    Drain(AcrePipeError),
    Failed(AcrePipeError),
}

/// The model of what to do after a read.
#[verifier::ext_equal]
pub enum ReadView {
    Message(Seq<u8>),
    Nothing,
    Disconnect(PipeFault),
    Drain(PipeFault),
    Failed(PipeFault),
}

impl View for ReadStep {
    type V = ReadView;

    open spec fn view(&self) -> ReadView {
        match *self {
            ReadStep::Message(bytes) => ReadView::Message(bytes@),
            ReadStep::Nothing => ReadView::Nothing,
            ReadStep::Disconnect(error) => ReadView::Disconnect(error@),
            ReadStep::Drain(error) => ReadView::Drain(error@),
            ReadStep::Failed(error) => ReadView::Failed(error@),
        }
    }
}

/// What a read came to: whether the call succeeded, how many bytes it put into
/// the buffer, and the error code if it failed.
pub open spec fn after_read(
    pipe: Seq<char>,
    success: bool,
    buffer: Seq<u8>,
    count: u32,
    code: u32,
) -> ReadView {
    if success {
        if count == 0 {
            ReadView::Nothing
        } else {
            ReadView::Message(buffer.take(count as int))
        }
    } else if code == ERROR_NO_DATA {
        ReadView::Nothing
    } else if code == ERROR_BROKEN_PIPE {
        ReadView::Disconnect(PipeFault::Disconnected { pipe })
    } else if code == ERROR_MORE_DATA {
        ReadView::Drain(PipeFault::MessageTooLong { pipe })
    } else {
        ReadView::Failed(PipeFault::System { pipe, operation: "ReadFile"@, code })
    }
}

/// What a write of `length` bytes came to: nothing wrong, or the failure.
pub open spec fn after_write(
    pipe: Seq<char>,
    success: bool,
    length: usize,
    count: u32,
    code: u32,
) -> Option<PipeFault> {
    if success && count == length {
        None
    } else if code == ERROR_NO_DATA {
        Some(PipeFault::WouldBlock { pipe })
    } else if code == ERROR_BROKEN_PIPE {
        Some(PipeFault::Disconnected { pipe })
    } else if success {
        Some(PipeFault::ShortWrite { pipe, expected: length, actual: count as usize })
    } else {
        Some(PipeFault::System { pipe, operation: "WriteFile"@, code })
    }
}

/// What an attempt to connect came to: whether a client is connected, or the
/// failure.
pub open spec fn after_connect(pipe: Seq<char>, success: bool, code: u32) -> Result<
    bool,
    PipeFault,
> {
    if success || code == ERROR_PIPE_CONNECTED {
        Ok(true)
    } else if code == ERROR_PIPE_LISTENING {
        Ok(false)
    } else {
        Err(PipeFault::System { pipe, operation: "ConnectNamedPipe"@, code })
    }
}

/// Whether dropping an oversized message goes on.
pub open spec fn goes_on_draining(chunks: int, success: bool, code: u32) -> bool {
    chunks < MAX_DRAIN_CHUNKS && !success && code == ERROR_MORE_DATA
}

/// What a write means for the worker.
pub open spec fn meaning(failure: Option<PipeFault>) -> crate::adapter_worker::WriteView {
    match failure {
        None => crate::adapter_worker::WriteView::Written,
        Some(fault) => if fault is WouldBlock {
            crate::adapter_worker::WriteView::WouldBlock
        } else if fault.breaks() {
            crate::adapter_worker::WriteView::Broken
        } else {
            crate::adapter_worker::WriteView::Failed(fault.words())
        },
    }
}

impl PipeEnd {
    /// An end that no client is connected to.
    pub fn new(name: &'static str) -> (end: Self)
        ensures
            end.name@ == name@ && !end.connected,
    {
        PipeEnd { name, connected: false }
    }

    /// Takes note of an attempt to connect.
    pub fn see_connect(&mut self, success: bool, code: u32) -> (outcome: Result<
        bool,
        AcrePipeError,
    >)
        ensures
            model::outcome(outcome) == after_connect(old(self).name@, success, code),
            final(self).name@ == old(self).name@,
            final(self).connected == (old(self).connected || after_connect(
                old(self).name@,
                success,
                code,
            ) == Ok::<bool, PipeFault>(true)),
    {
        if success || code == ERROR_PIPE_CONNECTED {
            self.connected = true;
            return Ok(true);
        }
        if code == ERROR_PIPE_LISTENING {
            return Ok(false);
        }
        Err(AcrePipeError::System { pipe: self.name, operation: "ConnectNamedPipe", code })
    }

    /// The failure of a read or a write without a client.
    pub fn check_connected(&self) -> (verdict: Result<(), AcrePipeError>)
        ensures
            model::outcome(verdict) == if self.connected {
                Ok::<(), PipeFault>(())
            } else {
                Err(PipeFault::NotConnected { pipe: self.name@ })
            },
    {
        if self.connected {
            Ok(())
        } else {
            Err(AcrePipeError::NotConnected { pipe: self.name })
        }
    }

    /// Takes note of a read.
    pub fn see_read(&self, success: bool, buffer: &[u8], count: u32, code: u32) -> (step: ReadStep)
        requires
            count <= buffer@.len(),
        ensures
            step@ == after_read(self.name@, success, buffer@, count, code),
    {
        if success {
            if count == 0 {
                return ReadStep::Nothing;
            }
            let bytes: Vec<u8> = copy_bytes(buffer, count as usize);
            return ReadStep::Message(bytes);
        }
        if code == ERROR_NO_DATA {
            ReadStep::Nothing
        } else if code == ERROR_BROKEN_PIPE {
            ReadStep::Disconnect(AcrePipeError::Disconnected { pipe: self.name })
        } else if code == ERROR_MORE_DATA {
            ReadStep::Drain(AcrePipeError::MessageTooLong { pipe: self.name })
        } else {
            ReadStep::Failed(
                AcrePipeError::System { pipe: self.name, operation: "ReadFile", code },
            )
        }
    }

    /// Whether dropping an oversized message goes on after `chunks` reads, of
    /// which the last one came to the given outcome.
    pub fn drains_on(chunks: usize, success: bool, code: u32) -> (answer: bool)
        ensures
            answer == goes_on_draining(chunks as int, success, code),
    {
        chunks < MAX_DRAIN_CHUNKS && !success && code == ERROR_MORE_DATA
    }

    /// Takes note of a write of `length` bytes.
    pub fn see_write(&self, success: bool, length: usize, count: u32, code: u32) -> (outcome: Result<
        (),
        AcrePipeError,
    >)
        ensures
            match after_write(self.name@, success, length, count, code) {
                None => outcome is Ok,
                Some(fault) => outcome is Err && outcome->Err_0@ == fault,
            },
    {
        if success && count as usize == length {
            return Ok(());
        }
        if code == ERROR_NO_DATA {
            Err(AcrePipeError::WouldBlock { pipe: self.name })
        } else if code == ERROR_BROKEN_PIPE {
            Err(AcrePipeError::Disconnected { pipe: self.name })
        } else if success {
            Err(
                AcrePipeError::ShortWrite {
                    pipe: self.name,
                    expected: length,
                    actual: count as usize,
                },
            )
        } else {
            Err(AcrePipeError::System { pipe: self.name, operation: "WriteFile", code })
        }
    }

    /// Takes note that the client was disconnected.
    pub fn disconnected(&mut self)
        ensures
            final(self).name@ == old(self).name@ && !final(self).connected,
    {
        self.connected = false;
    }

    /// The number of bytes of a message for the operating system.
    pub fn win32_byte_count(&self, byte_count: usize) -> (count: Result<u32, AcrePipeError>)
        ensures
            model::outcome(count) == if byte_count > ACRE_MAX_MESSAGE_BYTES {
                Err::<u32, PipeFault>(PipeFault::MessageTooLong { pipe: self.name@ })
            } else {
                Ok(byte_count as u32)
            },
    {
        if byte_count > ACRE_MAX_MESSAGE_BYTES {
            return Err(AcrePipeError::MessageTooLong { pipe: self.name });
        }
        Ok(byte_count as u32)
    }
}

/// The first bytes of a buffer.
fn copy_bytes(buffer: &[u8], count: usize) -> (bytes: Vec<u8>)
    requires
        count <= buffer@.len(),
    ensures
        bytes@ == buffer@.take(count as int),
{
    let mut bytes: Vec<u8> = Vec::new();
    let mut i: usize = 0;
    while i < count
        invariant
            i <= count <= buffer@.len(),
            bytes@ =~= buffer@.take(i as int),
        decreases count - i,
    {
        bytes.push(buffer[i]);
        i += 1;
    }
    bytes
}

/// The message that was read, if any.
pub fn parse_read(read: Result<Option<Vec<u8>>, AcrePipeError>) -> (message: Result<
    Option<AcreMessage>,
    AcrePipeError,
>)
    ensures
        match read {
            Err(error) => message is Err && message->Err_0@ == error@,
            Ok(None) => message is Ok && message->Ok_0 is None,
            Ok(Some(bytes)) => match codec::parsed(bytes@) {
                Ok(parsed) => message is Ok && message->Ok_0 is Some && message->Ok_0->0@
                    == parsed,
                Err(fault) => message is Err && message->Err_0@ == PipeFault::Codec(fault),
            },
        },
{
    match read {
        Err(error) => Err(error),
        Ok(None) => Ok(None),
        Ok(Some(bytes)) => match AcreMessage::parse(bytes.as_slice()) {
            Ok(message) => Ok(Some(message)),
            Err(error) => Err(AcrePipeError::Codec(error)),
        },
    }
}

/// What a write means for the worker.
pub fn write_outcome(outcome: Result<(), AcrePipeError>) -> (seen: WriteOutcome)
    ensures
        seen@ == meaning(
            match outcome {
                Ok(_) => None,
                Err(error) => Some(error@),
            },
        ),
{
    match outcome {
        Ok(_) => WriteOutcome::Written,
        Err(error) => match &error {
            AcrePipeError::WouldBlock { pipe } => WriteOutcome::WouldBlock,
            _ => if error.is_broken() {
                WriteOutcome::Broken
            } else {
                WriteOutcome::Failed(error.to_string())
            },
        },
    }
}

/// The UTF-16 units of a character.
pub open spec fn utf16_units(c: char) -> Seq<u16> {
    let n = c as int;
    if n < 0x1_0000 {
        seq![n as u16]
    } else {
        seq![(0xd800 + (n - 0x1_0000) / 0x400) as u16, (0xdc00 + (n - 0x1_0000) % 0x400) as u16]
    }
}

/// The UTF-16 units of a text.
pub open spec fn utf16(text: Seq<char>) -> Seq<u16>
    decreases text.len(),
{
    if text.len() == 0 {
        Seq::empty()
    } else {
        utf16(text.drop_last()) + utf16_units(text.last())
    }
}

/// Appends the UTF-16 units of a character.
fn push_units(wide: &mut Vec<u16>, c: char)
    ensures
        final(wide)@ == old(wide)@ + utf16_units(c),
{
    let n: u32 = c as u32;
    if n < 0x1_0000 {
        wide.push(n as u16);
    } else {
        wide.push((0xd800 + (n - 0x1_0000) / 0x400) as u16);
        wide.push((0xdc00 + (n - 0x1_0000) % 0x400) as u16);
    }
    assert(wide@ =~= old(wide)@ + utf16_units(c));
}

/// The text in UTF-16, with a NUL behind it.
pub fn wide_nul(value: &str) -> (wide: Vec<u16>)
    ensures
        wide@ == utf16(value@).push(0),
{
    let chars: Vec<char> = chars_of(value);
    let mut wide: Vec<u16> = Vec::new();
    let mut i: usize = 0;
    assert(chars@.take(0) =~= Seq::<char>::empty());
    while i < chars.len()
        invariant
            i <= chars@.len(),
            wide@ == utf16(chars@.take(i as int)),
        decreases chars@.len() - i,
    {
        proof {
            assert(chars@.take(i + 1).drop_last() =~= chars@.take(i as int));
            assert(chars@.take(i + 1).last() == chars@[i as int]);
        }
        push_units(&mut wide, chars[i]);
        i += 1;
    }
    assert(chars@.take(i as int) =~= chars@);
    wide.push(0);
    wide
}

/// A read that succeeded yields exactly its bytes, or nothing if there were
/// none. Of the failures, 232 means that nothing is there, 109 that the game is
/// gone, 234 that the message is too long, and any other one is reported with
/// its number.
pub proof fn law_reads_yield_their_bytes(
    pipe: Seq<char>,
    buffer: Seq<u8>,
    count: u32,
    code: u32,
)
    requires
        count <= buffer.len(),
    ensures
        count > 0 ==> after_read(pipe, true, buffer, count, code) == ReadView::Message(
            buffer.subrange(0, count as int),
        ),
        count == 0 ==> after_read(pipe, true, buffer, count, code) is Nothing,
        ({
            let failed = after_read(pipe, false, buffer, count, code);
            &&& failed is Nothing <==> code == 232
            &&& failed is Disconnect <==> code == 109
            &&& failed is Drain <==> code == 234
            &&& failed is Disconnect ==> failed == ReadView::Disconnect(
                PipeFault::Disconnected { pipe },
            )
            &&& failed is Drain ==> failed == ReadView::Drain(PipeFault::MessageTooLong { pipe })
            &&& code != 232 && code != 109 && code != 234 ==> failed is Failed
                && failed->Failed_0 is System && failed->Failed_0->code == code
        }),
{
}

/// A write counts exactly if every byte was written. Otherwise 232 means that
/// the game does not keep up, 109 that it is gone; only the latter breaks the
/// connection, and only the former is tried again.
pub proof fn law_writes_count_if_complete(
    pipe: Seq<char>,
    success: bool,
    length: usize,
    count: u32,
    code: u32,
)
    ensures
        ({
            let failure = after_write(pipe, success, length, count, code);
            &&& failure is None <==> success && count == length
            &&& meaning(failure) is Written <==> success && count == length
            &&& failure is Some ==> {
                &&& meaning(failure) is WouldBlock <==> code == 232
                &&& meaning(failure) is Broken <==> code == 109
            }
            &&& failure is Some && success && code != 232 && code != 109 ==> failure == Some(
                PipeFault::ShortWrite { pipe, expected: length, actual: count as usize },
            )
        }),
{
}

/// A client is connected if the attempt succeeded or 535 says that it was
/// connected already; 536 says that nobody is there yet; anything else is a
/// failure.
pub proof fn law_connections_are_recognized(pipe: Seq<char>, success: bool, code: u32)
    ensures
        after_connect(pipe, success, code) == Ok::<bool, PipeFault>(true) <==> success || code
            == 535,
        after_connect(pipe, success, code) == Ok::<bool, PipeFault>(false) <==> !success && code
            == 536,
{
}

/// The rest of a message that is too long is dropped in at most 64 further
/// reads, as long as each says that more is there.
pub proof fn law_long_messages_are_drained(chunks: int, success: bool, code: u32)
    ensures
        goes_on_draining(chunks, success, code) <==> chunks < 64 && !success && code == 234,
{
}

/// A character is one unit if it fits into one, and two surrogates that compose
/// it otherwise.
pub proof fn law_characters_are_composed_of_their_units(c: char)
    ensures
        ({
            let units = utf16_units(c);
            &&& (c as int) < 0x1_0000 ==> units.len() == 1 && units[0] == c as int
            &&& c as int >= 0x1_0000 ==> {
                &&& units.len() == 2
                &&& 0xd800 <= units[0] <= 0xdbff
                &&& 0xdc00 <= units[1] <= 0xdfff
                &&& 0x1_0000 + (units[0] - 0xd800) * 0x400 + (units[1] - 0xdc00) == c as int
            }
        }),
{
}

/// The units of a text are those of its characters, one behind the other.
pub proof fn law_units_follow_the_text(first: Seq<char>, second: Seq<char>, c: char)
    ensures
        utf16(first + second) == utf16(first) + utf16(second),
        utf16(seq![c]) == utf16_units(c),
        utf16(Seq::empty()) == Seq::<u16>::empty(),
    decreases second.len(),
{
    assert(seq![c].drop_last() =~= Seq::<char>::empty());
    assert(utf16(Seq::empty()) == Seq::<u16>::empty());
    assert(utf16(seq![c]) == utf16(seq![c].drop_last()) + utf16_units(c));
    assert(Seq::<u16>::empty() + utf16_units(c) =~= utf16_units(c));
    if second.len() == 0 {
        assert(first + second =~= first);
        assert(utf16(first) + Seq::<u16>::empty() =~= utf16(first));
    } else {
        law_units_follow_the_text(first, second.drop_last(), c);
        assert((first + second).drop_last() =~= first + second.drop_last());
        assert(utf16(first) + (utf16(second.drop_last()) + utf16_units(second.last())) =~= (utf16(
            first,
        ) + utf16(second.drop_last())) + utf16_units(second.last()));
    }
}

} // verus!
