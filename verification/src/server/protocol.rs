//! Requests, responses and the framing of messages on the wire.
//!
//! A message is sent as four bytes that hold its length, most significant
//! byte first, and then its bytes.
use crate::json::JsonValue;
use crate::text::{decimal_digits, push_decimal};
use vstd::prelude::*;

verus! {

/// What a client asks of the server.
#[derive(Debug, PartialEq)]
pub enum Request {
    Query { sql: String },
    Ping,
    Shutdown,
    Status,
}

/// The model of a request.
pub enum Asked {
    Query(Seq<char>),
    Ping,
    Shutdown,
    Status,
}

impl View for Request {
    type V = Asked;

    open spec fn view(&self) -> Asked {
        match self {
            Request::Query { sql } => Asked::Query(sql@),
            Request::Ping => Asked::Ping,
            Request::Shutdown => Asked::Shutdown,
            Request::Status => Asked::Status,
        }
    }
}

/// The name and the type of a result column.
#[derive(Debug, PartialEq)]
pub struct ColumnMeta {
    pub name: String,
    pub data_type: String,
}

/// What the server answers.
#[derive(Debug, PartialEq)]
pub enum Response {
    Result {
        columns: Vec<ColumnMeta>,
        rows: Vec<JsonValue>,
        row_count: usize,
        query_time_ms: serde_json::Number,
    },
    Error { message: String },
    Pong,
    Status { table_count: usize, parquet_dir: String, uptime_secs: u64 },
}

/// The largest message that is accepted, in bytes.
pub const MAX_MESSAGE_LEN: usize = 64 * 1024 * 1024;

/// The number of bytes in front of a message.
pub const HEADER_LEN: usize = 4;

/// What kind of failure an exchange of messages ended in.
#[derive(Debug, Clone, Copy, PartialEq, Eq, Structural)]
pub enum WireErrorKind {
    InvalidData,
    Other,
}

/// A failure of an exchange of messages that the transport did not cause.
#[derive(Debug, PartialEq)]
pub struct WireError {
    pub kind: WireErrorKind,
    pub message: String,
}

/// How far the reading of a message has come.
#[derive(Debug, Clone, Copy, PartialEq, Eq, Structural)]
pub enum ReadProgress {
    Header,
    Body { len: usize },
}

/// What follows from the bytes that were read last.
#[derive(Debug, PartialEq)]
pub enum ReadStep {
    More(ReadProgress),
    Message(Vec<u8>),
    Refused(WireError),
}

/// The four bytes of a number below 2^32, most significant byte first.
pub open spec fn big_endian(n: nat) -> Seq<u8> {
    seq![
        (n / 0x100_0000 % 0x100) as u8,
        (n / 0x1_0000 % 0x100) as u8,
        (n / 0x100 % 0x100) as u8,
        (n % 0x100) as u8,
    ]
}

/// The number that four bytes hold, most significant byte first.
pub open spec fn from_big_endian(bytes: Seq<u8>) -> nat {
    (bytes[0] * 0x100_0000 + bytes[1] * 0x1_0000 + bytes[2] * 0x100 + bytes[3]) as nat
}

/// Whether the length of a message fits in its header.
pub open spec fn fits_header(data: Seq<u8>) -> bool {
    data.len() < 0x1_0000_0000
}

/// A message with its header, which holds the length of the message.
pub open spec fn frame(data: Seq<u8>) -> Seq<u8> {
    big_endian(data.len()) + data
}

/// Whether an error says that a message of that length is too large.
pub open spec fn is_too_large(error: WireError, len: nat) -> bool {
    error.kind == WireErrorKind::InvalidData && error.message@ == too_large_text(len)
}

/// The text of the refusal of a message that is too large.
pub open spec fn too_large_text(len: nat) -> Seq<char> {
    "message too large: "@ + decimal_digits(len) + " bytes"@
}

impl ReadProgress {
    /// The number of bytes that are read next.
    pub open spec fn wanted_len(self) -> nat {
        match self {
            ReadProgress::Header => HEADER_LEN as nat,
            ReadProgress::Body { len } => len as nat,
        }
    }

    /// The number of bytes to read next.
    pub fn wanted(&self) -> (n: usize)
        ensures
            n == self.wanted_len(),
    {
        match self {
            ReadProgress::Header => HEADER_LEN,
            ReadProgress::Body { len } => *len,
        }
    }
}

/// How a reader goes on once it has read what it wanted: a header announces
/// the length of the body, or is refused if it announces too much; the body is
/// the message.
pub open spec fn reads(progress: ReadProgress, chunk: Seq<u8>, step: ReadStep) -> bool {
    match progress {
        ReadProgress::Header => {
            let len = from_big_endian(chunk);
            if len > MAX_MESSAGE_LEN {
                step matches ReadStep::Refused(e) && is_too_large(e, len)
            } else {
                step == ReadStep::More(ReadProgress::Body { len: len as usize })
            }
        },
        ReadProgress::Body { len } => step matches ReadStep::Message(data) && data@ == chunk,
    }
}

fn too_large(len: usize) -> (error: WireError)
    ensures
        is_too_large(error, len as nat),
{
    let mut message = "message too large: ".to_string();
    push_decimal(&mut message, len as u128);
    message.append(" bytes");
    WireError { kind: WireErrorKind::InvalidData, message }
}

/// Takes the bytes that were read and says how the reading goes on.
pub fn read_message(progress: ReadProgress, chunk: Vec<u8>) -> (step: ReadStep)
    requires
        chunk@.len() == progress.wanted_len(),
    ensures
        reads(progress, chunk@, step),
{
    match progress {
        ReadProgress::Header => {
            let len: u32 = chunk[0] as u32 * 0x100_0000 + chunk[1] as u32 * 0x1_0000
                + chunk[2] as u32 * 0x100 + chunk[3] as u32;
            let len: usize = len as usize;
            if len > MAX_MESSAGE_LEN {
                ReadStep::Refused(too_large(len))
            } else {
                ReadStep::More(ReadProgress::Body { len })
            }
        },
        ReadProgress::Body { len } => ReadStep::Message(chunk),
    }
}

/// The header of a message of that length, unless the length does not fit in it.
pub fn message_header(len: usize) -> (header: Result<Vec<u8>, WireError>)
    ensures
        match header {
            Ok(bytes) => len < 0x1_0000_0000 && bytes@ == big_endian(len as nat),
            Err(e) => len >= 0x1_0000_0000 && is_too_large(e, len as nat),
        },
{
    let n: u64 = len as u64;
    if n >= 0x1_0000_0000 {
        return Err(too_large(len));
    }
    let mut bytes: Vec<u8> = Vec::new();
    bytes.push((n / 0x100_0000 % 0x100) as u8);
    bytes.push((n / 0x1_0000 % 0x100) as u8);
    bytes.push((n / 0x100 % 0x100) as u8);
    bytes.push((n % 0x100) as u8);
    assert(bytes@ =~= big_endian(len as nat));
    Ok(bytes)
}

/// The bytes that are sent for a message: its length, then the message. A
/// message whose length does not fit in the header cannot be sent.
pub fn write_message(data: &[u8]) -> (framed: Result<Vec<u8>, WireError>)
    ensures
        match framed {
            Ok(bytes) => fits_header(data@) && bytes@ == frame(data@),
            Err(e) => !fits_header(data@) && is_too_large(e, data@.len()),
        },
{
    match message_header(data.len()) {
        Ok(mut bytes) => {
            bytes.extend_from_slice(data);
            assert(bytes@ =~= frame(data@));
            Ok(bytes)
        },
        Err(e) => Err(e),
    }
}

/// The bytes that are sent for a request, from the outcome of its encoding.
pub fn send_request(encoded: Result<Vec<u8>, String>) -> (sent: Result<Vec<u8>, WireError>)
    ensures
        match encoded {
            Ok(json) => match sent {
                Ok(bytes) => fits_header(json@) && bytes@ == frame(json@),
                Err(e) => !fits_header(json@) && is_too_large(e, json@.len()),
            },
            Err(e) => sent == Err::<Vec<u8>, WireError>(
                WireError { kind: WireErrorKind::Other, message: e },
            ),
        },
{
    match encoded {
        Ok(json) => write_message(json.as_slice()),
        Err(message) => Err(WireError { kind: WireErrorKind::Other, message }),
    }
}

/// The response that was received, from the outcome of its decoding.
pub fn recv_response(decoded: Result<Response, String>) -> (received: Result<Response, WireError>)
    ensures
        match decoded {
            Ok(response) => received == Ok::<Response, WireError>(response),
            Err(e) => received == Err::<Response, WireError>(
                WireError { kind: WireErrorKind::InvalidData, message: e },
            ),
        },
{
    match decoded {
        Ok(response) => Ok(response),
        Err(message) => Err(WireError { kind: WireErrorKind::InvalidData, message }),
    }
}

/// The bytes of a number below 2^32 give that number back.
pub proof fn law_big_endian_round_trip(n: nat)
    requires
        n < 0x1_0000_0000,
    ensures
        from_big_endian(big_endian(n)) == n,
{
}

/// A message of an accepted size is read back as it was sent, whatever follows
/// it on the wire, and nothing behind it is read.
pub proof fn law_message_round_trip(data: Seq<u8>, rest: Seq<u8>, first: ReadStep, second: ReadStep)
    requires
        data.len() <= MAX_MESSAGE_LEN,
        reads(ReadProgress::Header, (frame(data) + rest).take(HEADER_LEN as int), first),
        first matches ReadStep::More(body) ==> reads(
            body,
            (frame(data) + rest).subrange(HEADER_LEN as int, HEADER_LEN + body.wanted_len()),
            second,
        ),
    ensures
        first == ReadStep::More(ReadProgress::Body { len: data.len() as usize }),
        second matches ReadStep::Message(read) && read@ == data,
{
    let wire = frame(data) + rest;
    assert(wire.take(HEADER_LEN as int) =~= big_endian(data.len()));
    law_big_endian_round_trip(data.len());
    assert(wire.subrange(HEADER_LEN as int, HEADER_LEN + data.len()) =~= data);
}

/// Every message that can be sent is announced with its own length.
pub proof fn law_header_holds_the_length(data: Seq<u8>)
    requires
        fits_header(data),
    ensures
        frame(data).len() == HEADER_LEN + data.len(),
        from_big_endian(frame(data).take(HEADER_LEN as int)) == data.len(),
        frame(data).skip(HEADER_LEN as int) == data,
{
    assert(frame(data).take(HEADER_LEN as int) =~= big_endian(data.len()));
    assert(frame(data).skip(HEADER_LEN as int) =~= data);
    law_big_endian_round_trip(data.len());
}

/// A message that can be sent but is above the accepted size is refused on its
/// header alone.
pub proof fn law_large_message_refused(data: Seq<u8>, rest: Seq<u8>, first: ReadStep)
    requires
        fits_header(data),
        data.len() > MAX_MESSAGE_LEN,
        reads(ReadProgress::Header, (frame(data) + rest).take(HEADER_LEN as int), first),
    ensures
        first matches ReadStep::Refused(e) && is_too_large(e, data.len()),
{
    assert((frame(data) + rest).take(HEADER_LEN as int) =~= big_endian(data.len()));
    law_big_endian_round_trip(data.len());
}

/// The frames of some messages, one after another.
pub open spec fn frames(messages: Seq<Seq<u8>>) -> Seq<u8>
    decreases messages.len(),
{
    if messages.len() == 0 {
        Seq::empty()
    } else {
        frame(messages[0]) + frames(messages.skip(1))
    }
}

/// Whether a reader that reads message by message takes those from the wire:
/// each header announces the body that follows, and the body is the message.
pub open spec fn takes_all(wire: Seq<u8>, messages: Seq<Seq<u8>>) -> bool
    decreases messages.len(),
{
    if messages.len() == 0 {
        wire.len() == 0
    } else {
        let len = messages[0].len();
        &&& wire.len() >= HEADER_LEN + len
        &&& reads(
            ReadProgress::Header,
            wire.take(HEADER_LEN as int),
            ReadStep::More(ReadProgress::Body { len: len as usize }),
        )
        &&& wire.subrange(HEADER_LEN as int, HEADER_LEN + len) == messages[0]
        &&& takes_all(wire.skip(HEADER_LEN + len), messages.skip(1))
    }
}

/// Messages of an accepted size that are sent one after another are read back
/// one after another.
pub proof fn law_messages_round_trip(messages: Seq<Seq<u8>>)
    requires
        forall|i: int| 0 <= i < messages.len() ==> (#[trigger] messages[i]).len() <= MAX_MESSAGE_LEN,
    ensures
        takes_all(frames(messages), messages),
    decreases messages.len(),
{
    if messages.len() > 0 {
        let data = messages[0];
        let rest = messages.skip(1);
        let wire = frames(messages);
        law_big_endian_round_trip(data.len());
        assert(wire.take(HEADER_LEN as int) =~= big_endian(data.len()));
        assert(wire.subrange(HEADER_LEN as int, HEADER_LEN + data.len()) =~= data);
        assert(wire.skip(HEADER_LEN + data.len()) =~= frames(rest));
        assert forall|i: int| 0 <= i < rest.len() implies (#[trigger] rest[i]).len()
            <= MAX_MESSAGE_LEN by {
            assert(rest[i] == messages[i + 1]);
        }
        law_messages_round_trip(rest);
    }
}

}
