//! Laws of the messages on the wire.
use crate::server::protocol::{
    message_header, read_message, recv_response, send_request, write_message, ReadProgress,
    ReadStep, Response, WireError,
};
use crate::text::decimal_digits;
use vstd::prelude::*;

verus! {

/// The number that four bytes announce, the first counting most.
pub open spec fn announced(bytes: Seq<u8>) -> int {
    bytes[0] * 256 * 256 * 256 + bytes[1] * 256 * 256 + bytes[2] * 256 + bytes[3]
}

/// Whether an error refuses a message of that length.
pub open spec fn refuses(error: WireError, len: nat) -> bool {
    &&& error.kind is InvalidData
    &&& error.message@ == "message too large: "@ + decimal_digits(len) + " bytes"@
}

proof fn lemma_announced(n: nat, bytes: Seq<u8>)
    requires
        n < 0x1_0000_0000,
        bytes.len() == 4,
        bytes == crate::server::protocol::big_endian(n),
    ensures
        announced(bytes) == n,
{
}

/// A message is sent as four bytes that announce its length and then the message,
/// byte by byte, whatever its length, as long as four bytes can hold that. A longer
/// one is not sent.
pub proof fn law_message_is_announced(data: &[u8], framed: Result<Vec<u8>, WireError>)
    requires
        call_ensures(write_message, (data,), framed),
    ensures
        framed is Ok <==> data@.len() <= 0xffff_ffff,
        framed matches Ok(bytes) ==> bytes@.len() == 4 + data@.len() && announced(bytes@.take(4))
            == data@.len() && bytes@.skip(4) == data@,
        framed matches Err(e) ==> refuses(e, data@.len()),
{
    if framed is Ok {
        let bytes = framed->Ok_0@;
        assert(bytes.take(4) =~= crate::server::protocol::big_endian(data@.len()));
        assert(bytes.skip(4) =~= data@);
        lemma_announced(data@.len(), bytes.take(4));
    }
}

/// The header of a length announces that length.
pub proof fn law_header_announces_the_length(len: usize, header: Result<Vec<u8>, WireError>)
    requires
        call_ensures(message_header, (len,), header),
    ensures
        header is Ok <==> len <= 0xffff_ffff,
        header matches Ok(bytes) ==> bytes@.len() == 4 && announced(bytes@) == len,
        header matches Err(e) ==> refuses(e, len as nat),
{
    if header is Ok {
        lemma_announced(len as nat, header->Ok_0@);
    }
}

/// A reader wants four bytes first. If they announce no more than 64 MiB it wants
/// just as many next, and takes those as the message; if more, it refuses.
pub proof fn law_reader_follows_the_header(
    header: Vec<u8>,
    first: ReadStep,
    wanted_first: usize,
    len: usize,
    body: Vec<u8>,
    second: ReadStep,
    wanted_second: usize,
)
    requires
        call_ensures(ReadProgress::wanted, (&ReadProgress::Header,), wanted_first),
        header@.len() == 4,
        call_ensures(read_message, (ReadProgress::Header, header), first),
        call_ensures(ReadProgress::wanted, (&ReadProgress::Body { len },), wanted_second),
        body@.len() == len,
        call_ensures(read_message, (ReadProgress::Body { len }, body), second),
    ensures
        wanted_first == 4,
        announced(header@) <= 64 * 1024 * 1024 ==> first == ReadStep::More(
            ReadProgress::Body { len: announced(header@) as usize },
        ),
        announced(header@) > 64 * 1024 * 1024 ==> (first matches ReadStep::Refused(e) && refuses(
            e,
            announced(header@) as nat,
        )),
        wanted_second == len,
        second matches ReadStep::Message(data) && data@ == body@,
{
    assert(announced(header@) == crate::server::protocol::from_big_endian(header@));
}

/// What is sent is what a reader reads, whatever follows on the wire.
pub proof fn law_what_is_sent_is_read(
    data: &[u8],
    framed: Result<Vec<u8>, WireError>,
    header: Vec<u8>,
    first: ReadStep,
    body: Vec<u8>,
    second: ReadStep,
)
    requires
        data@.len() <= 64 * 1024 * 1024,
        call_ensures(write_message, (data,), framed),
        framed is Ok,
        header@ == framed->Ok_0@.take(4),
        call_ensures(read_message, (ReadProgress::Header, header), first),
        first is More,
        body@ == framed->Ok_0@.skip(4),
        body@.len() == first->More_0.wanted_len(),
        call_ensures(read_message, (first->More_0, body), second),
    ensures
        first->More_0 == (ReadProgress::Body { len: data@.len() as usize }),
        second matches ReadStep::Message(read) && read@ == data@,
{
    law_message_is_announced(data, framed);
    assert(announced(header@) == crate::server::protocol::from_big_endian(header@));
}

/// A request is sent like any message; an encoding that failed is passed on.
pub proof fn law_request_is_sent_as_a_message(
    json: Vec<u8>,
    data: &[u8],
    error: String,
    framed: Result<Vec<u8>, WireError>,
    sent: Result<Vec<u8>, WireError>,
    failed: Result<Vec<u8>, WireError>,
)
    requires
        data@ == json@,
        call_ensures(write_message, (data,), framed),
        call_ensures(send_request, (Ok(json),), sent),
        call_ensures(send_request, (Err(error),), failed),
    ensures
        sent is Ok <==> framed is Ok,
        sent matches Ok(bytes) ==> bytes@ == framed->Ok_0@,
        sent matches Err(e) ==> refuses(e, json@.len()),
        failed matches Err(e) && e.kind is Other && e.message@ == error@,
{
}

/// A response is received as it was decoded; a decoding that failed is invalid data.
pub proof fn law_response_is_received_as_decoded(
    decoded: Result<Response, String>,
    received: Result<Response, WireError>,
)
    requires
        call_ensures(recv_response, (decoded,), received),
    ensures
        decoded matches Ok(response) ==> received == Ok::<Response, WireError>(response),
        decoded matches Err(e) ==> (received matches Err(w) && w.kind is InvalidData && w.message@
            == e@),
{
}

}
