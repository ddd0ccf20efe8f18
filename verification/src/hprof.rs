//! The head of a JVM heap dump.
//!
//! A dump begins with a label that ends in a zero byte. Behind it stand the size
//! of its ids and the time at which it was taken, in milliseconds since the epoch.
use crate::server::protocol::{big_endian, from_big_endian, law_big_endian_round_trip};
use crate::text::{decimal_digits, push_decimal};
use vstd::prelude::*;
use vstd::utf8::{encode_utf8, valid_utf8};

verus! {

/// The size of the ids of a dump.
#[derive(Debug, Clone, Copy, PartialEq, Eq, Structural)]
pub enum IdSize {
    U32,
    U64,
}

/// What the head of a dump says. A label that is no text is left out.
#[derive(Debug, PartialEq)]
pub struct HprofHead {
    pub label: Option<String>,
    pub id_size: IdSize,
    pub timestamp_millis: u64,
}

/// A dump: its head, and where its records begin.
#[derive(Debug, PartialEq)]
pub struct Hprof {
    pub head: HprofHead,
    pub records_at: usize,
}

/// The number of bytes of the label: those in front of the first zero byte.
pub open spec fn label_len(data: Seq<u8>) -> nat
    decreases data.len(),
{
    if data.len() == 0 || data[0] == 0 {
        0
    } else {
        1 + label_len(data.skip(1))
    }
}

/// Whether the label ends and all of the head follows it.
pub open spec fn head_complete(data: Seq<u8>) -> bool {
    label_len(data) + 13 <= data.len()
}

/// The number in the four bytes at a position.
pub open spec fn word_at(data: Seq<u8>, at: nat) -> nat {
    from_big_endian(data.subrange(at as int, at as int + 4))
}

/// The size of ids that a complete head gives, in bytes.
pub open spec fn id_bytes(data: Seq<u8>) -> nat {
    word_at(data, label_len(data) + 1)
}

/// The time that a complete head gives.
pub open spec fn timestamp(data: Seq<u8>) -> nat {
    word_at(data, label_len(data) + 5) * 0x1_0000_0000 + word_at(data, label_len(data) + 9)
}

/// Whether the head, if it is complete, gives a size of ids that there is.
pub open spec fn known_id_size(data: Seq<u8>) -> bool {
    head_complete(data) ==> id_bytes(data) == 4 || id_bytes(data) == 8
}

/// The bytes of the label.
pub open spec fn label_bytes(data: Seq<u8>) -> Seq<u8> {
    data.take(label_len(data) as int)
}

/// Whether a text is that of some bytes; bytes that are no UTF-8 have none.
pub open spec fn is_text_of(text: Option<String>, bytes: Seq<u8>) -> bool {
    match text {
        Some(s) => encode_utf8(s@) == bytes,
        None => !valid_utf8(bytes),
    }
}

/// Whether a head is that of a dump.
pub open spec fn is_head(head: HprofHead, data: Seq<u8>) -> bool {
    &&& is_text_of(head.label, label_bytes(data))
    &&& head.id_size == if id_bytes(data) == 4 {
        IdSize::U32
    } else {
        IdSize::U64
    }
    &&& head.timestamp_millis == timestamp(data)
}

/// `jvm_hprof::parse_hprof` and the getters of its header: reads the head of a
/// dump, and fails exactly if the head is not complete. It panics on a size of ids
/// other than 4 and 8. The label is a text exactly if its bytes are UTF-8. Of the
/// records behind the head nothing is read.
#[verifier::external_body]
fn parse_head(data: &[u8]) -> (head: Option<HprofHead>)
    requires
        known_id_size(data@),
    ensures
        match head {
            Some(h) => head_complete(data@) && is_head(h, data@),
            None => !head_complete(data@),
        },
{
    let header = jvm_hprof::parse_hprof(data).ok()?.header();
    Some(HprofHead {
        label: header.label().ok().map(|label| label.to_string()),
        id_size: match header.id_size() {
            jvm_hprof::IdSize::U32 => IdSize::U32,
            jvm_hprof::IdSize::U64 => IdSize::U64,
        },
        timestamp_millis: header.timestamp_millis(),
    })
}

fn find_label_len(data: &[u8]) -> (len: usize)
    ensures
        len == label_len(data@),
        len <= data@.len(),
{
    let mut i: usize = 0;
    assert(data@.skip(0) =~= data@);
    while i < data.len() && data[i] != 0
        invariant
            i <= data@.len(),
            label_len(data@) == i + label_len(data@.skip(i as int)),
        decreases data@.len() - i,
    {
        assert(data@.skip(i as int).skip(1) =~= data@.skip(i + 1));
        i = i + 1;
    }
    i
}

/// The head of a dump, and where its records begin: right behind it. It is an error
/// if the head is not complete or gives a size of ids that there is not.
pub fn load_hprof(data: &[u8]) -> (dump: Result<Hprof, String>)
    ensures
        match dump {
            Ok(d) => {
                &&& head_complete(data@)
                &&& known_id_size(data@)
                &&& is_head(d.head, data@)
                &&& d.records_at == label_len(data@) + 13
            },
            Err(e) => if head_complete(data@) {
                !known_id_size(data@) && e@ == "unexpected size "@ + decimal_digits(id_bytes(data@))
            } else {
                e@ == "incomplete heap dump header"@
            },
        },
{
    let len: usize = find_label_len(data);
    if data.len() - len < 13 {
        return Err("incomplete heap dump header".to_string());
    }
    let size: u32 = data[len + 1] as u32 * 0x100_0000 + data[len + 2] as u32 * 0x1_0000 + data[len
        + 3] as u32 * 0x100 + data[len + 4] as u32;
    assert(size == id_bytes(data@));
    if size != 4 && size != 8 {
        let mut message = "unexpected size ".to_string();
        push_decimal(&mut message, size as u128);
        return Err(message);
    }
    match parse_head(data) {
        Some(head) => Ok(Hprof { head, records_at: len + 13 }),
        None => Err("incomplete heap dump header".to_string()),
    }
}

/// The bytes of a dump with that head in front of its records.
pub open spec fn dump(label: Seq<u8>, id_bytes: nat, timestamp: nat, records: Seq<u8>) -> Seq<u8> {
    label + seq![0u8] + big_endian(id_bytes) + big_endian(timestamp / 0x1_0000_0000) + big_endian(
        timestamp % 0x1_0000_0000,
    ) + records
}

proof fn lemma_label_len(label: Seq<u8>, rest: Seq<u8>)
    requires
        !label.contains(0),
        rest.len() > 0,
        rest[0] == 0,
    ensures
        label_len(label + rest) == label.len(),
    decreases label.len(),
{
    if label.len() > 0 {
        let tail = label.skip(1);
        assert(label.contains(label[0]));
        assert forall|b: u8| tail.contains(b) implies label.contains(b) by {
            let i = choose|i: int| 0 <= i < tail.len() && tail[i] == b;
            assert(label[i + 1] == b);
        }
        lemma_label_len(tail, rest);
        assert((label + rest).skip(1) =~= tail + rest);
    } else {
        assert(label + rest =~= rest);
    }
}

/// The head that a dump was written with is read back, and so are its records,
/// whatever they are.
pub proof fn law_head_is_read_back(
    label: Seq<u8>,
    size: nat,
    time: nat,
    records: Seq<u8>,
)
    requires
        !label.contains(0),
        size < 0x1_0000_0000,
        time < 0x1_0000_0000_0000_0000,
    ensures
        head_complete(dump(label, size, time, records)),
        id_bytes(dump(label, size, time, records)) == size,
        timestamp(dump(label, size, time, records)) == time,
        label_bytes(dump(label, size, time, records)) == label,
        dump(label, size, time, records).skip(label.len() as int + 13) == records,
        label_len(dump(label, size, time, records)) == label.len(),
{
    let data = dump(label, size, time, records);
    let high = time / 0x1_0000_0000;
    let low = time % 0x1_0000_0000;
    let n = label.len() as int;
    let rest = data.skip(n);
    assert(data =~= label + rest);
    lemma_label_len(label, rest);
    assert(data.take(n) =~= label);
    assert(data.skip(n + 13) =~= records);
    assert(data.subrange(n + 1, n + 5) =~= big_endian(size));
    assert(data.subrange(n + 5, n + 9) =~= big_endian(high));
    assert(data.subrange(n + 9, n + 13) =~= big_endian(low));
    law_big_endian_round_trip(size);
    law_big_endian_round_trip(high);
    law_big_endian_round_trip(low);
}

}
