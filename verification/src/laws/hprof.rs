//! Laws of the head of a heap dump.
use crate::hprof::{head_complete, label_len, load_hprof, Hprof, IdSize};
use crate::laws::wire::announced;
use crate::server::protocol::from_big_endian;
use crate::text::decimal_digits;
use vstd::prelude::*;
use vstd::utf8::{encode_utf8, valid_utf8};

verus! {

/// Whether a dump begins with that label, a zero byte, and twelve bytes more.
pub open spec fn begins_with(data: Seq<u8>, label: Seq<u8>) -> bool {
    &&& !label.contains(0)
    &&& data.len() >= label.len() + 13
    &&& data.take(label.len() as int) == label
    &&& data[label.len() as int] == 0
}

proof fn lemma_label(data: Seq<u8>, label: Seq<u8>)
    requires
        !label.contains(0),
        data.len() > label.len(),
        data.take(label.len() as int) == label,
        data[label.len() as int] == 0,
    ensures
        label_len(data) == label.len(),
    decreases label.len(),
{
    if label.len() > 0 {
        let tail = label.skip(1);
        assert(label[0] == data.take(label.len() as int)[0]);
        assert(label.contains(label[0]));
        assert forall|b: u8| tail.contains(b) implies label.contains(b) by {
            let i = choose|i: int| 0 <= i < tail.len() && tail[i] == b;
            assert(label[i + 1] == b);
        }
        assert(data.skip(1).take(tail.len() as int) =~= tail) by {
            assert forall|i: int| 0 <= i < tail.len() implies data.skip(1)[i] == tail[i] by {
                assert(data.take(label.len() as int)[i + 1] == label[i + 1]);
            }
        }
        lemma_label(data.skip(1), tail);
    }
}

/// The head of a dump is read byte by byte: the label in front of the first zero, the
/// size of the ids in the four bytes behind it, and the time in the eight after those.
/// The records begin right behind. A size other than four and eight is an error that
/// tells it.
pub proof fn law_head_is_read_byte_by_byte(
    data: &[u8],
    label: Seq<u8>,
    loaded: Result<Hprof, String>,
)
    requires
        begins_with(data@, label),
        call_ensures(load_hprof, (data,), loaded),
    ensures
        ({
            let n = label.len() as int;
            let size = announced(data@.subrange(n + 1, n + 5));
            let time = announced(data@.subrange(n + 5, n + 9)) * 0x1_0000_0000 + announced(
                data@.subrange(n + 9, n + 13),
            );
            &&& loaded is Ok <==> size == 4 || size == 8
            &&& loaded matches Ok(dump) ==> {
                &&& dump.head.id_size == if size == 4 {
                    IdSize::U32
                } else {
                    IdSize::U64
                }
                &&& dump.head.timestamp_millis == time
                &&& dump.records_at == n + 13
                &&& dump.head.label matches Some(text) ==> encode_utf8(text@) == label
                &&& dump.head.label is None ==> !valid_utf8(label)
            }
            &&& loaded matches Err(e) ==> e@ == "unexpected size "@ + decimal_digits(size as nat)
        }),
{
    let n = label.len() as int;
    lemma_label(data@, label);
    assert(announced(data@.subrange(n + 1, n + 5)) == from_big_endian(
        data@.subrange(n + 1, n + 5),
    ));
    assert(announced(data@.subrange(n + 5, n + 9)) == from_big_endian(
        data@.subrange(n + 5, n + 9),
    ));
    assert(announced(data@.subrange(n + 9, n + 13)) == from_big_endian(
        data@.subrange(n + 9, n + 13),
    ));
}

proof fn lemma_no_label(data: Seq<u8>)
    ensures
        label_len(data) <= data.len(),
        forall|i: int| 0 <= i < label_len(data) ==> #[trigger] data[i] != 0,
        label_len(data) < data.len() ==> data[label_len(data) as int] == 0,
    decreases data.len(),
{
    if data.len() > 0 && data[0] != 0 {
        let tail = data.skip(1);
        lemma_no_label(tail);
        assert forall|i: int| 0 <= i < label_len(data) implies #[trigger] data[i] != 0 by {
            if i > 0 {
                assert(tail[i - 1] != 0);
            }
        }
        if label_len(data) < data.len() {
            assert(tail[label_len(tail) as int] == 0);
        }
    }
}

/// A dump without a whole head is an error, and every other error has one.
pub proof fn law_dump_without_a_head_is_refused(data: &[u8], loaded: Result<Hprof, String>)
    requires
        call_ensures(load_hprof, (data,), loaded),
    ensures
        (forall|label: Seq<u8>| !begins_with(data@, label)) ==> (loaded matches Err(e) && e@
            == "incomplete heap dump header"@),
        loaded is Ok ==> exists|label: Seq<u8>| begins_with(data@, label),
{
    lemma_no_label(data@);
    if head_complete(data@) {
        let label = data@.take(label_len(data@) as int);
        assert forall|b: u8| label.contains(b) implies b != 0 by {
            let i = choose|i: int| 0 <= i < label.len() && label[i] == b;
            assert(data@[i] != 0);
        }
        assert(begins_with(data@, label));
    }
}

}
