//! Laws of numbers and pieces of text.
use crate::json::integer_text;
use crate::text::{
    chars_of, decimal_digits, digit_char, hex_pair, join, joined, padded, push_decimal, push_hex,
    push_padded, push_repeated, repeated, text_of, texts,
};
use vstd::prelude::*;

verus! {

/// The value of a digit; letters count from ten on and stand in lower case.
pub open spec fn digit_value(c: char) -> int {
    if '0' <= c <= '9' {
        c as int - '0' as int
    } else if 'a' <= c <= 'f' {
        c as int - 'a' as int + 10
    } else {
        -1
    }
}

/// The number that a text reads as, in decimal.
pub open spec fn decimal_value(digits: Seq<char>) -> int
    decreases digits.len(),
{
    if digits.len() == 0 {
        0
    } else {
        decimal_value(digits.drop_last()) * 10 + digit_value(digits.last())
    }
}

/// The decimal digits of a number read back as that number, hold nothing but
/// digits, and begin with a zero only for zero itself.
pub proof fn law_decimal_digits_read_back(n: nat)
    ensures
        decimal_value(decimal_digits(n)) == n,
        decimal_digits(n).len() > 0,
        forall|i: int|
            0 <= i < decimal_digits(n).len() ==> '0' <= #[trigger] decimal_digits(n)[i] <= '9',
        n > 0 ==> decimal_digits(n)[0] != '0',
        n == 0 ==> decimal_digits(n).len() == 1,
    decreases n,
{
    if n < 10 {
        assert(decimal_digits(n).drop_last() =~= Seq::empty());
        reveal_with_fuel(decimal_value, 2);
    } else {
        law_decimal_digits_read_back(n / 10);
        let front = decimal_digits(n / 10);
        assert(decimal_digits(n).drop_last() =~= front);
        assert forall|i: int| 0 <= i < decimal_digits(n).len() implies '0'
            <= #[trigger] decimal_digits(n)[i] <= '9' by {
            if i < front.len() {
                assert(decimal_digits(n)[i] == front[i]);
            }
        }
        assert(decimal_digits(n)[0] == front[0]);
    }
}

/// The text of an integer reads back as that integer: a minus sign stands in front
/// of the digits of a negative one, and nowhere else.
pub proof fn law_integer_text_reads_back(n: int)
    ensures
        n >= 0 ==> decimal_value(integer_text(n)) == n && integer_text(n)[0] != '-',
        n < 0 ==> integer_text(n)[0] == '-' && decimal_value(integer_text(n).skip(1)) == -n,
{
    if n < 0 {
        law_decimal_digits_read_back((-n) as nat);
        assert(integer_text(n).skip(1) =~= decimal_digits((-n) as nat));
    } else {
        law_decimal_digits_read_back(n as nat);
    }
}

/// The two hexadecimal digits of a byte read back as that byte.
pub proof fn law_hex_pair_reads_back(b: u8)
    ensures
        hex_pair(b).len() == 2,
        digit_value(hex_pair(b)[0]) * 16 + digit_value(hex_pair(b)[1]) == b,
{
    lemma_digit(b as int / 16);
    lemma_digit(b as int % 16);
}

proof fn lemma_digit(d: int)
    requires
        0 <= d < 16,
    ensures
        digit_value(digit_char(d)) == d,
{
}

/// A padded text begins with the text, goes on with blanks only, and has the width
/// unless the text is longer.
pub proof fn law_padding_adds_blanks(s: Seq<char>, width: nat)
    ensures
        padded(s, width).len() == if s.len() < width {
            width
        } else {
            s.len()
        },
        padded(s, width).take(s.len() as int) == s,
        forall|i: int| s.len() <= i < padded(s, width).len() ==> #[trigger] padded(s, width)[i] == ' ',
{
    assert(padded(s, width).take(s.len() as int) =~= s);
}

/// A repeated character stands as often as asked for, and nothing else stands there.
pub proof fn law_repeated_is_uniform(c: char, n: nat)
    ensures
        repeated(c, n).len() == n,
        forall|i: int| 0 <= i < n ==> #[trigger] repeated(c, n)[i] == c,
{
}

/// Joining takes the parts as they are, keeps their order, and sets one separator
/// between each two of them.
pub proof fn law_joining_keeps_the_parts(a: Seq<Seq<char>>, b: Seq<Seq<char>>, sep: Seq<char>)
    ensures
        a.len() == 0 ==> joined(a, sep).len() == 0,
        a.len() == 1 ==> joined(a, sep) == a[0],
        a.len() > 0 && b.len() > 0 ==> joined(a + b, sep) == joined(a, sep) + sep + joined(b, sep),
    decreases b.len(),
{
    if a.len() > 0 && b.len() > 0 {
        assert((a + b).last() == b.last());
        if b.len() == 1 {
            assert((a + b).drop_last() =~= a);
        } else {
            let front = b.drop_last();
            law_joining_keeps_the_parts(a, front, sep);
            assert((a + b).drop_last() =~= a + front);
            assert(joined(a + b, sep) =~= joined(a, sep) + sep + joined(b, sep));
        }
    }
}

/// The texts of a list are those of its strings, one by one.
pub proof fn law_texts_are_those_of_the_list(list: Seq<String>)
    ensures
        texts(list).len() == list.len(),
        forall|i: int| 0 <= i < list.len() ==> #[trigger] texts(list)[i] == list[i]@,
{
}

/// Joining strings: none give nothing, one gives itself, and what comes before and
/// after a place in the list stands before and after one separator.
pub proof fn law_join_fits_together(
    front: Vec<String>,
    back: Vec<String>,
    all: Vec<String>,
    sep: &str,
    a: String,
    b: String,
    c: String,
)
    requires
        call_ensures(join, (&front, sep), a),
        call_ensures(join, (&back, sep), b),
        call_ensures(join, (&all, sep), c),
        all@ == front@ + back@,
    ensures
        front@.len() == 0 ==> a@.len() == 0,
        front@.len() == 1 ==> a@ == front@[0]@,
        front@.len() > 0 && back@.len() > 0 ==> c@ == a@ + sep@ + b@,
{
    assert(texts(all@) =~= texts(front@) + texts(back@));
    law_joining_keeps_the_parts(texts(front@), texts(back@), sep@);
}

/// The text of a range of characters has just those characters.
pub proof fn law_text_of_a_range(chars: Vec<char>, from: usize, to: usize, out: String, i: int)
    requires
        from <= to <= chars@.len(),
        call_ensures(text_of, (&chars, from, to), out),
    ensures
        out@.len() == to - from,
        0 <= i < to - from ==> out@[i] == chars@[from + i],
{
}

/// The characters of a text are all of them, in their order.
pub proof fn law_characters_of_a_text(s: &str, chars: Vec<char>, i: int)
    requires
        call_ensures(chars_of, (s,), chars),
    ensures
        chars@.len() == s@.len(),
        0 <= i < s@.len() ==> chars@[i] == s@[i],
{
}

/// A number is appended in decimal digits that read back as it, whatever its size, and
/// nothing in front of them changes.
pub proof fn law_number_is_appended(out: &mut String, n: u128)
    requires
        call_ensures(push_decimal, (out, n), ()),
    ensures
        final(out)@.len() > old(out)@.len(),
        final(out)@.take(old(out)@.len() as int) == old(out)@,
        decimal_value(final(out)@.skip(old(out)@.len() as int)) == n,
        n > 0 ==> final(out)@[old(out)@.len() as int] != '0',
        n == 0 ==> final(out)@.len() == old(out)@.len() + 1,
{
    law_decimal_digits_read_back(n as nat);
    assert(final(out)@.take(old(out)@.len() as int) =~= old(out)@);
    assert(final(out)@.skip(old(out)@.len() as int) =~= decimal_digits(n as nat));
}

/// A byte is appended in two hexadecimal digits that read back as it.
pub proof fn law_byte_is_appended(out: &mut String, b: u8)
    requires
        call_ensures(push_hex, (out, b), ()),
    ensures
        final(out)@.len() == old(out)@.len() + 2,
        final(out)@.take(old(out)@.len() as int) == old(out)@,
        digit_value(final(out)@[old(out)@.len() as int]) * 16 + digit_value(
            final(out)@[old(out)@.len() as int + 1],
        ) == b,
{
    law_hex_pair_reads_back(b);
    assert(final(out)@.take(old(out)@.len() as int) =~= old(out)@);
}

/// A character is appended as often as asked for.
pub proof fn law_repetition_is_appended(out: &mut String, c: char, n: usize, i: int)
    requires
        call_ensures(push_repeated, (out, c, n), ()),
    ensures
        final(out)@.len() == old(out)@.len() + n,
        0 <= i < old(out)@.len() ==> final(out)@[i] == old(out)@[i],
        old(out)@.len() <= i < final(out)@.len() ==> final(out)@[i] == c,
{
}

/// A text is appended whole, and then blanks up to the width.
pub proof fn law_padded_text_is_appended(out: &mut String, s: &str, width: usize, i: int)
    requires
        call_ensures(push_padded, (out, s, width), ()),
    ensures
        final(out)@.len() == old(out)@.len() + if s@.len() < width {
            width as nat
        } else {
            s@.len()
        },
        0 <= i < old(out)@.len() ==> final(out)@[i] == old(out)@[i],
        0 <= i < s@.len() ==> final(out)@[old(out)@.len() + i] == s@[i],
        old(out)@.len() + s@.len() <= i < final(out)@.len() ==> final(out)@[i] == ' ',
{
}

}
