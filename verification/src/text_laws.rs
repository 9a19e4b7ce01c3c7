//! What holds of numbers and words in text.
use vstd::prelude::*;

use crate::text::{
    address, all_digits, ascii_lower, begins_with, byte_hex, bytes_hex, decimal, digit_char,
    digits_value, first_word_at, hexadecimal, is_digit, is_first_word, is_white_space, occurs_at,
    occurs_in, parsed_i32, same_but_case, signed_decimal,
};

verus! {

/// A number in decimal reads back as that number. It is made of digits, and does not
/// begin with a zero unless it is zero.
pub proof fn law_decimal_reads_back(n: nat)
    ensures
        digits_value(decimal(n)) == n,
        all_digits(decimal(n)),
        decimal(n).len() > 0,
        n > 0 ==> decimal(n)[0] != '0',
        n == 0 ==> decimal(n) == seq!['0'],
    decreases n,
{
    let last = digit_char(n % 10);
    assert(is_digit(last));
    if n < 10 {
        assert(decimal(n).drop_last() =~= Seq::empty());
        assert(digits_value(decimal(n).drop_last()) == 0);
    } else {
        law_decimal_reads_back(n / 10);
        assert(decimal(n).drop_last() =~= decimal(n / 10));
        assert(decimal(n)[0] == decimal(n / 10)[0]);
    }
}

/// The value of digits grows tenfold with each digit after them, which adds its own.
pub proof fn law_digits_have_their_place(digits: Seq<char>, digit: char)
    requires
        is_digit(digit),
    ensures
        digits_value(digits.push(digit)) == 10 * digits_value(digits) + (digit as u32 - '0' as u32),
        digits_value(Seq::empty()) == 0,
        is_digit(digit) <==> 48 <= digit as u32 <= 57,
{
    assert(digits.push(digit).drop_last() =~= digits);
}

/// A signed number in decimal parses as that number.
pub proof fn law_number_parses_back(n: i32)
    ensures
        parsed_i32(signed_decimal(n as int)) == Some(n),
{
    if n < 0 {
        law_decimal_reads_back((-n) as nat);
        assert(signed_decimal(n as int).skip(1) =~= decimal((-n) as nat));
    } else {
        law_decimal_reads_back(n as nat);
        assert(is_digit(decimal(n as nat)[0]));
    }
}

/// What parses is an optional sign and digits, and nothing else does; a plus does not
/// change the number and a minus turns it round.
pub proof fn law_only_numbers_parse(digits: Seq<char>)
    requires
        digits.len() > 0,
        all_digits(digits),
        digits_value(digits) <= 0x7fff_ffff,
    ensures
        parsed_i32(digits) == Some(digits_value(digits) as i32),
        parsed_i32(seq!['+'] + digits) == parsed_i32(digits),
        parsed_i32(seq!['-'] + digits) == Some((-digits_value(digits)) as i32),
{
    assert(is_digit(digits[0]));
    assert((seq!['+'] + digits).skip(1) =~= digits);
    assert((seq!['-'] + digits).skip(1) =~= digits);
}

/// A text with a character that is no digit after its first one does not parse, nor does
/// an empty text, a lone sign, or a number that is out of range.
pub proof fn law_other_texts_do_not_parse(text: Seq<char>, i: int)
    ensures
        0 < i < text.len() && !is_digit(text[i]) ==> parsed_i32(text) is None,
        text.len() > 0 && !is_digit(text[0]) && text[0] != '+' && text[0] != '-' ==> parsed_i32(
            text,
        ) is None,
        text.len() == 0 ==> parsed_i32(text) is None,
        text.len() == 1 && !is_digit(text[0]) ==> parsed_i32(text) is None,
        text.len() > 0 && all_digits(text) && digits_value(text) > 0x7fff_ffff ==> parsed_i32(text)
            is None,
{
    if 0 < i < text.len() {
        assert(text.skip(1)[i - 1] == text[i]);
    }
    if text.len() > 0 && all_digits(text) {
        assert(is_digit(text[0]));
    }
}

/// The digits up to nine are those of decimals, and the letters from a on follow.
pub proof fn law_digits_are_in_line(d: nat)
    ensures
        d < 10 ==> digit_char(d) as u32 == '0' as u32 + d,
        10 <= d < 16 ==> digit_char(d) as u32 == 'a' as u32 + d - 10,
{
}

/// A number in hexadecimal ends in the digit of its remainder by sixteen, after the
/// digits of the quotient if there are any. An address has a prefix before them.
pub proof fn law_hexadecimal_has_base_sixteen(quotient: nat, d: nat, n: usize)
    requires
        d < 16,
    ensures
        quotient > 0 ==> hexadecimal(16 * quotient + d) == hexadecimal(quotient).push(
            digit_char(d),
        ),
        hexadecimal(d) == seq![digit_char(d)],
        address(n) == "0x"@ + hexadecimal(n as nat),
{
    assert((16 * quotient + d) / 16 == quotient);
    assert((16 * quotient + d) % 16 == d);
}

/// A byte is two digits that together have the value of its bits.
pub proof fn law_byte_is_two_digits(b: i8, high: nat, low: nat)
    requires
        high < 16,
        low < 16,
        b >= 0 ==> 16 * high + low == b,
        b < 0 ==> 16 * high + low == b + 256,
    ensures
        byte_hex(b) == seq![digit_char(high), digit_char(low)],
{
    let bits: int = if b < 0 {
        b + 256
    } else {
        b as int
    };
    assert(bits / 16 == high && bits % 16 == low);
}

/// Bytes are shown one after the other.
pub proof fn law_bytes_are_shown_in_order(left: Seq<i8>, right: Seq<i8>, b: i8)
    ensures
        bytes_hex(left + right) == bytes_hex(left) + bytes_hex(right),
        bytes_hex(left).len() == 2 * left.len(),
        bytes_hex(seq![b]) == byte_hex(b),
    decreases left.len(), right.len(),
{
    assert(seq![b].drop_last() =~= Seq::empty());
    assert(bytes_hex(seq![b].drop_last()) =~= Seq::empty());
    assert(bytes_hex(seq![b]) =~= byte_hex(b));
    if right.len() == 0 {
        assert(left + right =~= left);
        assert(bytes_hex(left) + bytes_hex(right) =~= bytes_hex(left));
        if left.len() > 0 {
            law_bytes_are_shown_in_order(left.drop_last(), right, b);
        }
    } else {
        law_bytes_are_shown_in_order(left, right.drop_last(), b);
        assert((left + right).drop_last() =~= left + right.drop_last());
        assert(bytes_hex(left + right) =~= bytes_hex(left) + bytes_hex(right));
    }
}

/// Two characters agree but for case if they are the same, or are the two forms of one
/// ASCII letter; texts do if their characters do, one by one.
pub proof fn law_only_case_may_differ(a: char, b: char, left: Seq<char>, right: Seq<char>)
    ensures
        same_but_case(seq![a], seq![b]) <==> {
            ||| a == b
            ||| 'A' <= a <= 'Z' && b as u32 == a as u32 + 32
            ||| 'A' <= b <= 'Z' && a as u32 == b as u32 + 32
        },
        same_but_case(left.push(a), right.push(b)) <==> same_but_case(left, right)
            && same_but_case(seq![a], seq![b]),
        same_but_case(left, right) ==> left.len() == right.len(),
        same_but_case(left, left),
{
    assert(seq![a][0] == a && seq![b][0] == b);
    assert(same_but_case(seq![a], seq![b]) <==> ascii_lower(a) == ascii_lower(b)) by {
        if ascii_lower(a) == ascii_lower(b) {
            assert(same_but_case(seq![a], seq![b]));
        }
        if same_but_case(seq![a], seq![b]) {
            assert(ascii_lower(seq![a][0]) == ascii_lower(seq![b][0]));
        }
    }
    let l = left.push(a);
    let r = right.push(b);
    if same_but_case(l, r) {
        assert(ascii_lower(l[l.len() - 1]) == ascii_lower(r[r.len() - 1]));
        assert forall|i: int| 0 <= i < left.len() implies ascii_lower(#[trigger] left[i])
            == ascii_lower(right[i]) by {
            assert(ascii_lower(l[i]) == ascii_lower(r[i]));
        }
    }
}

/// A text occurs in another exactly if the other is that text with something, or
/// nothing, before and after it.
pub proof fn law_occurrence_is_a_part(
    whole: Seq<char>,
    before: Seq<char>,
    part: Seq<char>,
    after: Seq<char>,
)
    ensures
        occurs_in(before + part + after, part),
        occurs_in(whole, part) ==> exists|b: Seq<char>, a: Seq<char>| whole == #[trigger] ((b
            + part) + a),
        begins_with(part + after, part),
        begins_with(whole, part) ==> whole == part + whole.skip(part.len() as int),
{
    let joined = before + part + after;
    assert(joined.subrange(before.len() as int, (before.len() + part.len()) as int) =~= part);
    assert(occurs_at(joined, part, before.len() as int));
    assert((part + after).subrange(0, part.len() as int) =~= part);
    if occurs_in(whole, part) {
        let at = choose|at: int| occurs_at(whole, part, at);
        let b = whole.take(at);
        let a = whole.skip(at + part.len());
        assert(whole =~= (b + part) + a) by {
            assert forall|i: int| 0 <= i < whole.len() implies whole[i] == ((b + part) + a)[i] by {
                if at <= i < at + part.len() {
                    assert(whole.subrange(at, at + part.len())[i - at] == part[i - at]);
                }
            }
        }
    }
    if begins_with(whole, part) {
        assert(whole =~= part + whole.skip(part.len() as int)) by {
            assert forall|i: int| 0 <= i < part.len() implies whole[i] == part[i] by {
                assert(whole.subrange(0, part.len() as int)[i] == part[i]);
            }
        }
    }
}

/// White space is these twenty-five characters and no other.
pub proof fn law_white_space_is_what_unicode_says(c: char)
    ensures
        is_white_space(c) <==> {
            let code = c as u32;
            ||| code == 0x9 || code == 0xa || code == 0xb || code == 0xc || code == 0xd
            ||| code == 0x20 || code == 0x85 || code == 0xa0 || code == 0x1680
            ||| code == 0x2000 || code == 0x2001 || code == 0x2002 || code == 0x2003
            ||| code == 0x2004 || code == 0x2005 || code == 0x2006 || code == 0x2007
            ||| code == 0x2008 || code == 0x2009 || code == 0x200a
            ||| code == 0x2028 || code == 0x2029 || code == 0x202f || code == 0x205f
            ||| code == 0x3000
        },
{
}

/// The first word of a text is what stands between white space, or the ends of the text,
/// with nothing but white space before it.
pub proof fn law_first_word_is_found(
    space: Seq<char>,
    word: Seq<char>,
    rest: Seq<char>,
    found: Option<Seq<char>>,
)
    requires
        forall|i: int| 0 <= i < space.len() ==> is_white_space(#[trigger] space[i]),
        word.len() > 0,
        forall|i: int| 0 <= i < word.len() ==> !is_white_space(#[trigger] word[i]),
        rest.len() > 0 ==> is_white_space(rest[0]),
        is_first_word(space + word + rest, found),
    ensures
        found == Some(word),
{
    let text = space + word + rest;
    assert(text[space.len() as int] == word[0]);
    assert(!is_white_space(text[space.len() as int]));
    let w = found.unwrap();
    let (start, end) = choose|start: int, end: int|
        first_word_at(text, start, end) && w == text.subrange(start, end);
    if start < space.len() {
        assert(text[start] == space[start]);
    }
    if start > space.len() {
        assert(is_white_space(text[space.len() as int]));
    }
    assert(start == space.len());
    if end < space.len() + word.len() {
        assert(text[end] == word[end - space.len()]);
    }
    if end > space.len() + word.len() {
        assert(text[(space.len() + word.len()) as int] == rest[0]);
        assert(!is_white_space(text[(space.len() + word.len()) as int]));
    }
    assert(w =~= word);
}

/// A text of white space has no first word.
pub proof fn law_white_space_holds_no_word(text: Seq<char>, found: Option<Seq<char>>)
    requires
        forall|i: int| 0 <= i < text.len() ==> is_white_space(#[trigger] text[i]),
        is_first_word(text, found),
    ensures
        found is None,
{
    if found is Some {
        let w = found.unwrap();
        let (start, end) = choose|start: int, end: int|
            first_word_at(text, start, end) && w == text.subrange(start, end);
        assert(is_white_space(text[start]));
    }
}

} // verus!
