//! Text: numbers in and out, and searching.
use vstd::prelude::*;
use vstd::string::StringExecFns;
use vstd::utf8::{decode_utf8, valid_utf8};

verus! {

/// `String::push` appends one character.
pub assume_specification[ String::push ](s: &mut String, c: char)
    ensures
        final(s)@ == old(s)@.push(c),
;

/// `std::str::from_utf8` accepts exactly the well-formed encodings and gives
/// their characters.
#[verifier::external_body]
fn utf8_text(bytes: &[u8]) -> (text: Option<&str>)
    ensures
        text is Some <==> valid_utf8(bytes@),
        text matches Some(t) ==> t@ == decode_utf8(bytes@),
{
    std::str::from_utf8(bytes).ok()
}

/// The character of a digit below sixteen, in lower case.
pub open spec fn digit_char(d: nat) -> char {
    if d < 10 {
        (d + 48) as char
    } else {
        (d + 87) as char
    }
}

/// A number in decimal.
pub open spec fn decimal(n: nat) -> Seq<char>
    decreases n,
{
    if n < 10 {
        seq![digit_char(n)]
    } else {
        decimal(n / 10).push(digit_char(n % 10))
    }
}

/// A signed number in decimal.
pub open spec fn signed_decimal(n: int) -> Seq<char> {
    if n < 0 {
        seq!['-'] + decimal((-n) as nat)
    } else {
        decimal(n as nat)
    }
}

/// A number in lower-case hexadecimal, without prefix.
pub open spec fn hexadecimal(n: nat) -> Seq<char>
    decreases n,
{
    if n < 16 {
        seq![digit_char(n)]
    } else {
        hexadecimal(n / 16).push(digit_char(n % 16))
    }
}

/// An address as it appears in messages: hexadecimal with its prefix.
pub open spec fn address(n: usize) -> Seq<char> {
    "0x"@ + hexadecimal(n as nat)
}

fn digit(d: u8) -> (c: char)
    requires
        d < 16,
    ensures
        c == digit_char(d as nat),
{
    if d < 10 {
        (d + 48) as char
    } else {
        (d + 87) as char
    }
}

/// Appends a number in decimal.
pub fn push_decimal(out: &mut String, n: u64)
    ensures
        final(out)@ == old(out)@ + decimal(n as nat),
    decreases n,
{
    if n >= 10 {
        push_decimal(out, n / 10);
    }
    out.push(digit((n % 10) as u8));
    assert(out@ =~= old(out)@ + decimal(n as nat));
}

/// Appends a signed number in decimal.
pub fn push_signed(out: &mut String, n: i32)
    ensures
        final(out)@ == old(out)@ + signed_decimal(n as int),
{
    let wide: i64 = n as i64;
    if wide < 0 {
        out.push('-');
        push_decimal(out, (-wide) as u64);
        assert(out@ =~= old(out)@ + signed_decimal(n as int));
    } else {
        push_decimal(out, wide as u64);
    }
}

fn push_hexadecimal(out: &mut String, n: u64)
    ensures
        final(out)@ == old(out)@ + hexadecimal(n as nat),
    decreases n,
{
    if n >= 16 {
        push_hexadecimal(out, n / 16);
    }
    out.push(digit((n % 16) as u8));
    assert(out@ =~= old(out)@ + hexadecimal(n as nat));
}

/// Appends an address in hexadecimal with its prefix.
pub fn push_address(out: &mut String, n: usize)
    ensures
        final(out)@ == old(out)@ + address(n),
{
    out.append("0x");
    push_hexadecimal(out, n as u64);
    assert(out@ =~= old(out)@ + address(n));
}

/// The two hexadecimal digits of the bits of a byte.
pub open spec fn byte_hex(b: i8) -> Seq<char> {
    let bits: int = if b < 0 {
        b + 256
    } else {
        b as int
    };
    seq![digit_char((bits / 16) as nat), digit_char((bits % 16) as nat)]
}

/// The hexadecimal digits of a run of bytes.
pub open spec fn bytes_hex(bytes: Seq<i8>) -> Seq<char>
    decreases bytes.len(),
{
    if bytes.len() == 0 {
        Seq::empty()
    } else {
        bytes_hex(bytes.drop_last()) + byte_hex(bytes.last())
    }
}

/// The hexadecimal digits of the first `limit` bytes.
pub fn hex_preview(bytes: &[i8], limit: usize) -> (text: String)
    ensures
        text@ == bytes_hex(
            if limit <= bytes@.len() {
                bytes@.take(limit as int)
            } else {
                bytes@
            },
        ),
{
    let end: usize = if limit <= bytes.len() {
        limit
    } else {
        bytes.len()
    };
    let mut text = String::new();
    let mut i: usize = 0;
    assert(bytes@.take(0) =~= Seq::empty());
    while i < end
        invariant
            i <= end <= bytes@.len(),
            text@ == bytes_hex(bytes@.take(i as int)),
        decreases end - i,
    {
        let bits: i16 = if bytes[i] < 0 {
            bytes[i] as i16 + 256
        } else {
            bytes[i] as i16
        };
        let ghost before = text@;
        text.push(digit((bits / 16) as u8));
        text.push(digit((bits % 16) as u8));
        assert(text@ =~= before + byte_hex(bytes@[i as int]));
        assert(bytes@.take(i + 1).drop_last() =~= bytes@.take(i as int));
        i = i + 1;
    }
    assert(bytes@.take(bytes@.len() as int) =~= bytes@);
    text
}

/// The characters of a text.
fn characters(s: &str) -> (chars: Vec<char>)
    ensures
        chars@ == s@,
{
    let mut chars: Vec<char> = Vec::new();
    for c in it: s.chars()
        invariant
            it.seq() == s@,
            chars@ == s@.take(it.index()),
    {
        chars.push(c);
        assert(chars@ =~= s@.take(it.index() + 1));
    }
    assert(s@.take(s@.len() as int) =~= s@);
    chars
}

/// The value of a run of decimal digits.
pub open spec fn digits_value(digits: Seq<char>) -> nat
    decreases digits.len(),
{
    if digits.len() == 0 {
        0
    } else {
        digits_value(digits.drop_last()) * 10 + (digits.last() as nat - 48) as nat
    }
}

/// Whether a character is a decimal digit.
pub open spec fn is_digit(c: char) -> bool {
    '0' <= c <= '9'
}

/// Whether a text is made of decimal digits.
pub open spec fn all_digits(s: Seq<char>) -> bool {
    forall|i: int| 0 <= i < s.len() ==> is_digit(#[trigger] s[i])
}

/// The number that a text denotes: an optional sign, then one digit or more, with
/// a value in the range of `i32`.
pub open spec fn parsed_i32(s: Seq<char>) -> Option<i32> {
    let signed = s.len() > 0 && (s[0] == '-' || s[0] == '+');
    let digits = if signed {
        s.skip(1)
    } else {
        s
    };
    let value: int = if signed && s[0] == '-' {
        -(digits_value(digits) as int)
    } else {
        digits_value(digits) as int
    };
    if digits.len() > 0 && all_digits(digits) && i32::MIN <= value <= i32::MAX {
        Some(value as i32)
    } else {
        None
    }
}

/// Reads a decimal `i32`.
pub fn parse_i32(s: &str) -> (value: Option<i32>)
    ensures
        value == parsed_i32(s@),
{
    let chars = characters(s);
    let signed: bool = chars.len() > 0 && (chars[0] == '-' || chars[0] == '+');
    let negative: bool = signed && chars[0] == '-';
    let start: usize = if signed {
        1
    } else {
        0
    };
    let ghost digits = if signed {
        s@.skip(1)
    } else {
        s@
    };
    if chars.len() == start {
        return None;
    }
    let limit: i64 = 0x8000_0000;
    let mut value: i64 = 0;
    let mut i: usize = start;
    assert(digits.take(0) =~= Seq::empty());
    while i < chars.len()
        invariant
            chars@ == s@,
            start <= i <= chars@.len(),
            start == (if signed {
                1int
            } else {
                0
            }),
            digits == (if signed {
                s@.skip(1)
            } else {
                s@
            }),
            signed == (s@.len() > 0 && (s@[0] == '-' || s@[0] == '+')),
            digits.len() == chars@.len() - start,
            limit == 0x8000_0000,
            0 <= value <= limit + 1,
            value <= limit ==> value == digits_value(digits.take(i - start)),
            value > limit ==> digits_value(digits.take(i - start)) > limit,
            all_digits(digits.take(i - start)),
        decreases chars@.len() - i,
    {
        let c: char = chars[i];
        assert(digits[i - start] == c);
        if !('0' <= c && c <= '9') {
            assert(!all_digits(digits));
            return None;
        }
        let next: i64 = value * 10 + (c as u32 as i64 - 48);
        assert(digits.take(i - start + 1).drop_last() =~= digits.take(i - start));
        assert(digits.take(i - start + 1).last() == c);
        value = if next > limit {
            limit + 1
        } else {
            next
        };
        i = i + 1;
    }
    assert(digits.take(digits.len() as int) =~= digits);
    if negative {
        if value <= limit {
            Some((-value) as i32)
        } else {
            None
        }
    } else {
        if value < limit {
            Some(value as i32)
        } else {
            None
        }
    }
}

/// Compares two texts.
pub fn same_text(a: &str, b: &str) -> (same: bool)
    ensures
        same == (a@ == b@),
{
    a.to_owned() == b.to_owned()
}

/// The lower-case form of an ASCII letter; any other character as it is.
pub open spec fn ascii_lower(c: char) -> char {
    if 'A' <= c <= 'Z' {
        (c as nat + 32) as char
    } else {
        c
    }
}

/// Whether two texts are equal but for the case of ASCII letters.
pub open spec fn same_but_case(a: Seq<char>, b: Seq<char>) -> bool {
    a.len() == b.len() && forall|i: int|
        0 <= i < a.len() ==> ascii_lower(#[trigger] a[i]) == ascii_lower(b[i])
}

fn lower(c: char) -> (l: char)
    ensures
        l == ascii_lower(c),
{
    if 'A' <= c && c <= 'Z' {
        (c as u8 + 32) as char
    } else {
        c
    }
}

/// Compares two texts without regard to the case of ASCII letters.
pub fn eq_ignoring_case(a: &str, b: &str) -> (equal: bool)
    ensures
        equal == same_but_case(a@, b@),
{
    let left = characters(a);
    let right = characters(b);
    if left.len() != right.len() {
        return false;
    }
    let mut i: usize = 0;
    while i < left.len()
        invariant
            left@ == a@,
            right@ == b@,
            left@.len() == right@.len(),
            i <= left@.len(),
            forall|k: int|
                0 <= k < i ==> ascii_lower(#[trigger] a@[k]) == ascii_lower(b@[k]),
        decreases left@.len() - i,
    {
        if lower(left[i]) != lower(right[i]) {
            assert(ascii_lower(a@[i as int]) != ascii_lower(b@[i as int]));
            return false;
        }
        i = i + 1;
    }
    true
}

/// Whether `part` stands in `whole` from position `at` on.
pub open spec fn occurs_at(whole: Seq<char>, part: Seq<char>, at: int) -> bool {
    0 <= at && at + part.len() <= whole.len() && whole.subrange(at, at + part.len()) == part
}

/// Whether `part` stands somewhere in `whole`.
pub open spec fn occurs_in(whole: Seq<char>, part: Seq<char>) -> bool {
    exists|at: int| occurs_at(whole, part, at)
}

fn stands_at(whole: &Vec<char>, part: &Vec<char>, at: usize) -> (found: bool)
    requires
        at + part@.len() <= whole@.len(),
    ensures
        found == occurs_at(whole@, part@, at as int),
{
    let mut i: usize = 0;
    assert(whole@.len() == whole.len());
    while i < part.len()
        invariant
            at + part@.len() <= whole@.len() <= usize::MAX,
            i <= part@.len(),
            forall|k: int| 0 <= k < i ==> whole@[at + k] == #[trigger] part@[k],
        decreases part@.len() - i,
    {
        if whole[at + i] != part[i] {
            assert(whole@.subrange(at as int, at + part@.len())[i as int] != part@[i as int]);
            return false;
        }
        i = i + 1;
    }
    assert(whole@.subrange(at as int, at + part@.len()) =~= part@);
    true
}

/// Searches a text for another.
pub fn contains(whole: &str, part: &str) -> (found: bool)
    ensures
        found == occurs_in(whole@, part@),
{
    let text = characters(whole);
    let wanted = characters(part);
    if wanted.len() > text.len() {
        return false;
    }
    let last: usize = text.len() - wanted.len();
    let mut at: usize = 0;
    while at <= last
        invariant
            text@ == whole@,
            wanted@ == part@,
            last + wanted@.len() == text@.len(),
            at <= last + 1,
            forall|k: int| 0 <= k < at ==> !occurs_at(whole@, part@, k),
        decreases last + 1 - at,
    {
        if stands_at(&text, &wanted, at) {
            return true;
        }
        if at == last {
            return false;
        }
        at = at + 1;
    }
    false
}

/// Whether a text begins with another.
pub open spec fn begins_with(whole: Seq<char>, part: Seq<char>) -> bool {
    occurs_at(whole, part, 0)
}

/// Tests whether a text begins with another.
pub fn starts_with(whole: &str, part: &str) -> (found: bool)
    ensures
        found == begins_with(whole@, part@),
{
    let text = characters(whole);
    let wanted = characters(part);
    wanted.len() <= text.len() && stands_at(&text, &wanted, 0)
}

/// The characters with the Unicode property `White_Space`.
pub open spec fn is_white_space(c: char) -> bool {
    let code = c as u32;
    ||| 0x9 <= code <= 0xd
    ||| code == 0x20
    ||| code == 0x85
    ||| code == 0xa0
    ||| code == 0x1680
    ||| 0x2000 <= code <= 0x200a
    ||| code == 0x2028
    ||| code == 0x2029
    ||| code == 0x202f
    ||| code == 0x205f
    ||| code == 0x3000
}

fn white_space(c: char) -> (white: bool)
    ensures
        white == is_white_space(c),
{
    let code: u32 = c as u32;
    (0x9 <= code && code <= 0xd) || code == 0x20 || code == 0x85 || code == 0xa0 || code == 0x1680
        || (0x2000 <= code && code <= 0x200a) || code == 0x2028 || code == 0x2029 || code == 0x202f
        || code == 0x205f || code == 0x3000
}

/// Whether `[start, end)` is the first longest run of characters in `text` that
/// holds no white space.
pub open spec fn first_word_at(text: Seq<char>, start: int, end: int) -> bool {
    &&& 0 <= start < end <= text.len()
    &&& forall|i: int| 0 <= i < start ==> is_white_space(#[trigger] text[i])
    &&& forall|i: int| start <= i < end ==> !is_white_space(#[trigger] text[i])
    &&& end < text.len() ==> is_white_space(text[end])
}

/// Whether `word` is the first word of a text, `None` standing for no word at all.
pub open spec fn is_first_word(text: Seq<char>, word: Option<Seq<char>>) -> bool {
    match word {
        Some(w) => exists|start: int, end: int|
            first_word_at(text, start, end) && w == text.subrange(start, end),
        None => forall|i: int| 0 <= i < text.len() ==> is_white_space(#[trigger] text[i]),
    }
}

/// Whether `word` is the first word of a text in UTF-8. Bytes that are not UTF-8
/// hold no word.
pub open spec fn is_first_word_of_bytes(bytes: Seq<u8>, word: Option<Seq<char>>) -> bool {
    if valid_utf8(bytes) {
        is_first_word(decode_utf8(bytes), word)
    } else {
        word is None
    }
}

/// What contracts say of an optional text.
pub open spec fn optional_text(text: Option<String>) -> Option<Seq<char>> {
    match text {
        Some(t) => Some(t@),
        None => None,
    }
}

/// The first word of a text, words being separated by white space.
pub fn first_word(text: &str) -> (word: Option<String>)
    ensures
        is_first_word(text@, optional_text(word)),
{
    let chars = characters(text);
    let mut start: usize = 0;
    while start < chars.len() && white_space(chars[start])
        invariant
            chars@ == text@,
            start <= chars@.len(),
            forall|i: int| 0 <= i < start ==> is_white_space(#[trigger] text@[i]),
        decreases chars@.len() - start,
    {
        start = start + 1;
    }
    if start == chars.len() {
        return None;
    }
    let mut word = String::new();
    let mut end: usize = start;
    while end < chars.len() && !white_space(chars[end])
        invariant
            chars@ == text@,
            start <= end <= chars@.len(),
            word@ == text@.subrange(start as int, end as int),
            forall|i: int| start <= i < end ==> !is_white_space(#[trigger] text@[i]),
        decreases chars@.len() - end,
    {
        word.push(chars[end]);
        assert(word@ =~= text@.subrange(start as int, end + 1));
        end = end + 1;
    }
    assert(first_word_at(text@, start as int, end as int));
    Some(word)
}

/// The first word of a text in UTF-8; nothing for bytes that are not UTF-8.
pub fn first_word_of_bytes(bytes: &[u8]) -> (word: Option<String>)
    ensures
        is_first_word_of_bytes(bytes@, optional_text(word)),
{
    match utf8_text(bytes) {
        Some(text) => first_word(text),
        None => None,
    }
}

} // verus!
