use vstd::prelude::*;
use vstd::string::*;
use vstd::utf8::*;

verus! {

/// `core::str::Utf8Error`: why bytes are no UTF-8, opaque to the verifier.
#[verifier::external_type_specification]
#[verifier::external_body]
pub struct ExUtf8Error(core::str::Utf8Error);

/// `core::str::from_utf8` succeeds exactly on well-formed UTF-8 and then
/// returns a string slice over the very same bytes.
pub assume_specification<'a>[ core::str::from_utf8 ](v: &'a [u8]) -> (r: Result<
    &'a str,
    core::str::Utf8Error,
>)
    ensures
        r is Ok <==> valid_utf8(v@),
        r is Ok ==> r->Ok_0.spec_bytes() == v@,
;

/// The code points with the Unicode property `White_Space`.
pub open spec fn is_white_space(c: char) -> bool {
    let u = c as u32;
    ||| 0x09 <= u <= 0x0D
    ||| u == 0x20
    ||| u == 0x85
    ||| u == 0xA0
    ||| u == 0x1680
    ||| 0x2000 <= u <= 0x200A
    ||| u == 0x2028
    ||| u == 0x2029
    ||| u == 0x202F
    ||| u == 0x205F
    ||| u == 0x3000
}

/// `s` without its leading white space.
pub open spec fn trim_front(s: Seq<char>) -> Seq<char>
    decreases s.len(),
{
    if s.len() > 0 && is_white_space(s[0]) {
        trim_front(s.skip(1))
    } else {
        s
    }
}

/// `s` without its trailing white space.
pub open spec fn trim_back(s: Seq<char>) -> Seq<char>
    decreases s.len(),
{
    if s.len() > 0 && is_white_space(s.last()) {
        trim_back(s.drop_last())
    } else {
        s
    }
}

/// `s` without leading and trailing white space.
pub open spec fn trimmed(s: Seq<char>) -> Seq<char> {
    trim_back(trim_front(s))
}

/// `str::trim` removes leading and trailing characters that have the
/// Unicode property `White_Space`, and nothing else.
pub assume_specification<'a>[ str::trim ](s: &'a str) -> (r: &'a str)
    ensures
        r@ == trimmed(s@),
;

/// The character of a decimal or hexadecimal digit, in lower case.
pub open spec fn digit_char(digit: nat) -> char {
    if digit < 10 {
        (0x30 + digit) as u8 as char
    } else {
        (0x57 + digit) as u8 as char
    }
}

/// The decimal digits of `n`, without leading zeros.
pub open spec fn decimal_text(n: nat) -> Seq<char>
    decreases n,
{
    if n < 10 {
        seq![digit_char(n)]
    } else {
        decimal_text(n / 10).push(digit_char(n % 10))
    }
}

/// The two lower-case hexadecimal digits of a byte.
pub open spec fn hex_byte_text(value: u8) -> Seq<char> {
    seq![digit_char(value as nat / 16), digit_char(value as nat % 16)]
}

/// The four lower-case hexadecimal digits of a 16-bit number.
pub open spec fn hex_word_text(value: u16) -> Seq<char> {
    hex_byte_text((value / 256) as u8) + hex_byte_text((value % 256) as u8)
}

/// The numbers of `bytes` in decimal, separated by a comma and a space.
pub open spec fn byte_list_items(bytes: Seq<u8>) -> Seq<char>
    decreases bytes.len(),
{
    if bytes.len() == 0 {
        Seq::empty()
    } else if bytes.len() == 1 {
        decimal_text(bytes[0] as nat)
    } else {
        byte_list_items(bytes.drop_last()) + seq![',', ' '] + decimal_text(bytes.last() as nat)
    }
}

/// The numbers of `bytes` as a list in square brackets.
pub open spec fn byte_list_text(bytes: Seq<u8>) -> Seq<char> {
    seq!['['] + byte_list_items(bytes) + seq![']']
}

/// The character of a digit below sixteen, in lower case.
pub fn digit_of(digit: u8) -> (c: char)
    requires
        digit < 16,
    ensures
        c == digit_char(digit as nat),
{
    if digit < 10 {
        (0x30 + digit) as char
    } else {
        (0x57 + digit) as char
    }
}

/// Appends the decimal digits of `n`, without sign or leading zeros.
pub fn push_decimal(text: &mut String, n: u128)
    ensures
        final(text)@ == old(text)@ + decimal_text(n as nat),
    decreases n,
{
    if n >= 10 {
        push_decimal(text, n / 10);
    }
    text.append(char_string(digit_of((n % 10) as u8)).as_str());
    proof {
        assert(text@ =~= old(text)@ + decimal_text(n as nat));
    }
}

/// The decimal digits of `n`, without sign or leading zeros.
pub fn decimal_string(n: u128) -> (text: String)
    ensures
        text@ == decimal_text(n as nat),
{
    let mut text = String::new();
    push_decimal(&mut text, n);
    proof {
        assert(text@ =~= decimal_text(n as nat));
    }
    text
}

/// The two lower-case hexadecimal digits of a byte.
pub fn hex_byte_string(value: u8) -> (text: String)
    ensures
        text@ == hex_byte_text(value),
{
    let mut text = char_string(digit_of(value / 16));
    text.append(char_string(digit_of(value % 16)).as_str());
    proof {
        assert(text@ =~= hex_byte_text(value));
    }
    text
}

/// The four lower-case hexadecimal digits of a 16-bit number.
pub fn hex_word_string(value: u16) -> (text: String)
    ensures
        text@ == hex_word_text(value),
{
    let mut text = hex_byte_string((value / 256) as u8);
    text.append(hex_byte_string((value % 256) as u8).as_str());
    text
}

/// `char::to_string`: the string of that one character.
#[verifier::external_body]
pub(crate) fn char_string(c: char) -> (text: String)
    ensures
        text@ == seq![c],
{
    c.to_string()
}

/// The numbers of `bytes` in decimal, separated by a comma and a space, in
/// square brackets.
pub fn byte_list_string(bytes: &Vec<u8>) -> (text: String)
    ensures
        text@ == byte_list_text(bytes@),
{
    let mut text = String::from_str("[");
    let mut index: usize = 0;
    proof {
        reveal_strlit("[");
        assert(text@ =~= seq!['['] + byte_list_items(bytes@.subrange(0, 0)));
    }
    while index < bytes.len()
        invariant
            index <= bytes@.len(),
            text@ == seq!['['] + byte_list_items(bytes@.subrange(0, index as int)),
        decreases bytes@.len() - index,
    {
        let ghost before = text@;
        if index > 0 {
            text.append(", ");
        }
        push_decimal(&mut text, bytes[index] as u128);
        proof {
            reveal_strlit(", ");
            let done = bytes@.subrange(0, index as int);
            let next = bytes@.subrange(0, index + 1);
            assert(next.drop_last() =~= done);
            assert(next.last() == bytes@[index as int]);
            assert(", "@ =~= seq![',', ' ']);
            assert(text@ =~= seq!['['] + byte_list_items(next));
        }
        index = index + 1;
    }
    text.append("]");
    proof {
        reveal_strlit("]");
        assert(bytes@.subrange(0, index as int) =~= bytes@);
        assert(text@ =~= byte_list_text(bytes@));
    }
    text
}

/// The value of a string of decimal digits.
pub open spec fn digits_value(digits: Seq<char>) -> nat
    decreases digits.len(),
{
    if digits.len() == 0 {
        0
    } else {
        (digits_value(digits.drop_last()) * 10 + (digits.last() as u32 - 0x30)) as nat
    }
}

/// Whether every character is one of the digits `0` to `9`.
pub open spec fn all_digits(text: Seq<char>) -> bool {
    forall|i: int| 0 <= i < text.len() ==> 0x30 <= (#[trigger] text[i]) as u32 <= 0x39
}

/// The unsigned 64-bit number that `text` denotes: decimal digits, at least
/// one, after an optional plus sign, with a value that fits. `None` for
/// every other text.
pub open spec fn parsed_u64(text: Seq<char>) -> Option<u64> {
    let digits = if text.len() > 0 && text[0] == '+' {
        text.skip(1)
    } else {
        text
    };
    if digits.len() > 0 && all_digits(digits) && digits_value(digits) <= u64::MAX {
        Some(digits_value(digits) as u64)
    } else {
        None
    }
}

/// The value of the first digits of a string of digits is no more than
/// the value of all of them.
pub proof fn lemma_digits_value_grows(digits: Seq<char>, count: int)
    requires
        all_digits(digits),
        0 <= count <= digits.len(),
    ensures
        digits_value(digits.subrange(0, count)) <= digits_value(digits),
    decreases digits.len() - count,
{
    if count == digits.len() {
        assert(digits.subrange(0, count) =~= digits);
    } else {
        let longer = digits.subrange(0, count + 1);
        assert(longer.drop_last() =~= digits.subrange(0, count));
        assert(0x30 <= longer.last() as u32 <= 0x39) by {
            assert(longer.last() == digits[count]);
        }
        lemma_digits_value_grows(digits, count + 1);
    }
}

/// Reads an unsigned 64-bit number off a text: decimal digits, at least
/// one, after an optional plus sign. Fails on an empty text, on any other
/// character and on a number that does not fit.
pub fn parse_u64_text(text: &str) -> (number: Option<u64>)
    ensures
        number == parsed_u64(text@),
{
    let chars = chars_of(text);
    let len = chars.len();
    let start: usize = if len > 0 && chars[0] == '+' {
        1
    } else {
        0
    };
    let ghost digits = chars@.subrange(start as int, len as int);
    proof {
        if start == 1 {
            assert(digits =~= text@.skip(1));
        } else {
            assert(digits =~= text@);
        }
    }
    if start == len {
        return None;
    }
    let mut value: u64 = 0;
    let mut index: usize = start;
    proof {
        assert(digits.subrange(0, 0) =~= Seq::<char>::empty());
    }
    while index < len
        invariant
            start <= index <= len,
            len == chars@.len(),
            digits == chars@.subrange(start as int, len as int),
            digits == if text@.len() > 0 && text@[0] == '+' {
                text@.skip(1)
            } else {
                text@
            },
            all_digits(digits.subrange(0, index - start)),
            value == digits_value(digits.subrange(0, index - start)),
        decreases len - index,
    {
        let code: u32 = chars[index] as u32;
        let ghost read = digits.subrange(0, index - start);
        let ghost next = digits.subrange(0, index - start + 1);
        proof {
            assert(next.drop_last() =~= read);
            assert(next.last() == chars@[index as int]);
        }
        if code < 0x30 || code > 0x39 {
            proof {
                assert(digits[index - start] == chars@[index as int]);
            }
            return None;
        }
        let digit: u64 = (code - 0x30) as u64;
        proof {
            assert forall|i: int| 0 <= i < next.len() implies 0x30 <= (#[trigger] next[i]) as u32
                <= 0x39 by {
                if i < read.len() {
                    assert(next[i] == read[i]);
                }
            }
        }
        if value > (u64::MAX - digit) / 10 {
            proof {
                assert(digits_value(next) > u64::MAX);
                if all_digits(digits) {
                    lemma_digits_value_grows(digits, index - start + 1);
                }
            }
            return None;
        }
        value = value * 10 + digit;
        index = index + 1;
    }
    proof {
        assert(digits.subrange(0, len - start) =~= digits);
    }
    Some(value)
}

/// Whether two texts are the same: they are where their bytes are.
pub fn same_text(left: &str, right: &str) -> (same: bool)
    ensures
        same == (left@ == right@),
{
    let a = left.as_bytes();
    let b = right.as_bytes();
    proof {
        encode_utf8_decode_utf8(left@);
        encode_utf8_decode_utf8(right@);
    }
    if a.len() != b.len() {
        return false;
    }
    let mut index: usize = 0;
    while index < a.len()
        invariant
            index <= a@.len(),
            a@.len() == b@.len(),
            a@ == encode_utf8(left@),
            b@ == encode_utf8(right@),
            forall|i: int| 0 <= i < index ==> a@[i] == b@[i],
        decreases a@.len() - index,
    {
        if a[index] != b[index] {
            proof {
                assert(a@[index as int] != b@[index as int]);
            }
            return false;
        }
        index = index + 1;
    }
    proof {
        assert(a@ =~= b@);
    }
    true
}

/// The text in lower case, as Unicode defines it.
pub uninterp spec fn lowercase_text(text: Seq<char>) -> Seq<char>;

/// `str::to_lowercase`: the text in lower case, as Unicode defines it.
#[verifier::external_body]
pub(crate) fn lowercase_string(text: &str) -> (lower: String)
    ensures
        lower@ == lowercase_text(text@),
{
    text.to_lowercase()
}

/// The characters of a text, in order.
pub fn chars_of(text: &str) -> (chars: Vec<char>)
    ensures
        chars@ == text@,
{
    broadcast use vstd::string::group_string_axioms;

    let mut chars: Vec<char> = Vec::new();
    for c in iter: text.chars()
        invariant
            iter.seq() == text@,
            chars@ == text@.subrange(0, iter.index() as int),
    {
        chars.push(c);
        proof {
            assert(chars@ =~= text@.subrange(0, iter.index() + 1));
        }
    }
    proof {
        assert(text@.subrange(0, text@.len() as int) =~= text@);
    }
    chars
}

/// The text made of the characters `chars[from..to]`, in order.
pub fn string_of(chars: &[char], from: usize, to: usize) -> (text: String)
    requires
        from <= to <= chars@.len(),
    ensures
        text@ == chars@.subrange(from as int, to as int),
{
    let mut text = String::new();
    let mut index: usize = from;
    while index < to
        invariant
            from <= index <= to <= chars@.len(),
            text@ == chars@.subrange(from as int, index as int),
        decreases to - index,
    {
        text.append(char_string(chars[index]).as_str());
        index = index + 1;
        proof {
            assert(text@ =~= chars@.subrange(from as int, index as int));
        }
    }
    text
}

/// Whether a character has the Unicode property `White_Space`.
pub fn is_white_space_char(c: char) -> (answer: bool)
    ensures
        answer == is_white_space(c),
{
    let u: u32 = c as u32;
    (0x09 <= u && u <= 0x0D) || u == 0x20 || u == 0x85 || u == 0xA0 || u == 0x1680 || (0x2000 <= u
        && u <= 0x200A) || u == 0x2028 || u == 0x2029 || u == 0x202F || u == 0x205F || u == 0x3000
}

/// Finds what is left of `chars[start..end]` without the white space at
/// both ends, as a range of positions.
pub fn trim_range(chars: &[char], start: usize, end: usize) -> (range: (usize, usize))
    requires
        start <= end <= chars@.len(),
    ensures
        start <= range.0 <= range.1 <= end,
        chars@.subrange(range.0 as int, range.1 as int) == trimmed(
            chars@.subrange(start as int, end as int),
        ),
{
    let mut from: usize = start;
    while from < end && is_white_space_char(chars[from])
        invariant
            start <= from <= end <= chars@.len(),
            trim_front(chars@.subrange(start as int, end as int)) == trim_front(
                chars@.subrange(from as int, end as int),
            ),
        decreases end - from,
    {
        proof {
            let rest = chars@.subrange(from as int, end as int);
            assert(rest[0] == chars@[from as int]);
            assert(rest.skip(1) =~= chars@.subrange(from + 1, end as int));
        }
        from = from + 1;
    }
    proof {
        let rest = chars@.subrange(from as int, end as int);
        if from < end {
            assert(rest[0] == chars@[from as int]);
        }
        assert(trim_front(rest) == rest);
    }
    let mut to: usize = end;
    while to > from && is_white_space_char(chars[to - 1])
        invariant
            from <= to <= end <= chars@.len(),
            trim_back(chars@.subrange(from as int, end as int)) == trim_back(
                chars@.subrange(from as int, to as int),
            ),
        decreases to - from,
    {
        proof {
            let rest = chars@.subrange(from as int, to as int);
            assert(rest.last() == chars@[to - 1]);
            assert(rest.drop_last() =~= chars@.subrange(from as int, to - 1));
        }
        to = to - 1;
    }
    proof {
        let rest = chars@.subrange(from as int, to as int);
        if to > from {
            assert(rest.last() == chars@[to - 1]);
        }
        assert(trim_back(rest) == rest);
    }
    (from, to)
}

/// The first position at or after `from` at which `text` holds `c`; the
/// length of `text` where it holds none.
pub open spec fn index_from(text: Seq<char>, c: char, from: int) -> int
    decreases text.len() - from,
{
    if from >= text.len() {
        text.len() as int
    } else if from >= 0 && text[from] == c {
        from
    } else {
        index_from(text, c, from + 1)
    }
}

/// The first position at or after `from` and before `end` at which `chars`
/// holds `c`; `end` where it holds none there.
pub fn find_from(chars: &[char], c: char, from: usize, end: usize) -> (found: usize)
    requires
        from <= end <= chars@.len(),
    ensures
        from <= found <= end,
        found == index_from(chars@.subrange(0, end as int), c, from as int),
        found < end ==> chars@[found as int] == c,
        forall|i: int| from <= i < found ==> chars@[i] != c,
{
    let ghost text = chars@.subrange(0, end as int);
    let mut at: usize = from;
    while at < end && chars[at] != c
        invariant
            from <= at <= end <= chars@.len(),
            text == chars@.subrange(0, end as int),
            index_from(text, c, from as int) == index_from(text, c, at as int),
            forall|i: int| from <= i < at ==> chars@[i] != c,
        decreases end - at,
    {
        proof {
            assert(text[at as int] == chars@[at as int]);
        }
        at = at + 1;
    }
    proof {
        if at < end {
            assert(text[at as int] == chars@[at as int]);
        }
    }
    at
}

} // verus!
