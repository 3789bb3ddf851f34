use vstd::prelude::*;
use vstd::array::*;
use vstd::string::*;
use vstd::utf8::*;
use crate::error::{ParseError, ParseResult};
use crate::parser_uint::too_short;
use crate::packet::{left_aligned, PAD};
use crate::text::{decimal_string, decimal_text};
use crate::utils::check_len;

verus! {

/// A fixed-width text field of `N` bytes, padded with spaces at its end.
#[derive(Copy, Clone, Eq, PartialEq, Hash, PartialOrd, Ord)]
pub struct Alpha<const N: usize> {
    bytes: [u8; N],
    len: u8,
}

/// The length of `bytes` without the spaces at their end.
pub open spec fn trimmed_len(bytes: Seq<u8>) -> nat
    decreases bytes.len(),
{
    if bytes.len() > 0 && bytes.last() == PAD {
        trimmed_len(bytes.drop_last())
    } else {
        bytes.len()
    }
}

/// Whether every byte is an ASCII character.
pub open spec fn is_ascii_bytes(bytes: Seq<u8>) -> bool {
    forall|i: int| 0 <= i < bytes.len() ==> #[trigger] bytes[i] < 128
}

/// The characters that ASCII bytes stand for.
pub open spec fn ascii_text(bytes: Seq<u8>) -> Seq<char> {
    Seq::new(bytes.len(), |i: int| bytes[i] as char)
}

/// The trimmed length is no more than the length.
pub proof fn lemma_trimmed_len_bound(bytes: Seq<u8>)
    ensures
        trimmed_len(bytes) <= bytes.len(),
    decreases bytes.len(),
{
    if bytes.len() > 0 && bytes.last() == PAD {
        lemma_trimmed_len_bound(bytes.drop_last());
    }
}

/// ASCII bytes are valid UTF-8, and the text they encode is their characters.
pub proof fn lemma_ascii_is_utf8(bytes: Seq<u8>)
    requires
        is_ascii_bytes(bytes),
    ensures
        valid_utf8(bytes),
        encode_utf8(ascii_text(bytes)) == bytes,
        decode_utf8(bytes) == ascii_text(bytes),
{
    let chars = ascii_text(bytes);
    assert forall|i: int| 0 <= i < chars.len() implies '\0' <= #[trigger] chars[i] <= '\u{7f}' by {
        assert(bytes[i] < 128);
    }
    is_ascii_chars_encode_utf8(chars);
    assert(encode_utf8(chars) =~= bytes);
    encode_utf8_valid_utf8(chars);
    encode_utf8_decode_utf8(chars);
}

/// The text that `format!` with `{:?}` writes for a string: the string in
/// double quotes, with the characters escaped that Rust escapes.
pub uninterp spec fn debug_text(text: Seq<char>) -> Seq<char>;

/// `format!` with `{:?}` on a string.
#[verifier::external_body]
pub(crate) fn debug_string(text: &str) -> (quoted: String)
    ensures
        quoted@ == debug_text(text@),
{
    format!("{:?}", text)
}

/// The text of the valid UTF-8 in `bytes`.
fn text_of<'a>(bytes: &'a [u8]) -> (text: &'a str)
    requires
        is_ascii_bytes(bytes@),
    ensures
        text@ == ascii_text(bytes@),
{
    proof {
        lemma_ascii_is_utf8(bytes@);
    }
    match core::str::from_utf8(bytes) {
        Ok(text) => {
            proof {
                encode_utf8_decode_utf8(text@);
            }
            text
        },
        Err(_) => "",
    }
}

impl<const N: usize> Alpha<N> {
    #[verifier::type_invariant]
    spec fn well_formed(self) -> bool {
        self.len as nat == trimmed_len(self.bytes@) % 256
    }

    /// All bytes of the field, padding included.
    pub closed spec fn bytes_of(self) -> Seq<u8> {
        self.bytes@
    }

    /// The field's length without the spaces at its end, as far as a byte holds it.
    pub open spec fn trimmed_length(self) -> nat {
        trimmed_len(self.bytes_of()) % 256
    }

    /// The field's bytes without the spaces at its end.
    pub open spec fn trimmed_bytes(self) -> Seq<u8> {
        self.bytes_of().subrange(0, self.trimmed_length() as int)
    }

    /// A field with these bytes.
    #[inline(always)]
    pub fn new(bytes: [u8; N]) -> (alpha: Self)
        ensures
            alpha.bytes_of() == bytes@,
    {
        let mut end: usize = N;
        proof {
            assert(bytes@.subrange(0, N as int) =~= bytes@);
        }
        while end > 0 && bytes[end - 1] == PAD
            invariant
                end <= N,
                bytes@.len() == N,
                trimmed_len(bytes@) == trimmed_len(bytes@.subrange(0, end as int)),
            decreases end,
        {
            proof {
                let kept = bytes@.subrange(0, end as int);
                assert(kept.last() == bytes@[end - 1]);
                assert(kept.drop_last() =~= bytes@.subrange(0, end - 1));
            }
            end = end - 1;
        }
        proof {
            let kept = bytes@.subrange(0, end as int);
            assert(bytes@.subrange(0, N as int) =~= bytes@);
            if end > 0 {
                assert(kept.last() == bytes@[end - 1]);
            }
            assert(trimmed_len(kept) == end);
        }
        Self { bytes, len: (end % 256) as u8 }
    }

    /// Decodes a field from the first `N` bytes of `input`.
    #[inline(always)]
    pub fn parse(input: &[u8]) -> (result: ParseResult<Self>)
        ensures
            input@.len() >= N ==> result is Ok && result->Ok_0.bytes_of() == input@.subrange(
                0,
                N as int,
            ),
            input@.len() < N ==> result == Err::<Self, ParseError>(too_short(input@, N as int)),
    {
        check_len(input, N)?;
        let mut buf: [u8; N] = [0u8; N];
        let mut index: usize = 0;
        while index < N
            invariant
                index <= N,
                input@.len() >= N,
                buf@.len() == N,
                forall|i: int| 0 <= i < index ==> buf@[i] == input@[i],
            decreases N - index,
        {
            buf[index] = input[index];
            index = index + 1;
        }
        proof {
            assert(buf@ =~= input@.subrange(0, N as int));
        }
        Ok(Self::new(buf))
    }

    /// The whole field as text, padding included. The bytes must be ASCII.
    #[inline(always)]
    pub fn as_str(&self) -> (text: &str)
        requires
            is_ascii_bytes(self.bytes_of()),
        ensures
            text@ == ascii_text(self.bytes_of()),
    {
        text_of(self.bytes.as_slice())
    }

    /// The field as text without the spaces at its end. The bytes must be ASCII.
    #[inline(always)]
    pub fn as_trimmed_str(&self) -> (text: &str)
        requires
            is_ascii_bytes(self.bytes_of()),
        ensures
            text@ == ascii_text(self.trimmed_bytes()),
    {
        proof {
            use_type_invariant(self);
            lemma_trimmed_len_bound(self.bytes@);
        }
        let all = self.bytes.as_slice();
        text_of(&all[0..self.len as usize])
    }

    /// All bytes of the field, padding included.
    #[inline(always)]
    pub fn as_bytes(&self) -> (bytes: &[u8; N])
        ensures
            bytes@ == self.bytes_of(),
    {
        &self.bytes
    }

    /// The field's length without the spaces at its end.
    #[inline(always)]
    pub fn len(&self) -> (len: usize)
        ensures
            len == self.trimmed_length(),
    {
        proof {
            use_type_invariant(self);
        }
        self.len as usize
    }

    /// Whether the field holds nothing but padding.
    #[inline(always)]
    pub fn is_empty(&self) -> (empty: bool)
        ensures
            empty == (self.trimmed_length() == 0),
    {
        proof {
            use_type_invariant(self);
        }
        self.len == 0
    }

    /// The field as text without the spaces at its end. The bytes must be ASCII.
    pub fn as_ref(&self) -> (text: &str)
        requires
            is_ascii_bytes(self.bytes_of()),
        ensures
            text@ == ascii_text(self.trimmed_bytes()),
    {
        self.as_trimmed_str()
    }

    /// The trimmed text as an owned string. The bytes must be ASCII.
    pub fn to_string(&self) -> (text: String)
        requires
            is_ascii_bytes(self.bytes_of()),
        ensures
            text@ == ascii_text(self.trimmed_bytes()),
    {
        String::from_str(self.as_trimmed_str())
    }

    /// The text that shows the field when debugging: its name and, in
    /// brackets, the trimmed text in quotes. The bytes must be ASCII.
    pub fn debug_string(&self) -> (text: String)
        requires
            is_ascii_bytes(self.bytes_of()),
        ensures
            text@ == "Alpha("@ + debug_text(ascii_text(self.trimmed_bytes())) + ")"@,
    {
        let mut text = String::from_str("Alpha(");
        text.append(debug_string(self.as_trimmed_str()).as_str());
        text.append(")");
        text
    }
}

/// A text that is too long for a field.
#[derive(Debug, Clone, Copy, PartialEq, Eq, Structural)]
pub struct TooLong {
    /// The number of bytes that the field holds.
    pub max: usize,
    /// The number of bytes of the text.
    pub got: usize,
}

impl TooLong {
    /// The text of the error.
    pub open spec fn message_text(self) -> Seq<char> {
        "expected at most length "@ + decimal_text(self.max as nat) + ", got "@ + decimal_text(
            self.got as nat,
        )
    }

    /// The text of the error.
    pub fn to_string(&self) -> (text: String)
        ensures
            text@ == self.message_text(),
    {
        let mut text = String::from_str("expected at most length ");
        text.append(decimal_string(self.max as u128).as_str());
        text.append(", got ");
        text.append(decimal_string(self.got as u128).as_str());
        proof {
            assert(text@ =~= self.message_text());
        }
        text
    }
}

impl<const N: usize> Alpha<N> {
    /// The field that holds `value` at its start and spaces after it. A
    /// text of more than `N` bytes fits no field.
    pub fn from_text(value: &str) -> (result: Result<Self, TooLong>)
        ensures
            value.spec_bytes().len() <= N ==> result is Ok && result->Ok_0.bytes_of()
                == left_aligned(value.spec_bytes(), N as int),
            value.spec_bytes().len() > N ==> result == Err::<Self, TooLong>(
                TooLong { max: N, got: value.spec_bytes().len() as usize },
            ),
    {
        let bytes = value.as_bytes();
        if bytes.len() > N {
            return Err(TooLong { max: N, got: bytes.len() });
        }
        let mut arr: [u8; N] = [PAD; N];
        let mut index: usize = 0;
        while index < bytes.len()
            invariant
                index <= bytes@.len() <= N,
                arr@.len() == N,
                forall|i: int| 0 <= i < index ==> arr@[i] == bytes@[i],
                forall|i: int| index <= i < N ==> arr@[i] == PAD,
            decreases bytes@.len() - index,
        {
            arr[index] = bytes[index];
            index = index + 1;
        }
        proof {
            assert(arr@ =~= left_aligned(bytes@, N as int));
        }
        Ok(Self::new(arr))
    }
}

pub type Alpha3 = Alpha<3>;

pub type Alpha4 = Alpha<4>;

pub type Alpha8 = Alpha<8>;

pub type Alpha10 = Alpha<10>;

pub type Alpha12 = Alpha<12>;

pub type Alpha16 = Alpha<16>;

pub type Alpha32 = Alpha<32>;

pub type Alpha40 = Alpha<40>;

pub type Alpha64 = Alpha<64>;

pub type Alpha100 = Alpha<100>;

} // verus!
