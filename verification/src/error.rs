use vstd::prelude::*;
use vstd::string::*;
use std::borrow::Cow;
use vstd::std_specs::convert::{FromSpecImpl, IntoSpec};
use crate::text::{
    byte_list_string, byte_list_text, char_string, decimal_string, decimal_text, hex_byte_string,
    hex_byte_text, hex_word_string, hex_word_text,
};
use crate::transport::failure_message;

verus! {

/// What went wrong while bytes were decoded, some variants with the place
/// where it went wrong.
#[derive(Debug)]
#[non_exhaustive]
#[allow(inconsistent_fields)]
pub enum ParseError {
    /// A byte that may not stand there.
    InvalidChar { value: u8 },
    InvalidCharAt { value: u8, position: usize },
    /// A date field that is no date.
    InvalidDate,
    InvalidDateAt { position: usize },
    /// A timestamp of an unexpected form or kind.
    InvalidTimestamp { timestamp: &'static str },
    InvalidTimestampAt { timestamp: &'static str, position: usize },
    /// A message type byte that is not known.
    InvalidMessageType { value: u8 },
    InvalidMessageTypeAt { value: u8, position: usize },
    /// A field outside its allowed values.
    InvalidValue,
    InvalidValueAt { position: usize },
    /// A number that is no member of an enumeration.
    InvalidEnumValue { value: u16 },
    InvalidEnumValueAt { value: u16, position: usize },
    /// A byte string that is no member of an enumeration.
    InvalidEnumString { invalid: Vec<u8> },
    InvalidEnumStringAt { invalid: Vec<u8>, position: usize },
    /// Reading failed.
    Io { source: std::io::Error },
    /// Bytes that are no UTF-8.
    Utf8 { source: core::str::Utf8Error },
    /// The data ended before the record did.
    Incomplete { needed: Option<usize> },
    IncompleteAt { needed: Option<usize>, position: usize },
    /// Any other failure, with its message.
    Custom { message: Cow<'static, str> },
}

/// The result of decoding.
pub type ParseResult<T> = Result<T, ParseError>;

/// The text that `core::str::Utf8Error` displays. Nothing is claimed of the result.
#[verifier::external_body]
pub(crate) fn utf8_error_message(error: &core::str::Utf8Error) -> String {
    error.to_string()
}

/// The text that says how many bytes were missing.
pub open spec fn needed_text(needed: Option<usize>) -> Seq<char> {
    match needed {
        Some(count) => decimal_text(count as nat),
        None => "unknown"@,
    }
}

/// The text that says where it went wrong.
pub open spec fn position_text(position: usize) -> Seq<char> {
    " at position "@ + decimal_text(position as nat)
}

/// The text that names a byte in hexadecimal.
pub open spec fn byte_text(value: u8) -> Seq<char> {
    "0x"@ + hex_byte_text(value)
}

/// The text that names a message type in hexadecimal and as a character.
pub open spec fn message_type_text(value: u8) -> Seq<char> {
    "invalid message type: 0x"@ + hex_byte_text(value) + " ('"@ + seq![value as char] + "')"@
}

impl ParseError {
    /// The error with the place added, where it is of a kind that can hold
    /// one and holds none yet; else the error itself.
    pub open spec fn positioned(self, position: usize) -> ParseError {
        match self {
            ParseError::InvalidChar { value } => ParseError::InvalidCharAt { value, position },
            ParseError::InvalidDate => ParseError::InvalidDateAt { position },
            ParseError::InvalidTimestamp { timestamp } => ParseError::InvalidTimestampAt {
                timestamp,
                position,
            },
            ParseError::InvalidMessageType { value } => ParseError::InvalidMessageTypeAt {
                value,
                position,
            },
            ParseError::InvalidValue => ParseError::InvalidValueAt { position },
            ParseError::InvalidEnumValue { value } => ParseError::InvalidEnumValueAt {
                value,
                position,
            },
            ParseError::InvalidEnumString { invalid } => ParseError::InvalidEnumStringAt {
                invalid,
                position,
            },
            ParseError::Incomplete { needed } => ParseError::IncompleteAt { needed, position },
            other => other,
        }
    }

    /// The text of the error. For `Io` and `Utf8` it is the part before the
    /// text of the underlying error.
    pub open spec fn message_text(self) -> Seq<char> {
        match self {
            ParseError::InvalidChar { value } => "invalid character: "@ + byte_text(value),
            ParseError::InvalidCharAt { value, position } => "invalid character: "@ + byte_text(
                value,
            ) + position_text(position),
            ParseError::InvalidDate => "invalid date"@,
            ParseError::InvalidDateAt { position } => "invalid date"@ + position_text(position),
            ParseError::InvalidTimestamp { timestamp } => "invalid timestamp: "@ + timestamp@,
            ParseError::InvalidTimestampAt { timestamp, position } => "invalid timestamp: "@
                + timestamp@ + position_text(position),
            ParseError::InvalidMessageType { value } => message_type_text(value),
            ParseError::InvalidMessageTypeAt { value, position } => message_type_text(value)
                + position_text(position),
            ParseError::InvalidValue => "invalid value"@,
            ParseError::InvalidValueAt { position } => "invalid value"@ + position_text(position),
            ParseError::InvalidEnumValue { value } => "invalid enum value: 0x"@ + hex_word_text(
                value,
            ),
            ParseError::InvalidEnumValueAt { value, position } => "invalid enum value: 0x"@
                + hex_word_text(value) + position_text(position),
            ParseError::InvalidEnumString { invalid } => "invalid enum string: "@ + byte_list_text(
                invalid@,
            ),
            ParseError::InvalidEnumStringAt { invalid, position } => "invalid enum string: "@
                + byte_list_text(invalid@) + position_text(position),
            ParseError::Io { .. } => "I/O error: "@,
            ParseError::Utf8 { .. } => "UTF-8 error: "@,
            ParseError::Incomplete { needed } => "incomplete data (needed: "@ + needed_text(needed)
                + " bytes)"@,
            ParseError::IncompleteAt { needed, position } => "incomplete data"@ + position_text(
                position,
            ) + " (needed: "@ + needed_text(needed) + " bytes)"@,
            ParseError::Custom { message } => message@,
        }
    }

    /// An error that holds nothing but a message.
    pub fn custom<M>(message: M) -> (error: Self) where M: Into<Cow<'static, str>>
        ensures
            error is Custom,
            M::obeys_into_spec() ==> error->message == message.into_spec(),
    {
        ParseError::Custom { message: message.into() }
    }

    /// Adds the place where it went wrong, unless the error holds one
    /// already or is of a kind that holds none.
    pub fn with_position(self, position: usize) -> (error: Self)
        ensures
            error == self.positioned(position),
    {
        match self {
            ParseError::InvalidChar { value } => ParseError::InvalidCharAt { value, position },
            ParseError::InvalidDate => ParseError::InvalidDateAt { position },
            ParseError::InvalidTimestamp { timestamp } => ParseError::InvalidTimestampAt {
                timestamp,
                position,
            },
            ParseError::InvalidMessageType { value } => ParseError::InvalidMessageTypeAt {
                value,
                position,
            },
            ParseError::InvalidValue => ParseError::InvalidValueAt { position },
            ParseError::InvalidEnumValue { value } => ParseError::InvalidEnumValueAt {
                value,
                position,
            },
            ParseError::InvalidEnumString { invalid } => ParseError::InvalidEnumStringAt {
                invalid,
                position,
            },
            ParseError::Incomplete { needed } => ParseError::IncompleteAt { needed, position },
            other => other,
        }
    }

    /// Whether the error was caused by another one that it holds.
    pub fn has_source(&self) -> (answer: bool)
        ensures
            answer == (self is Io || self is Utf8),
    {
        match self {
            ParseError::Io { .. } => true,
            ParseError::Utf8 { .. } => true,
            _ => false,
        }
    }

    /// The text of the error. For `Io` and `Utf8` the text of the
    /// underlying error follows the fixed part.
    pub fn to_string(&self) -> (text: String)
        ensures
            self.message_text().is_prefix_of(text@),
            !(self is Io) && !(self is Utf8) ==> text@ == self.message_text(),
    {
        let text = match self {
            ParseError::InvalidChar { value } => {
                let mut text = String::from_str("invalid character: ");
                append_byte(&mut text, *value);
                text
            },
            ParseError::InvalidCharAt { value, position } => {
                let mut text = String::from_str("invalid character: ");
                append_byte(&mut text, *value);
                append_position(&mut text, *position);
                text
            },
            ParseError::InvalidDate => String::from_str("invalid date"),
            ParseError::InvalidDateAt { position } => {
                let mut text = String::from_str("invalid date");
                append_position(&mut text, *position);
                text
            },
            ParseError::InvalidTimestamp { timestamp } => {
                let mut text = String::from_str("invalid timestamp: ");
                text.append(timestamp);
                text
            },
            ParseError::InvalidTimestampAt { timestamp, position } => {
                let mut text = String::from_str("invalid timestamp: ");
                text.append(timestamp);
                append_position(&mut text, *position);
                text
            },
            ParseError::InvalidMessageType { value } => message_type_string(*value),
            ParseError::InvalidMessageTypeAt { value, position } => {
                let mut text = message_type_string(*value);
                append_position(&mut text, *position);
                text
            },
            ParseError::InvalidValue => String::from_str("invalid value"),
            ParseError::InvalidValueAt { position } => {
                let mut text = String::from_str("invalid value");
                append_position(&mut text, *position);
                text
            },
            ParseError::InvalidEnumValue { value } => {
                let mut text = String::from_str("invalid enum value: 0x");
                text.append(hex_word_string(*value).as_str());
                text
            },
            ParseError::InvalidEnumValueAt { value, position } => {
                let mut text = String::from_str("invalid enum value: 0x");
                text.append(hex_word_string(*value).as_str());
                append_position(&mut text, *position);
                text
            },
            ParseError::InvalidEnumString { invalid } => {
                let mut text = String::from_str("invalid enum string: ");
                text.append(byte_list_string(invalid).as_str());
                text
            },
            ParseError::InvalidEnumStringAt { invalid, position } => {
                let mut text = String::from_str("invalid enum string: ");
                text.append(byte_list_string(invalid).as_str());
                append_position(&mut text, *position);
                text
            },
            ParseError::Io { source } => {
                let mut text = String::from_str("I/O error: ");
                text.append(failure_message(source).as_str());
                text
            },
            ParseError::Utf8 { source } => {
                let mut text = String::from_str("UTF-8 error: ");
                text.append(utf8_error_message(source).as_str());
                text
            },
            ParseError::Incomplete { needed } => {
                let mut text = String::from_str("incomplete data (needed: ");
                append_needed(&mut text, *needed);
                text.append(" bytes)");
                text
            },
            ParseError::IncompleteAt { needed, position } => {
                let mut text = String::from_str("incomplete data");
                append_position(&mut text, *position);
                text.append(" (needed: ");
                append_needed(&mut text, *needed);
                text.append(" bytes)");
                text
            },
            ParseError::Custom { message } => cow_string(message),
        };
        proof {
            assert(text@.subrange(0, text@.len() as int) =~= text@);
            if self is Io || self is Utf8 {
                assert(text@.subrange(0, self.message_text().len() as int) =~= self.message_text());
            }
        }
        text
    }
}

/// An owned copy of a text that is borrowed or owned.
pub fn cow_string(text: &Cow<'static, str>) -> (owned: String)
    ensures
        owned@ == text@,
{
    match text {
        Cow::Borrowed(borrowed) => String::from_str(borrowed),
        Cow::Owned(held) => held.clone(),
    }
}

/// Appends the text that names a byte in hexadecimal.
fn append_byte(text: &mut String, value: u8)
    ensures
        final(text)@ == old(text)@ + byte_text(value),
{
    text.append("0x");
    text.append(hex_byte_string(value).as_str());
    proof {
        assert(text@ =~= old(text)@ + byte_text(value));
    }
}

/// Appends the text that says where it went wrong.
fn append_position(text: &mut String, position: usize)
    ensures
        final(text)@ == old(text)@ + position_text(position),
{
    text.append(" at position ");
    text.append(decimal_string(position as u128).as_str());
    proof {
        assert(text@ =~= old(text)@ + position_text(position));
    }
}

/// Appends the text that says how many bytes were missing.
fn append_needed(text: &mut String, needed: Option<usize>)
    ensures
        final(text)@ == old(text)@ + needed_text(needed),
{
    match needed {
        Some(count) => {
            text.append(decimal_string(count as u128).as_str());
        },
        None => {
            text.append("unknown");
        },
    }
}

/// The text that names a message type in hexadecimal and as a character.
fn message_type_string(value: u8) -> (text: String)
    ensures
        text@ == message_type_text(value),
{
    let mut text = String::from_str("invalid message type: 0x");
    text.append(hex_byte_string(value).as_str());
    text.append(" ('");
    text.append(char_string(value as char).as_str());
    text.append("')");
    text
}

impl From<std::io::Error> for ParseError {
    fn from(source: std::io::Error) -> (error: Self) {
        ParseError::Io { source }
    }
}

impl FromSpecImpl<std::io::Error> for ParseError {
    open spec fn obeys_from_spec() -> bool {
        true
    }

    open spec fn from_spec(source: std::io::Error) -> Self {
        ParseError::Io { source }
    }
}

impl From<core::str::Utf8Error> for ParseError {
    fn from(source: core::str::Utf8Error) -> (error: Self) {
        ParseError::Utf8 { source }
    }
}

impl FromSpecImpl<core::str::Utf8Error> for ParseError {
    open spec fn obeys_from_spec() -> bool {
        true
    }

    open spec fn from_spec(source: core::str::Utf8Error) -> Self {
        ParseError::Utf8 { source }
    }
}

} // verus!
