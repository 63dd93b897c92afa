//! Failures as values: one error type for what can go wrong while a number
//! is read from a text, and the steps that can fail.

use std::num::ParseIntError;
use vstd::prelude::*;
use vstd::std_specs::convert::FromSpecImpl;
use vstd::string::*;

verus! {

/// The standard library's error for input and output. Opaque here: it is
/// only carried along.
#[verifier::external_type_specification]
#[verifier::external_body]
pub struct ExIoError(std::io::Error);

/// The standard library's error for a text that is no integer. Opaque here.
#[verifier::external_type_specification]
#[verifier::external_body]
pub struct ExParseIntError(ParseIntError);

/// What can go wrong: reading failed, the text was no number, or something
/// else that a message describes.
#[derive(Debug)]
pub enum MyError {
    IoError(std::io::Error),
    ParseError(ParseIntError),
    CustomError(String),
}

impl From<std::io::Error> for MyError {
    fn from(error: std::io::Error) -> (converted: MyError) {
        MyError::IoError(error)
    }
}

impl FromSpecImpl<std::io::Error> for MyError {
    open spec fn obeys_from_spec() -> bool {
        true
    }

    open spec fn from_spec(error: std::io::Error) -> MyError {
        MyError::IoError(error)
    }
}

impl From<ParseIntError> for MyError {
    fn from(error: ParseIntError) -> (converted: MyError) {
        MyError::ParseError(error)
    }
}

impl FromSpecImpl<ParseIntError> for MyError {
    open spec fn obeys_from_spec() -> bool {
        true
    }

    open spec fn from_spec(error: ParseIntError) -> MyError {
        MyError::ParseError(error)
    }
}

/// The text in upper case, as Unicode defines it.
pub uninterp spec fn uppercase_of(text: Seq<char>) -> Seq<char>;

/// Calls `str::to_uppercase`. Trusted: the result depends on the text alone,
/// so it has a name; nothing more is claimed of it.
#[verifier::external_body]
fn to_uppercase(text: &str) -> (upper: String)
    ensures
        upper@ == uppercase_of(text@),
{
    text.to_uppercase()
}

/// The content in upper case.
pub fn process_content(content: &str) -> (processed: String)
    ensures
        processed@ == uppercase_of(content@),
{
    to_uppercase(content)
}

/// White space as Unicode lists it: the characters that trimming removes.
pub open spec fn is_whitespace(c: char) -> bool {
    let u = c as u32;
    ||| 0x09 <= u <= 0x0d
    ||| u == 0x20
    ||| u == 0x85
    ||| u == 0xa0
    ||| u == 0x1680
    ||| 0x2000 <= u <= 0x200a
    ||| u == 0x2028
    ||| u == 0x2029
    ||| u == 0x202f
    ||| u == 0x205f
    ||| u == 0x3000
}

/// The text without the white space it begins with.
pub open spec fn trimmed_start(text: Seq<char>) -> Seq<char>
    decreases text.len(),
{
    if text.len() > 0 && is_whitespace(text[0]) {
        trimmed_start(text.drop_first())
    } else {
        text
    }
}

/// The text without the white space it ends with.
pub open spec fn trimmed_end(text: Seq<char>) -> Seq<char>
    decreases text.len(),
{
    if text.len() > 0 && is_whitespace(text.last()) {
        trimmed_end(text.drop_last())
    } else {
        text
    }
}

/// The text without the white space at either end.
pub open spec fn trimmed(text: Seq<char>) -> Seq<char> {
    trimmed_end(trimmed_start(text))
}

/// Calls `str::trim`. Trusted: the result is the text with the leading and
/// trailing white space removed, white space being Unicode's `White_Space`.
#[verifier::external_body]
fn trim(text: &str) -> (inner: &str)
    ensures
        inner@ == trimmed(text@),
{
    text.trim()
}

/// Whether a character is one of `0` to `9`.
pub open spec fn is_digit(c: char) -> bool {
    0x30 <= c as u32 <= 0x39
}

/// The number that a run of digits spells, read in base ten.
pub open spec fn digits_value(digits: Seq<char>) -> int
    decreases digits.len(),
{
    if digits.len() == 0 {
        0
    } else {
        digits_value(digits.drop_last()) * 10 + (digits.last() as u32 - 0x30)
    }
}

/// The integer that a text spells: an optional `+` or `-`, then one or more
/// digits and nothing else. `None` for any other text.
pub open spec fn integer_of(text: Seq<char>) -> Option<int> {
    let signed = text.len() > 0 && (text[0] == '-' || text[0] == '+');
    let digits = if signed {
        text.drop_first()
    } else {
        text
    };
    if digits.len() == 0 || exists|i: int| 0 <= i < digits.len() && !is_digit(#[trigger] digits[i]) {
        None
    } else if signed && text[0] == '-' {
        Some(-digits_value(digits))
    } else {
        Some(digits_value(digits))
    }
}

/// The 32-bit integer that a text spells, where it spells one that fits.
pub open spec fn parsed_i32(text: Seq<char>) -> Option<i32> {
    match integer_of(text) {
        Some(value) => if i32::MIN <= value <= i32::MAX {
            Some(value as i32)
        } else {
            None
        },
        None => None,
    }
}

/// Calls `str::parse::<i32>`. Trusted: it succeeds exactly on an optional
/// sign followed by decimal digits whose value fits in 32 bits, and then
/// returns that value.
#[verifier::external_body]
fn parse_i32(text: &str) -> (parsed: Result<i32, ParseIntError>)
    ensures
        parsed matches Ok(n) ==> parsed_i32(text@) == Some(n),
        parsed is Err ==> parsed_i32(text@) is None,
{
    text.parse::<i32>()
}

/// Reads the number that a text holds, white space around it set aside.
/// A text that holds no such number gives a `ParseError`.
pub fn parse_number(content: &str) -> (number: Result<i32, MyError>)
    ensures
        parsed_i32(trimmed(content@)) matches Some(n) ==> number == Ok::<i32, MyError>(n),
        parsed_i32(trimmed(content@)) is None ==> number matches Err(MyError::ParseError(_)),
{
    match parse_i32(trim(content)) {
        Ok(n) => Ok(n),
        Err(error) => Err(MyError::from(error)),
    }
}

/// Calls `to_string` on an input-output error. Trusted to return; the text
/// is the platform's and nothing is claimed of it.
#[verifier::external_body]
fn io_error_text(error: &std::io::Error) -> String {
    error.to_string()
}

/// Calls `to_string` on a parse error. Trusted to return; nothing is
/// claimed of the text.
#[verifier::external_body]
fn parse_error_text(error: &ParseIntError) -> String {
    error.to_string()
}

impl MyError {
    /// How each kind of error begins when it is written out.
    pub open spec fn heading(&self) -> Seq<char> {
        match self {
            MyError::IoError(_) => "IO error: "@,
            MyError::ParseError(_) => "Parse error: "@,
            MyError::CustomError(_) => "Custom error: "@,
        }
    }

    /// The error written out: its heading, then the detail. For a
    /// `CustomError` the detail is its message; for the other two it is
    /// what the carried error says of itself.
    pub fn message(&self) -> (text: String)
        ensures
            self.heading().is_prefix_of(text@),
            self matches MyError::CustomError(detail) ==> text@ == self.heading() + detail@,
    {
        match self {
            MyError::IoError(error) => {
                let mut text = String::from_str("IO error: ");
                text.append(io_error_text(error).as_str());
                text
            },
            MyError::ParseError(error) => {
                let mut text = String::from_str("Parse error: ");
                text.append(parse_error_text(error).as_str());
                text
            },
            MyError::CustomError(detail) => {
                let mut text = String::from_str("Custom error: ");
                text.append(detail.as_str());
                text
            },
        }
    }
}

} // verus!
