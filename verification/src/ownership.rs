//! Text that is handed over, lent out, or changed in place.

use crate::scan::{position_of, text_before};
use vstd::prelude::*;
use vstd::string::*;
use vstd::utf8::*;

verus! {

/// The first word of a text: what stands before its first space, or all of
/// it where it has none.
pub open spec fn first_word_of(text: Seq<char>) -> Seq<char> {
    text.take(position_of(text, ' ', 0))
}

/// Appends `", world!"` to the text.
pub fn change(s: &mut String)
    ensures
        final(s)@ == old(s)@ + ", world!"@,
{
    s.append(", world!");
}

/// The text up to its first space, or all of it where it has none.
pub fn first_word(s: &str) -> (word: &str)
    ensures
        word@ == first_word_of(s@),
{
    text_before(s, 0x20)
}

/// Makes a fresh `"hello"` and hands it to the caller.
pub fn gives_ownership() -> (s: String)
    ensures
        s@ == "hello"@,
{
    String::from_str("hello")
}

/// Hands the text back together with its length in bytes.
pub fn calculate_length(s: String) -> (pair: (String, usize))
    ensures
        pair.0 == s,
        pair.1 == encode_utf8(s@).len(),
{
    let length = s.as_str().as_bytes().len();
    (s, length)
}

/// The text with `"Processed: "` put in front.
pub fn process_text(text: &str) -> (result: String)
    ensures
        result@ == "Processed: "@ + text@,
{
    let mut result = String::from_str("Processed: ");
    result.append(text);
    result
}

} // verus!
