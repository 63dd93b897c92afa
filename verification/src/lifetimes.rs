//! Borrowed text that outlives the call that picked it.

pub use crate::ownership::first_word;
use vstd::prelude::*;
use vstd::string::*;

verus! {

/// A passage lifted from a longer text, which it borrows from.
#[derive(Debug)]
pub struct ImportantExcerpt<'a> {
    pub part: &'a str,
}

/// The text that `longest` picks: the first where it has more bytes than
/// the second, else the second.
pub open spec fn longer_of<'a>(x: &'a str, y: &'a str) -> &'a str {
    if x.spec_bytes().len() > y.spec_bytes().len() {
        x
    } else {
        y
    }
}

/// The longer of two texts, by bytes; the second where they are equally long.
pub fn longest<'a>(x: &'a str, y: &'a str) -> (pick: &'a str)
    ensures
        pick == longer_of(x, y),
{
    if x.as_bytes().len() > y.as_bytes().len() {
        x
    } else {
        y
    }
}

/// The longer of two texts, where the first may be borrowed for longer
/// than the second.
pub fn longest_with_default<'a: 'b, 'b>(x: &'a str, y: &'b str) -> (pick: &'b str)
    ensures
        pick == longer_of(x, y),
{
    if x.as_bytes().len() > y.as_bytes().len() {
        x
    } else {
        y
    }
}

/// An owned `"hello"`: the caller gets the text itself, not a borrow of
/// something that is gone.
pub fn no_dangle() -> (s: String)
    ensures
        s@ == "hello"@,
{
    String::from_str("hello")
}

} // verus!
