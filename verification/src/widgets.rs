//! Things on a screen: what can be drawn, and what can also be clicked.

use vstd::prelude::*;
use vstd::string::*;

verus! {

/// A position on the screen.
#[derive(Debug, PartialEq, Eq, Clone, Copy, Structural)]
pub struct Point {
    pub x: i32,
    pub y: i32,
}

/// Something that can be drawn.
pub trait Drawable {
    /// The line that drawing produces.
    spec fn drawing(&self) -> Seq<char>;

    /// Draws the thing, as a line of text.
    fn draw(&self) -> (line: String)
        ensures
            line@ == self.drawing(),
    ;
}

/// Something that can be drawn and also clicked.
pub trait Clickable: Drawable {
    /// The line that a click produces.
    spec fn clicking(&self) -> Seq<char>;

    /// Clicks the thing, as a line of text.
    fn click(&self) -> (line: String)
        ensures
            line@ == self.clicking(),
    ;
}

/// A button with a label.
pub struct Button {
    pub label: String,
}

impl Drawable for Button {
    /// `Drawing button: label`.
    open spec fn drawing(&self) -> Seq<char> {
        "Drawing button: "@ + self.label@
    }

    fn draw(&self) -> (line: String) {
        let mut line = String::from_str("Drawing button: ");
        line.append(self.label.as_str());
        line
    }
}

impl Clickable for Button {
    /// `Clicking button: label`.
    open spec fn clicking(&self) -> Seq<char> {
        "Clicking button: "@ + self.label@
    }

    fn click(&self) -> (line: String) {
        let mut line = String::from_str("Clicking button: ");
        line.append(self.label.as_str());
        line
    }
}

} // verus!
