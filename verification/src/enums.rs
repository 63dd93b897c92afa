//! Values that come in several shapes, and what is said when one is called.

use vstd::prelude::*;
use vstd::string::*;

verus! {

/// An address on the network, kept as text.
#[derive(Debug)]
pub enum IpAddr {
    V4(String),
    V6(String),
}

/// The system a device runs.
#[allow(non_camel_case_types)]
#[derive(Debug)]
pub enum OperatingSystem {
    Windows,
    MacOS,
    Linux,
    iOS,
    Android,
}

/// A device; `storage` is in gigabytes.
#[derive(Debug)]
pub enum Device {
    Laptop { brand: String, model: String },
    Smartphone { os: OperatingSystem, storage: u32 },
}

/// A message with one of four shapes.
#[derive(Debug)]
pub enum Message {
    Quit,
    Move { x: i32, y: i32 },
    Write(String),
    ChangeColor(i32, i32, i32),
}

/// The ten digits, in order.
pub open spec fn digit_chars() -> Seq<char> {
    seq!['0', '1', '2', '3', '4', '5', '6', '7', '8', '9']
}

/// A natural number in decimal, without leading zeros.
pub open spec fn digits_of(n: nat) -> Seq<char>
    decreases n,
{
    if n < 10 {
        seq![digit_chars()[n as int]]
    } else {
        digits_of(n / 10).push(digit_chars()[(n % 10) as int])
    }
}

/// An integer in decimal, with `-` in front where it is negative.
pub open spec fn decimal_of(n: int) -> Seq<char> {
    if n < 0 {
        seq!['-'] + digits_of((-n) as nat)
    } else {
        digits_of(n as nat)
    }
}

/// Calls `i32::to_string`. Trusted: the text is the number in decimal, as
/// the standard library's `Display` for integers writes it, which is what
/// `decimal_of` spells out.
#[verifier::external_body]
fn decimal(n: i32) -> (text: String)
    ensures
        text@ == decimal_of(n as int),
{
    n.to_string()
}

/// What calling a message says.
pub open spec fn call_text(message: Message) -> Seq<char> {
    match message {
        Message::Quit => "Message::Quit called"@,
        Message::Move { x, y } => "Message::Move called with x="@ + decimal_of(x as int) + ", y="@
            + decimal_of(y as int),
        Message::Write(text) => "Message::Write called with text="@ + text@,
        Message::ChangeColor(r, g, b) => "Message::ChangeColor called with r="@ + decimal_of(
            r as int,
        ) + ", g="@ + decimal_of(g as int) + ", b="@ + decimal_of(b as int),
    }
}

impl Message {
    /// The line that reports this message, with what it carries.
    pub fn call(&self) -> (line: String)
        ensures
            line@ == call_text(*self),
    {
        match self {
            Message::Quit => String::from_str("Message::Quit called"),
            Message::Move { x, y } => {
                let mut line = String::from_str("Message::Move called with x=");
                line.append(decimal(*x).as_str());
                line.append(", y=");
                line.append(decimal(*y).as_str());
                line
            },
            Message::Write(text) => {
                let mut line = String::from_str("Message::Write called with text=");
                line.append(text.as_str());
                line
            },
            Message::ChangeColor(r, g, b) => {
                let mut line = String::from_str("Message::ChangeColor called with r=");
                line.append(decimal(*r).as_str());
                line.append(", g=");
                line.append(decimal(*g).as_str());
                line.append(", b=");
                line.append(decimal(*b).as_str());
                line
            },
        }
    }
}

} // verus!
