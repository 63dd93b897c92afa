//! Decisions by `match`: coin values and an optional increment.

pub use crate::enums::Message;
use vstd::prelude::*;

verus! {

/// A state of the union, as minted on a quarter.
#[derive(Debug)]
pub enum UsState {
    Alabama,
    Alaska,
}

/// A coin; a quarter carries the state it commemorates.
#[derive(Debug)]
pub enum Coin {
    Penny,
    Nickel,
    Dime,
    Quarter(UsState),
}

/// What a coin is worth, in cents.
pub open spec fn cents_of(coin: Coin) -> u8 {
    match coin {
        Coin::Penny => 1,
        Coin::Nickel => 5,
        Coin::Dime => 10,
        Coin::Quarter(_) => 25,
    }
}

/// A condition that always holds.
pub fn condition() -> (holds: bool)
    ensures
        holds,
{
    true
}

/// Twice a number.
pub fn calculate_value(x: i32) -> (value: i32)
    requires
        i32::MIN <= 2 * x <= i32::MAX,
    ensures
        value == 2 * x,
{
    x * 2
}

/// The value of a coin in cents. Which state a quarter shows does not
/// change its value.
pub fn value_in_cents(coin: Coin) -> (cents: u8)
    ensures
        cents == cents_of(coin),
{
    match coin {
        Coin::Penny => 1,
        Coin::Nickel => 5,
        Coin::Dime => 10,
        Coin::Quarter(_) => 25,
    }
}

/// Adds one to the number inside, if there is one.
pub fn plus_one(x: Option<i32>) -> (next: Option<i32>)
    requires
        x matches Some(i) ==> i < i32::MAX,
    ensures
        x is None ==> next is None,
        x matches Some(i) ==> next == Some((i + 1) as i32),
{
    match x {
        None => None,
        Some(i) => Some(i + 1),
    }
}

} // verus!
