//! Coins and what they are worth, and other things told apart by `match`.

use vstd::prelude::*;

verus! {

/// A state whose quarter was minted.
#[derive(Clone, Copy, Debug, PartialEq, Eq, Structural)]
pub enum UsState {
    Alabama,
    Alaska,
}

/// A coin; a quarter names the state on its back.
#[derive(Clone, Copy, Debug, PartialEq, Eq, Structural)]
pub enum Coin {
    Penny,
    Nickel,
    Dime,
    Quarter(UsState),
}

/// What a coin is worth, in cents.
pub open spec fn cents(coin: Coin) -> int {
    match coin {
        Coin::Penny => 1,
        Coin::Nickel => 5,
        Coin::Dime => 10,
        Coin::Quarter(_) => 25,
    }
}

/// What `coin` is worth, in cents.
pub fn value_in_cents(coin: Coin) -> (value: u8)
    ensures
        value == cents(coin),
{
    match coin {
        Coin::Penny => 1,
        Coin::Nickel => 5,
        Coin::Dime => 10,
        Coin::Quarter(_) => 25,
    }
}

/// One more than the number in `x`, where there is one.
pub fn plus_one(x: Option<i32>) -> (y: Option<i32>)
    requires
        x matches Some(i) ==> i < i32::MAX,
    ensures
        y == (match x {
            None => None::<i32>,
            Some(i) => Some((i + 1) as i32),
        }),
{
    match x {
        None => None,
        Some(i) => Some(i + 1),
    }
}

/// The player gets a fancy hat.
pub fn add_fancy_hat() {
}

/// The player loses the fancy hat.
pub fn remove_fancy_hat() {
}

/// The player moves on by `num_spaces`.
pub fn move_player(num_spaces: u8) {
}

/// Plays a roll of nine. A three gives a fancy hat, a seven takes it away,
/// any other number moves the player by that many spaces.
pub fn main3() {
    let dice_roll: u8 = 9;
    match dice_roll {
        3 => add_fancy_hat(),
        7 => remove_fancy_hat(),
        other => move_player(other),
    }
}

} // verus!
