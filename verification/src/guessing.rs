//! A game of guessing a secret number between 1 and 100.
//!
//! The game picks the number; the player guesses until the guess is right,
//! and is told after each guess whether it was too small or too big. What
//! is not a number is passed over.

use crate::text::{parse_u32, trim, trimmed, unsigned_number};
use rand::Rng;
use vstd::prelude::*;

verus! {

/// What the game says of a guess.
#[derive(Clone, Copy, Debug, PartialEq, Eq, Structural)]
pub enum Verdict {
    /// The guess is below the secret number.
    TooSmall,
    /// The guess is above the secret number.
    TooBig,
    /// The guess is the secret number.
    Win,
}

/// What a line of input amounts to.
#[derive(Clone, Copy, Debug, PartialEq, Eq, Structural)]
pub enum Turn {
    /// The line holds no number: the player is asked again.
    Invalid,
    /// The line holds this guess, of which the game says this.
    Guess { guess: u32, verdict: Verdict },
}

/// What the game says of `guess` when `secret` is the secret number.
pub open spec fn verdict(guess: u32, secret: u32) -> Verdict {
    if guess < secret {
        Verdict::TooSmall
    } else if guess > secret {
        Verdict::TooBig
    } else {
        Verdict::Win
    }
}

/// What the line `line` amounts to when `secret` is the secret number.
pub open spec fn turn(line: Seq<char>, secret: u32) -> Turn {
    match unsigned_number(trimmed(line)) {
        Some(guess) => Turn::Guess { guess, verdict: verdict(guess, secret) },
        None => Turn::Invalid,
    }
}

/// `rand::Rng::gen_range` on the generator of the current thread, which
/// `rand::thread_rng` hands out. Trusted to return a number from `low` up
/// to, but not including, `high`; which one is open.
#[verifier::external_body]
fn gen_range(low: u32, high: u32) -> (n: u32)
    requires
        low < high,
    ensures
        low <= n < high,
{
    rand::thread_rng().gen_range(low, high)
}

/// Picks the secret number: one from 1 to 100, by chance.
pub fn secret_number() -> (n: u32)
    ensures
        1 <= n <= 100,
{
    gen_range(1, 101)
}

/// Reads a guess off a line of input: the number that the line holds once
/// the white space around it is taken off.
pub fn parse_guess(line: &str) -> (guess: Option<u32>)
    ensures
        guess == unsigned_number(trimmed(line@)),
{
    parse_u32(trim(line))
}

/// Holds `guess` against `secret`.
pub fn judge(guess: u32, secret: u32) -> (v: Verdict)
    ensures
        v == verdict(guess, secret),
{
    if guess < secret {
        Verdict::TooSmall
    } else if guess > secret {
        Verdict::TooBig
    } else {
        Verdict::Win
    }
}

/// Plays one line of input against `secret`.
pub fn play(line: &str, secret: u32) -> (t: Turn)
    ensures
        t == turn(line@, secret),
{
    match parse_guess(line) {
        Some(guess) => Turn::Guess { guess, verdict: judge(guess, secret) },
        None => Turn::Invalid,
    }
}

impl Verdict {
    /// The words in which the player is told.
    pub open spec fn words(self) -> Seq<char> {
        match self {
            Verdict::TooSmall => "Too small!"@,
            Verdict::TooBig => "Too big!"@,
            Verdict::Win => "You win!"@,
        }
    }

    /// The words in which the player is told.
    pub fn message(self) -> (m: &'static str)
        ensures
            m@ == self.words(),
    {
        match self {
            Verdict::TooSmall => "Too small!",
            Verdict::TooBig => "Too big!",
            Verdict::Win => "You win!",
        }
    }

    /// Whether the game is over.
    pub fn ends_game(self) -> (over: bool)
        ensures
            over == (self is Win),
    {
        match self {
            Verdict::Win => true,
            _ => false,
        }
    }
}

/// The game can be won, and in one way only: of every secret number there is
/// a guess that wins, and a guess wins exactly if it is the secret number.
pub proof fn lemma_only_the_secret_wins(guess: u32, secret: u32)
    ensures
        verdict(guess, secret) is Win <==> guess == secret,
        verdict(guess, secret) is TooSmall <==> guess < secret,
        verdict(guess, secret) is TooBig <==> guess > secret,
{
}

} // verus!
