//! Branches and loops.

use vstd::prelude::*;

verus! {

/// What is said of a number: the first of 4, 3 and 2 that divides it, or
/// that none of them does.
pub open spec fn divisor_found(number: int) -> Seq<char> {
    if number % 4 == 0 {
        "Number is divisible by 4"@
    } else if number % 3 == 0 {
        "Number is divisible by 3"@
    } else if number % 2 == 0 {
        "Number is divisible by 2"@
    } else {
        "Number is not divisible by 4, 3, or 2"@
    }
}

/// Says which of 4, 3 and 2 is the first to divide `number`.
pub fn if_else(number: i32) -> (said: &'static str)
    ensures
        said@ == divisor_found(number as int),
{
    if number % 4 == 0 {
        "Number is divisible by 4"
    } else if number % 3 == 0 {
        "Number is divisible by 3"
    } else if number % 2 == 0 {
        "Number is divisible by 2"
    } else {
        "Number is not divisible by 4, 3, or 2"
    }
}

/// Five where the condition holds, six where it does not.
pub fn if_let(condition: bool) -> (number: i32)
    ensures
        number == if condition {
            5int
        } else {
            6int
        },
{
    let number = if condition {
        5
    } else {
        6
    };
    number
}

/// Counts to ten and gives back twice that.
pub fn return_value_from_loop() -> (result: i32)
    ensures
        result == 20,
{
    let mut counter: i32 = 0;

    let result = loop
        invariant_except_break
            0 <= counter < 10,
        ensures
            counter == 10,
        decreases 10 - counter,
    {
        counter += 1;

        if counter == 10 {
            break ;
        }
    };

    counter * 2
}

/// The numbers called out on the way down from `from` to 1.
pub open spec fn countdown_from(from: nat) -> Seq<u32>
    decreases from,
{
    if from == 0 {
        Seq::empty()
    } else {
        seq![from as u32] + countdown_from((from - 1) as nat)
    }
}

/// Counts down from 3: the numbers called out before liftoff.
pub fn while_loop() -> (called: Vec<u32>)
    ensures
        called@ == seq![3u32, 2u32, 1u32],
{
    let mut called: Vec<u32> = Vec::new();
    let mut number: u32 = 3;

    while number != 0
        invariant
            number <= 3,
            called@ + countdown_from(number as nat) == countdown_from(3),
        decreases number,
    {
        proof {
            assert(called@.push(number) + countdown_from((number - 1) as nat) =~= called@
                + countdown_from(number as nat));
        }
        called.push(number);
        number -= 1;
    }
    proof {
        reveal_with_fuel(countdown_from, 4);
        assert(called@ =~= called@ + countdown_from(0));
        assert(countdown_from(3) =~= seq![3u32, 2u32, 1u32]);
    }
    called
}

} // verus!
