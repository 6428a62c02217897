//! Branching: `if` as a statement, chains of `else if`, and `if` as an
//! expression that yields a value.

use vstd::prelude::*;

verus! {

/// Reports whether `number` is below five.
pub fn condition_message(number: i32) -> (message: &'static str)
    ensures
        number < 5 ==> message@ == "condition was true"@,
        number >= 5 ==> message@ == "condition was false"@,
{
    if number < 5 {
        "condition was true"
    } else {
        "condition was false"
    }
}

/// Names the first of 4, 3 and 2 that divides `number`. Only the first
/// condition that holds is reported: for 12 the answer is 4, though 3 and 2
/// divide it too.
pub fn divisibility_message(number: i32) -> (message: &'static str)
    ensures
        number % 4 == 0 ==> message@ == "divisible by 4"@,
        number % 4 != 0 && number % 3 == 0 ==> message@ == "divisible by 3"@,
        number % 4 != 0 && number % 3 != 0 && number % 2 == 0 ==> message@ == "divisible by 2"@,
        number % 4 != 0 && number % 3 != 0 && number % 2 != 0 ==> message@
            == "not divisible by 4, 3, or 2"@,
{
    if number % 4 == 0 {
        "divisible by 4"
    } else if number % 3 == 0 {
        "divisible by 3"
    } else if number % 2 == 0 {
        "divisible by 2"
    } else {
        "not divisible by 4, 3, or 2"
    }
}

/// An `if` used as an expression: both arms have the same type, and the arm
/// that is taken gives the value.
pub fn conditional_number(condition: bool) -> (number: i32)
    ensures
        condition ==> number == 5,
        !condition ==> number == 6,
{
    if condition {
        5
    } else {
        6
    }
}

} // verus!
