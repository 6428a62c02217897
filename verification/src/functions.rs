//! Functions: without parameters, with parameters, and with a result.
//!
//! The functions that announce something build the line of text; writing it
//! to the console is left to the caller.

use vstd::prelude::*;
use vstd::string::StringExecFns;
use crate::text::{decimal, decimal_string};

verus! {

/// The line announced by a function that takes no parameters.
pub fn another_function_message() -> (message: &'static str)
    ensures
        message@ == "Another function."@,
{
    "Another function."
}

/// The line that reports the value of one integer parameter: a fixed label
/// followed by the decimal text of `x`.
pub fn value_message(x: i32) -> (message: String)
    ensures
        message@ == "The value of x is: "@ + decimal(x as int),
{
    let mut message = String::from_str("The value of x is: ");
    message.append(decimal_string(x).as_str());
    message
}

/// The line that reports a measurement: a fixed label, the decimal text of
/// `value`, and directly after it the character that names the unit.
pub fn measurement_message(value: i32, unit_label: char) -> (message: String)
    ensures
        message@ == ("The measurement is: "@ + decimal(value as int)).push(unit_label),
{
    let mut message = String::from_str("The measurement is: ");
    message.append(decimal_string(value).as_str());
    message.push(unit_label);
    message
}

/// Returns the constant five: the body is a single expression, and the value
/// of that expression is the value of the call.
pub fn five() -> (result: i32)
    ensures
        result == 5,
{
    5
}

/// Returns the successor of `x`.
///
/// `i32::MAX` has no successor in `i32`, so it is excluded.
pub fn plus_one(x: i32) -> (result: i32)
    requires
        x < i32::MAX,
    ensures
        result == x + 1,
{
    x + 1
}

} // verus!
