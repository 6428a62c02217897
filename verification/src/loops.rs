//! Loops: `loop` with `break`, nested loops with labels, `while`, `for` over
//! a collection, and a range walked in reverse.
//!
//! A loop that announces something at every step collects its lines in the
//! order in which they are announced; writing them to the console is left to
//! the caller.

use vstd::prelude::*;
use vstd::string::StringExecFns;
use crate::text::{decimal, decimal_digits, decimal_string};

verus! {

/// The texts of `lines`, in order.
pub open spec fn texts(lines: Seq<String>) -> Seq<Seq<char>> {
    Seq::new(lines.len(), |i: int| lines[i]@)
}

/// A count-down of `steps` lines that starts at `first` and goes down by one
/// from line to line, each number followed by an exclamation mark, and after
/// them the closing line.
pub open spec fn countdown(first: int, steps: nat) -> Seq<Seq<char>> {
    Seq::new(
        steps + 1,
        |i: int|
            if i < steps {
                decimal(first - i).push('!')
            } else {
                "LIFTOFF!!!"@
            },
    )
}

/// One line for each value, in order: a fixed label and the value's decimal
/// text.
pub open spec fn value_report(values: Seq<i32>) -> Seq<Seq<char>> {
    Seq::new(values.len(), |i: int| "the value is: "@ + decimal(values[i] as int))
}

/// Counts up from zero in steps of one, leaves the loop when the counter
/// reaches `target`, and yields twice the counter as the value of the loop.
///
/// The counter is incremented before it is compared, so a `target` below one
/// is never met; and twice the target has to fit in `i32`.
pub fn doubled_count(target: i32) -> (result: i32)
    requires
        1 <= target,
        2 * target <= i32::MAX,
    ensures
        result == 2 * target,
{
    let mut counter: i32 = 0;
    let mut result: i32 = 0;
    loop
        invariant_except_break
            0 <= counter < target,
        invariant
            2 * target <= i32::MAX,
        ensures
            result == 2 * target,
        decreases target - counter,
    {
        counter += 1;
        if counter == target {
            result = counter * 2;
            break;
        }
    }
    result
}

/// A number followed by an exclamation mark.
fn exclaimed(number: i32) -> (line: String)
    ensures
        line@ == decimal(number as int).push('!'),
{
    let mut line = decimal_string(number);
    line.push('!');
    line
}

/// Counts down from `start` to one with a `while` loop that runs until the
/// number is zero, then lifts off.
///
/// The loop only ever steps down, so it meets zero only from a `start` that
/// is not negative.
pub fn countdown_lines(start: i32) -> (lines: Vec<String>)
    requires
        0 <= start,
    ensures
        texts(lines@) == countdown(start as int, start as nat),
{
    let mut lines: Vec<String> = Vec::new();
    let mut number: i32 = start;
    while number != 0
        invariant
            0 <= number <= start,
            lines@.len() == start - number,
            forall|i: int|
                0 <= i < lines@.len() ==> (#[trigger] lines@[i])@ == decimal(start - i).push('!'),
        decreases number,
    {
        lines.push(exclaimed(number));
        number -= 1;
    }
    lines.push(String::from_str("LIFTOFF!!!"));
    lines
}

/// The line that reports one value of a collection.
fn value_line(value: i32) -> (line: String)
    ensures
        line@ == "the value is: "@ + decimal(value as int),
{
    let mut line = String::from_str("the value is: ");
    line.append(decimal_string(value).as_str());
    line
}

/// Reports every value of `values`, first to last, by stepping an index from
/// zero up to the length with a `while` loop.
pub fn indexed_value_lines(values: &[i32]) -> (lines: Vec<String>)
    ensures
        texts(lines@) == value_report(values@),
{
    let mut lines: Vec<String> = Vec::new();
    let mut index: usize = 0;
    while index < values.len()
        invariant
            index <= values@.len(),
            lines@.len() == index,
            forall|i: int|
                0 <= i < lines@.len() ==> (#[trigger] lines@[i])@ == "the value is: "@ + decimal(
                    values@[i] as int,
                ),
        decreases values@.len() - index,
    {
        lines.push(value_line(values[index]));
        index += 1;
    }
    lines
}

/// Reports every value of `values`, first to last, with a `for` loop over the
/// collection itself: there is no index to keep within bounds.
pub fn value_lines(values: &[i32]) -> (lines: Vec<String>)
    ensures
        texts(lines@) == value_report(values@),
{
    let mut lines: Vec<String> = Vec::new();
    for element in walk: values.iter()
        invariant
            lines@.len() == walk.index(),
            walk.seq().len() == values@.len(),
            forall|i: int|
                0 <= i < lines@.len() ==> (#[trigger] lines@[i])@ == "the value is: "@ + decimal(
                    values@[i] as int,
                ),
    {
        lines.push(value_line(*element));
    }
    lines
}

/// Walks the range from `low` up to, but not including, `high` in reverse:
/// the first number announced is `high - 1`, the last is `low`. Then lifts
/// off. An empty range announces no number.
pub fn reversed_range_lines(low: i32, high: i32) -> (lines: Vec<String>)
    ensures
        low < high ==> texts(lines@) == countdown(high - 1, (high - low) as nat),
        low >= high ==> texts(lines@) == seq!["LIFTOFF!!!"@],
{
    let mut lines: Vec<String> = Vec::new();
    let mut number: i32 = high;
    while low < number
        invariant
            low < high ==> low <= number <= high,
            low >= high ==> number == high,
            lines@.len() == high - number,
            forall|i: int|
                0 <= i < lines@.len() ==> (#[trigger] lines@[i])@ == decimal(high - 1 - i).push(
                    '!',
                ),
        decreases number - low,
    {
        number -= 1;
        lines.push(exclaimed(number));
    }
    lines.push(String::from_str("LIFTOFF!!!"));
    lines
}

/// The lines announced by the two nested loops of `labeled_loop_lines`.
pub open spec fn labeled_loop_report() -> Seq<Seq<char>> {
    seq![
        "count = 0"@,
        "remaining = 10"@,
        "remaining = 9"@,
        "count = 1"@,
        "remaining = 10"@,
        "remaining = 9"@,
        "count = 2"@,
        "remaining = 10"@,
    ]
}

/// The line that announces the outer loop's counter.
fn count_line(count: i32) -> (line: String)
    ensures
        line@ == "count = "@ + decimal(count as int),
{
    let mut line = String::from_str("count = ");
    line.append(decimal_string(count).as_str());
    line
}

/// The line that announces the inner loop's counter.
fn remaining_line(remaining: i32) -> (line: String)
    ensures
        line@ == "remaining = "@ + decimal(remaining as int),
{
    let mut line = String::from_str("remaining = ");
    line.append(decimal_string(remaining).as_str());
    line
}

/// What the lines built by `count_line` and `remaining_line` read for the
/// numbers that the nested loops reach.
proof fn lemma_labeled_loop_texts()
    ensures
        "count = "@ + decimal(0) == "count = 0"@,
        "count = "@ + decimal(1) == "count = 1"@,
        "count = "@ + decimal(2) == "count = 2"@,
        "remaining = "@ + decimal(10) == "remaining = 10"@,
        "remaining = "@ + decimal(9) == "remaining = 9"@,
{
    reveal_with_fuel(decimal_digits, 2);
    reveal_strlit("count = ");
    reveal_strlit("count = 0");
    reveal_strlit("count = 1");
    reveal_strlit("count = 2");
    reveal_strlit("remaining = ");
    reveal_strlit("remaining = 10");
    reveal_strlit("remaining = 9");
}

/// Two nested loops, the outer one labeled.
///
/// The outer loop announces its counter, which starts at zero. The inner loop
/// then counts down from ten and announces each number; at nine it ends
/// itself with a plain `break`, and the outer counter goes up by one. Once
/// the outer counter is two, the inner loop ends both loops through the
/// label, right after its first announcement.
pub fn labeled_loop_lines() -> (lines: Vec<String>)
    ensures
        texts(lines@) == labeled_loop_report(),
{
    let ghost report = labeled_loop_report();
    let mut lines: Vec<String> = Vec::new();
    let mut count: i32 = 0;
    'counting_up: loop
        invariant_except_break
            0 <= count <= 2,
            texts(lines@) == report.take(3 * count),
        invariant
            report == labeled_loop_report(),
        ensures
            texts(lines@) == report,
        decreases 2 - count,
    {
        let ghost announced = lines@;
        lines.push(count_line(count));
        let mut remaining: i32 = 10;
        proof {
            lemma_labeled_loop_texts();
            assert(announced.len() == texts(announced).len() == 3 * count);
        }
        loop
            invariant_except_break
                9 <= remaining <= 10,
                count == 2 ==> remaining == 10,
                texts(lines@) == report.take(3 * count + 11 - remaining),
            invariant
                0 <= count <= 2,
                report == labeled_loop_report(),
            ensures
                count < 2,
                texts(lines@) == report.take(3 * count + 3),
            decreases remaining,
        {
            let ghost announced = lines@;
            lines.push(remaining_line(remaining));
            proof {
                lemma_labeled_loop_texts();
                assert(announced.len() == texts(announced).len() == 3 * count + 11 - remaining);
            }
            if remaining == 9 {
                break;
            }
            if count == 2 {
                assert(report.take(8) =~= report);
                break 'counting_up;
            }
            remaining -= 1;
        }
        count += 1;
    }
    lines
}

} // verus!
