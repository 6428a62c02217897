//! Constants: values that are named once, fixed when the program is compiled,
//! and never change afterwards.

use vstd::prelude::*;

verus! {

/// The number of seconds in three hours, written as the product it comes
/// from rather than as its value, 10800.
pub const THREE_HOURS_IN_SECONDS: u32 = 60 * 60 * 3;

} // verus!
