//! What comes from outside of the program: readings of the system clock, and draws of chance.
//!
//! Both predicates are closed. What they say of a value is little, since a clock can show nearly
//! anything, and chance can give anything; what counts is where a value comes from. Outside of this
//! module nothing follows that an instant is a reading but from the functions that read the clock,
//! and nothing that bytes are a draw but from the function that draws them.

use vstd::prelude::*;

use crate::timestamp;

verus! {

/// Whether an instant, in nanoseconds since the Unix epoch, is a reading of the system clock, which
/// counts its seconds in 64 bits.
pub closed spec fn is_clock_reading(nanos: int) -> bool {
    -u64::MAX <= timestamp::floor_seconds(nanos) <= u64::MAX
}

/// Whether the system clock was read in a second, counted from the Unix epoch.
pub open spec fn is_clock_second(seconds: int) -> bool {
    exists|nanos: int| #[trigger]
        is_clock_reading(nanos) && timestamp::floor_seconds(nanos) == seconds
}

/// Whether bytes are, all of them, the outcome of one draw of chance.
pub closed spec fn is_draw(bytes: Seq<u8>) -> bool {
    bytes.len() <= usize::MAX
}

} // verus!
