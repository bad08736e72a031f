//! The iteration counter of the console heartbeat loop.
use vstd::prelude::*;

verus! {

/// The loop counter after one more iteration: it counts up and wraps from
/// 65535 to 0.
pub fn next_loop_count(count: u16) -> (next: u16)
    ensures
        next == (count + 1) % 65536,
{
    count.wrapping_add(1)
}

} // verus!
