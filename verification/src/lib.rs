//! Verified core of a terminal front end: a frame-driven scheduler for
//! recurring callbacks, together with the plain option, theme and log-level
//! values that a terminal is configured with.

use vstd::prelude::*;

pub mod color;
pub mod log_level;
pub mod options;
pub mod protocol;
pub mod scheduler;
pub mod theme;
pub mod types;

verus! {

/// Converts an index that follows the host convention, where `-1` stands for
/// a missing element, into an `Option`.
///
/// Indices below `-1` are never handed out by the host and are not accepted.
pub fn idx_to_opt(idx: i32) -> (found: Option<u32>)
    requires
        idx >= -1,
    ensures
        found == (if idx == -1 {
            None
        } else {
            Some(idx as u32)
        }),
{
    if idx == -1 {
        None
    } else {
        Some(idx as u32)
    }
}

} // verus!
