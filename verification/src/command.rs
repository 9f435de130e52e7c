//! What the plans for running a program have in common.

use vstd::prelude::*;

verus! {

/// Where a stream of a spawned program goes.
#[derive(Clone, Copy, Debug, PartialEq, Eq, Structural)]
pub enum StreamTarget {
    /// Into a pipe that the host reads.
    Piped,
    /// To the host's own stream.
    Inherited,
    /// Nowhere.
    Discarded,
}

/// The texts of a sequence of strings.
pub open spec fn texts(strings: Seq<String>) -> Seq<Seq<char>> {
    strings.map_values(|s: String| s@)
}

} // verus!
