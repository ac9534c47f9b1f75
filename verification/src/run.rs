//! Status values for glue code that repeatedly drives a network of
//! components over pipe buffers until no further progress can be made.

use vstd::prelude::*;

verus! {

/// Outcome of one driving pass over a component network.
#[derive(Copy, Clone, PartialEq, Eq, Structural, Debug)]
pub enum RunStatus {
    /// Some data was processed.
    Okay,
    /// No new input is available right now, or no component can make
    /// progress with the data already in the buffers.
    Wait,
    /// Blocked on output.
    Blocked,
    /// Execution is complete: EOF has been consumed on all the inputs of
    /// all the sink components.
    Done,
    /// The network is hung because of a misbehaving component — for
    /// example one waiting for output space that can never be freed —
    /// and running it further will not progress.
    Hung,
}

} // verus!
