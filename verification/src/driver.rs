//! The outcome a frontend observes from driving the core for one frame.

use vstd::prelude::*;

verus! {

/// Whether the frontend should keep driving the core or shut down.
#[derive(Debug, Clone, Copy, PartialEq, Eq, Structural)]
pub enum NativeTickEffect {
    Continue,
    Exit,
}

} // verus!
