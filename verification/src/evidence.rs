//! What a successful check hands back.

use vstd::prelude::*;

verus! {

/// A witness that a check succeeded. It carries nothing: that it exists is
/// all it says.
#[derive(Debug, Clone, Copy, PartialEq, Eq, Structural)]
pub struct Evidence {}

impl Evidence {
    pub fn new() -> (e: Evidence) {
        Evidence {  }
    }
}

} // verus!
