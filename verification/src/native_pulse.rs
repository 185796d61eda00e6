//! The pulse that the pet's own native watcher writes to `~/.nixie/native.json`
//! (for instance when the user types).
use vstd::prelude::*;

verus! {

#[derive(Debug, Clone, Default)]
pub struct NativePulse {
    /// Epoch ms of the pulse; 0 when there is none.
    pub ts: u64,
    pub kind: String,
}

} // verus!
