//! What the library refuses.

use vstd::prelude::*;

verus! {

/// Why the library refused to build something.
#[derive(Clone, Copy, Debug, PartialEq, Eq, Structural)]
pub enum PeggyError {
    /// The domain identifier does not fit the 32 bytes of a fixed string.
    InvalidPeggyId,
    /// The ABI encoder refused the call: its signature and its arguments do
    /// not go together.
    InvalidCall,
}

} // verus!
