use vstd::prelude::*;

verus! {

/// Whether retrying work that failed with an error may succeed.
#[derive(Debug, Clone, Copy, PartialEq, Eq, Structural)]
pub enum Recoverable {
    /// The error may pass; retrying can help.
    Transient,
    /// The error will recur; retrying cannot help.
    Persistent,
}

} // verus!
