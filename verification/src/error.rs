//! The failures that fetching and tree reconstruction report.

use vstd::prelude::*;

verus! {

/// Every failure is a value handed to the caller, who decides whether to
/// retry, skip or stop.
#[derive(Debug, Clone, Copy, PartialEq, Eq, Structural)]
pub enum SceneError {
    /// The archive holds no entry of the wanted name.
    NotFound,
    /// The request did not reach the service or no answer came back.
    Transport,
    /// The service answered with the given status, which is no success.
    HttpStatus(u16),
    /// The bytes are there but cannot be decompressed or do not have the
    /// expected shape.
    DecodeFailure,
    /// No loaded record is without a parent index.
    NoRoot,
    /// More than one loaded record is without a parent index.
    MultipleRoots,
    /// The node with the given global index is referred to but not loaded
    /// yet: fetch its page first.
    PendingDependency(usize),
}

} // verus!
