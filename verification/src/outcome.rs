//! How the mirroring of one repository ended.

use vstd::prelude::*;

verus! {

/// Result of a mirror operation: success, or the stage that failed. What git
/// printed is reported when the failure is seen, and is not kept here.
#[derive(Clone, Copy, Debug, PartialEq, Eq, Structural)]
pub enum MirrorResult {
    Success,
    CloneFailed,
    FetchFailed,
    RemotesError,
    PushFailed,
}

} // verus!
