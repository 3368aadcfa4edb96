//! Paths below the workspace, as text.

use vstd::prelude::*;

verus! {

/// The path of the entry `name` in the directory `base`. This is the name of
/// what `std::path::Path::join` gives on the platform that the library is built
/// for.
pub uninterp spec fn joined_path(base: Seq<char>, name: Seq<char>) -> Seq<char>;

/// Adjoins `name` to `base` with `std::path::Path::join`. The contract gives
/// the resulting path a name and says nothing more of it.
#[verifier::external_body]
pub(crate) fn join(base: &str, name: &str) -> (path: String)
    ensures
        path@ == joined_path(base@, name@),
{
    std::path::Path::new(base).join(name).to_string_lossy().into_owned()
}

} // verus!
