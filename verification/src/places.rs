//! Well-known per-user directories.
use vstd::prelude::*;

verus! {

/// The user's data directory (`$XDG_DATA_HOME` where it is absolute, else
/// `.local/share` under the home directory). Calls `dirs::data_dir`; which
/// directory depends on the environment, so only that it is not empty text
/// is stated (an absolute path, or a path ending in `.local/share`).
#[verifier::external_body]
pub(crate) fn data_dir() -> (res: Option<String>)
    ensures
        res matches Some(d) ==> d@.len() > 0,
{
    dirs::data_dir().map(|d| d.to_string_lossy().to_string())
}

/// The user's local data directory, the data directory on Linux. Calls
/// `dirs::data_local_dir`; which directory depends on the environment, so
/// only that it is not empty text is stated.
#[verifier::external_body]
pub(crate) fn data_local_dir() -> (res: Option<String>)
    ensures
        res matches Some(d) ==> d@.len() > 0,
{
    dirs::data_local_dir().map(|d| d.to_string_lossy().to_string())
}

/// The user's home directory. Calls `dirs::home_dir`; the answer depends on
/// the environment, so nothing is stated of it.
#[verifier::external_body]
pub(crate) fn home_dir() -> Option<String> {
    dirs::home_dir().map(|d| d.to_string_lossy().to_string())
}

} // verus!
