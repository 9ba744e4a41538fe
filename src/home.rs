//! The operating system's notion of the current user's home directory.
use vstd::prelude::*;

verus! {

/// Relies on dirs::home_dir for the home directory of the current user, as
/// the bytes of its platform encoding. What it reports depends on the
/// environment and the user database, so nothing is stated of the result.
#[verifier::external_body]
pub(crate) fn os_home_dir() -> (r: Option<Vec<u8>>) {
    dirs::home_dir().map(|p| p.into_os_string().into_encoded_bytes())
}

} // verus!
