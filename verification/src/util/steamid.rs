//! Persistent identities.

use vstd::prelude::*;

verus! {

/// The 64-bit form of the identity that `text` denotes in the bracketed
/// notation, such as `[U:1:22202]`; `None` where `text` is no identity in
/// that notation.
pub uninterp spec fn steam3_id64(text: Seq<char>) -> Option<u64>;

/// Calls `SteamID::from_steam3` and, where it accepts the text, converts the
/// identity into its 64-bit form with `u64::from`.
///
/// The contract only names the result: equal texts give equal identities.
#[verifier::external_body]
pub(crate) fn parse_steam3(text: &str) -> (id: Option<u64>)
    ensures
        id == steam3_id64(text@),
{
    match steamid_ng::SteamID::from_steam3(text) {
        Ok(id) => Some(u64::from(id)),
        Err(_) => None,
    }
}

} // verus!
