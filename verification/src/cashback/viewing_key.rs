//! Viewing keys: caller-held secrets that gate read access to private
//! balance and history data.
//!
//! Deriving a fresh key from the stored seed, caller entropy and block
//! entropy is the host's cryptographic collaborator's job; this module only
//! stores keys and compares them.  A query against an account with no stored
//! key still performs a comparison, against a fixed-size dummy key, so that
//! the two failure cases cannot be told apart.

use vstd::prelude::*;

verus! {

/// Length, in characters, of the dummy key compared against when an account
/// has no stored key.
pub const VIEWING_KEY_SIZE: usize = 32;

pub struct ViewingKey(pub String);

impl ViewingKey {
    /// Whether this key matches a stored key.
    pub fn check_viewing_key(&self, stored: &String) -> (r: bool)
        ensures
            r == (self.0@ == stored@),
    {
        self.0.eq(stored)
    }

}

/// The fixed-size key an authentication check runs against when the queried
/// account has no stored key.
pub fn dummy_key() -> (r: String)
    ensures
        r@.len() == VIEWING_KEY_SIZE,
{
    let s: &str = "00000000000000000000000000000000";
    proof {
        reveal_strlit("00000000000000000000000000000000");
    }
    String::from_str(s)
}

} // verus!
