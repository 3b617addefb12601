//! Document identifiers: fresh ids come from bson's ObjectId, format checks
//! are verified here.

use vstd::prelude::*;
use crate::strutil::{is_hex_char, is_hex_char_exec};

verus! {

/// Relies on bson's ObjectId::new and to_hex (through mongodb): a fresh
/// 12-byte identifier rendered as 24 hex characters. Nothing is promised of
/// the value beyond its length.
#[verifier::external_body]
pub fn new_object_id_hex() -> (r: String)
    ensures
        r@.len() == 24,
{
    mongodb::bson::oid::ObjectId::new().to_hex()
}

/// The shape of a document id: exactly 24 hex characters.
pub open spec fn spec_is_object_id_hex(s: Seq<char>) -> bool {
    s.len() == 24 && (forall|i: int| 0 <= i < s.len() ==> is_hex_char(s[i]))
}

/// Whether `s` has the 24-hex-character shape of a document id.
pub fn is_object_id_hex(s: &str) -> (r: bool)
    ensures
        r == spec_is_object_id_hex(s@),
{
    let len = s.unicode_len();
    if len != 24 {
        return false;
    }
    let mut i: usize = 0;
    while i < 24
        invariant
            s@.len() == 24,
            0 <= i <= 24,
            forall|j: int| 0 <= j < i ==> is_hex_char(s@[j]),
        decreases 24 - i,
    {
        if !is_hex_char_exec(s.get_char(i)) {
            return false;
        }
        i += 1;
    }
    true
}

} // verus!
