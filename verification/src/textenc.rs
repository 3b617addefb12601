//! Text encodings taken from outside crates: Unicode lowercasing and URL
//! percent-encoding.

use vstd::prelude::*;
use crate::strutil::{is_ascii_seq, ascii_lower_char, is_url_unreserved};

verus! {

/// The Unicode lowercase form of `s`, as str::to_lowercase computes it: a
/// function of the characters alone.
pub uninterp spec fn lower_of(s: Seq<char>) -> Seq<char>;

/// Relies on str::to_lowercase: the result depends on the characters alone;
/// ASCII characters are mapped one to one through their ASCII lowercase form,
/// and an empty string stays empty.
#[verifier::external_body]
pub fn lowercase(s: &str) -> (r: String)
    ensures
        r@ == lower_of(s@),
        s@.len() == 0 ==> r@.len() == 0,
        is_ascii_seq(s@) ==> r@.len() == s@.len() && (forall|i: int|
            0 <= i < s@.len() ==> r@[i] == ascii_lower_char(s@[i])),
{
    s.to_lowercase()
}

/// The percent-encoded form of `s`, as urlencoding::encode computes it: a
/// function of the characters alone.
pub uninterp spec fn url_encoded_of(s: Seq<char>) -> Seq<char>;

/// Relies on urlencoding::encode: percent-encodes every byte except ASCII
/// alphanumerics and `-`, `_`, `.`, `~`; a string of unreserved characters is
/// returned unchanged.
#[verifier::external_body]
pub fn url_encode(s: &str) -> (r: String)
    ensures
        r@ == url_encoded_of(s@),
        (forall|i: int| 0 <= i < s@.len() ==> is_url_unreserved(s@[i])) ==> r@ == s@,
{
    urlencoding::encode(s).into_owned()
}

} // verus!
