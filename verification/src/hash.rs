//! Content hashing for QR payloads: SHA-256 through sha2, hex encoding
//! verified here.

use vstd::prelude::*;
use crate::strutil::push_char;
use sha2::Digest;

verus! {

/// The SHA-256 digest of the UTF-8 bytes of `s`: a function of the input
/// alone.
pub uninterp spec fn sha256_of(s: Seq<char>) -> Seq<u8>;

/// Relies on sha2's Sha256 (Digest::digest): a 32-byte digest that depends on
/// the input bytes alone.
#[verifier::external_body]
fn sha256_digest(s: &str) -> (r: Vec<u8>)
    ensures
        r@ == sha256_of(s@),
        r@.len() == 32,
{
    sha2::Sha256::digest(s.as_bytes()).to_vec()
}

/// The lowercase hex character for `d`.
pub open spec fn hex_char(d: int) -> char {
    if d < 10 {
        crate::strutil::digit_char(d)
    } else if d == 10 {
        'a'
    } else if d == 11 {
        'b'
    } else if d == 12 {
        'c'
    } else if d == 13 {
        'd'
    } else if d == 14 {
        'e'
    } else {
        'f'
    }
}

/// The lowercase hex encoding of a byte sequence, two characters per byte.
pub open spec fn spec_hex_lower(data: Seq<u8>) -> Seq<char>
    decreases data.len(),
{
    if data.len() == 0 {
        seq![]
    } else {
        seq![hex_char(data.first() as int / 16), hex_char(data.first() as int % 16)]
            + spec_hex_lower(data.drop_first())
    }
}

fn hex_char_of(d: u8) -> (c: char)
    requires
        d < 16,
    ensures
        c == hex_char(d as int),
{
    if d == 0 {
        '0'
    } else if d == 1 {
        '1'
    } else if d == 2 {
        '2'
    } else if d == 3 {
        '3'
    } else if d == 4 {
        '4'
    } else if d == 5 {
        '5'
    } else if d == 6 {
        '6'
    } else if d == 7 {
        '7'
    } else if d == 8 {
        '8'
    } else if d == 9 {
        '9'
    } else if d == 10 {
        'a'
    } else if d == 11 {
        'b'
    } else if d == 12 {
        'c'
    } else if d == 13 {
        'd'
    } else if d == 14 {
        'e'
    } else {
        'f'
    }
}

/// Lowercase hex encoding of a byte vector.
pub fn to_hex_lower(data: &Vec<u8>) -> (r: String)
    ensures
        r@ == spec_hex_lower(data@),
        r@.len() == 2 * data@.len(),
{
    let mut r = String::new();
    let len = data.len();
    let mut i: usize = 0;
    assert(data@.subrange(0, len as int) =~= data@);
    while i < len
        invariant
            len == data@.len(),
            0 <= i <= len,
            r@.len() == 2 * i,
            spec_hex_lower(data@) == r@ + spec_hex_lower(data@.subrange(i as int, len as int)),
        decreases len - i,
    {
        let b = data[i];
        push_char(&mut r, hex_char_of(b / 16));
        push_char(&mut r, hex_char_of(b % 16));
        assert(data@.subrange(i as int, len as int).drop_first() =~= data@.subrange(
            i + 1,
            len as int,
        ));
        assert(data@.subrange(i as int, len as int).first() == data@[i as int]);
        i += 1;
    }
    assert(spec_hex_lower(data@.subrange(len as int, len as int)) =~= Seq::<char>::empty());
    assert(r@ =~= spec_hex_lower(data@));
    r
}

/// The lowercase hex form of the SHA-256 digest of `s`.
pub open spec fn spec_sha256_hex(s: Seq<char>) -> Seq<char> {
    spec_hex_lower(sha256_of(s))
}

/// The content hash stored with a QR record: lowercase hex of the SHA-256
/// digest of the payload.
pub fn sha256_hex(s: &str) -> (r: String)
    ensures
        r@ == spec_sha256_hex(s@),
        r@.len() == 64,
{
    let digest = sha256_digest(s);
    to_hex_lower(&digest)
}

} // verus!
