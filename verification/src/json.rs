//! A small JSON codec for the fixed QR payload schema.
//!
//! The payload grammar is the library's own: objects are written with the
//! fields in a fixed order, string values escape `"` and `\` with a
//! backslash and carry every other character through unchanged, and numbers
//! are plain decimal integers. The parser reads exactly this canonical form.

use vstd::prelude::*;
use vstd::string::*;
use crate::strutil::{
    push_char, matches_at, is_digit, digit_val, digits_val, all_digits, spec_i64_str, dec_digits,
    lemma_dec_digits_val,
};

verus! {

/// The escaped form of one character inside a JSON string value.
pub open spec fn esc_char(c: char) -> Seq<char> {
    if c == '"' {
        seq!['\\', '"']
    } else if c == '\\' {
        seq!['\\', '\\']
    } else {
        seq![c]
    }
}

/// The escaped form of a whole string value.
pub open spec fn esc(s: Seq<char>) -> Seq<char>
    decreases s.len(),
{
    if s.len() == 0 {
        seq![]
    } else {
        esc_char(s.first()) + esc(s.drop_first())
    }
}

/// Escaping distributes over appending one character at the end.
pub proof fn lemma_esc_push(s: Seq<char>, c: char)
    ensures
        esc(s.push(c)) == esc(s) + esc_char(c),
    decreases s.len(),
{
    if s.len() == 0 {
        assert(s.push(c).drop_first() =~= Seq::<char>::empty());
        assert(s.push(c).first() == c);
        assert(esc(s.push(c)) == esc_char(c) + esc(Seq::<char>::empty()));
        assert(esc(Seq::<char>::empty()) =~= Seq::<char>::empty());
        assert(esc_char(c) + Seq::<char>::empty() =~= esc_char(c));
        assert(esc(s) =~= Seq::<char>::empty());
        assert(esc(s) + esc_char(c) =~= esc_char(c));
    } else {
        assert(s.push(c).drop_first() =~= s.drop_first().push(c));
        assert(s.push(c).first() == s.first());
        lemma_esc_push(s.drop_first(), c);
        assert(esc(s.push(c)) == esc_char(s.first()) + (esc(s.drop_first()) + esc_char(c)));
        assert(esc_char(s.first()) + (esc(s.drop_first()) + esc_char(c)) =~= (esc_char(s.first())
            + esc(s.drop_first())) + esc_char(c));
    }
}

/// Append the escaped form of `s` to `out`.
pub fn escape_append(out: &mut String, s: &str)
    ensures
        final (out)@ == old(out)@ + esc(s@),
{
    let len = s.unicode_len();
    let mut i: usize = 0;
    assert(s@.subrange(0, 0) =~= Seq::<char>::empty());
    assert(out@ =~= old(out)@ + esc(s@.subrange(0, 0)));
    while i < len
        invariant
            len == s@.len(),
            0 <= i <= len,
            out@ == old(out)@ + esc(s@.subrange(0, i as int)),
        decreases len - i,
    {
        let c = s.get_char(i);
        if c == '"' {
            push_char(out, '\\');
            push_char(out, '"');
        } else if c == '\\' {
            push_char(out, '\\');
            push_char(out, '\\');
        } else {
            push_char(out, c);
        }
        proof {
            lemma_esc_push(s@.subrange(0, i as int), c);
            assert(s@.subrange(0, i + 1) =~= s@.subrange(0, i as int).push(c));
            assert(out@ =~= old(out)@ + esc(s@.subrange(0, i + 1)));
        }
        i += 1;
    }
    assert(s@.subrange(0, len as int) =~= s@);
}

/// Parse a JSON string value of the canonical form starting at `i`, up to and
/// including the closing quote. Yields the decoded value and the position
/// after the closing quote.
pub open spec fn spec_parse_string(s: Seq<char>, i: int) -> Option<(Seq<char>, int)>
    decreases s.len() - i,
{
    if i < 0 || i >= s.len() {
        None
    } else if s[i] == '"' {
        Some((seq![], i + 1))
    } else if s[i] == '\\' {
        if i + 1 < s.len() && (s[i + 1] == '"' || s[i + 1] == '\\') {
            match spec_parse_string(s, i + 2) {
                None => None,
                Some((v, j)) => Some((seq![s[i + 1]] + v, j)),
            }
        } else {
            None
        }
    } else {
        match spec_parse_string(s, i + 1) {
            None => None,
            Some((v, j)) => Some((seq![s[i]] + v, j)),
        }
    }
}

/// Parsing inverts escaping: an escaped value followed by a closing quote
/// parses back to the value.
pub proof fn lemma_parse_escaped(s: Seq<char>, v: Seq<char>, i: int)
    requires
        0 <= i,
        i + esc(v).len() + 1 <= s.len(),
        s.subrange(i, i + esc(v).len()) == esc(v),
        s[i + esc(v).len()] == '"',
    ensures
        spec_parse_string(s, i) == Some((v, i + esc(v).len() + 1)),
    decreases v.len(),
{
    if v.len() == 0 {
        assert(esc(v).len() == 0);
        assert(s[i] == '"');
        assert(spec_parse_string(s, i) == Some((Seq::<char>::empty(), i + 1)));
        assert(Seq::<char>::empty() =~= v);
    } else {
        let c = v.first();
        let rest = v.drop_first();
        let ec = esc_char(c);
        assert(esc(v) == ec + esc(rest));
        let el = esc(v).len() as int;
        assert forall|k: int| 0 <= k < el implies s[i + k] == esc(v)[k] by {
            assert(s.subrange(i, i + el)[k] == s[i + k]);
        }
        if c == '"' || c == '\\' {
            assert(ec.len() == 2);
            assert(esc(v)[0] == '\\');
            assert(esc(v)[1] == c);
            assert(s[i] == '\\');
            assert(s[i + 1] == c);
            assert(s.subrange(i + 2, i + 2 + esc(rest).len()) =~= esc(rest)) by {
                assert forall|k: int| 0 <= k < esc(rest).len() implies s.subrange(
                    i + 2,
                    i + 2 + esc(rest).len(),
                )[k] == esc(rest)[k] by {
                    assert(s.subrange(i + 2, i + 2 + esc(rest).len())[k] == s[i + 2 + k]);
                    assert(esc(v)[2 + k] == esc(rest)[k]);
                }
            }
            lemma_parse_escaped(s, rest, i + 2);
            assert(spec_parse_string(s, i + 2) == Some((rest, i + 2 + esc(rest).len() + 1)));
            assert(spec_parse_string(s, i) == Some(
                (seq![s[i + 1]] + rest, i + 2 + esc(rest).len() + 1),
            ));
            assert(seq![s[i + 1]] + rest =~= v);
        } else {
            assert(ec.len() == 1);
            assert(esc(v)[0] == c);
            assert(s[i] == c);
            assert(s.subrange(i + 1, i + 1 + esc(rest).len()) =~= esc(rest)) by {
                assert forall|k: int| 0 <= k < esc(rest).len() implies s.subrange(
                    i + 1,
                    i + 1 + esc(rest).len(),
                )[k] == esc(rest)[k] by {
                    assert(s.subrange(i + 1, i + 1 + esc(rest).len())[k] == s[i + 1 + k]);
                    assert(esc(v)[1 + k] == esc(rest)[k]);
                }
            }
            lemma_parse_escaped(s, rest, i + 1);
            assert(spec_parse_string(s, i) == Some(
                (seq![s[i]] + rest, i + 1 + esc(rest).len() + 1),
            ));
            assert(seq![s[i]] + rest =~= v);
        }
    }
}

/// Parse a JSON string value of the canonical form. Follows
/// `spec_parse_string` exactly.
pub fn parse_string_part(s: &str, start: usize) -> (r: Option<(String, usize)>)
    ensures
        match r {
            Some((v, j)) => spec_parse_string(s@, start as int) == Some((v@, j as int)) && j
                <= s@.len(),
            None => spec_parse_string(s@, start as int) is None,
        },
{
    let len = s.unicode_len();
    let mut out = String::new();
    let mut i: usize = start;
    loop
        invariant
            len == s@.len(),
            start <= i,
            spec_parse_string(s@, start as int) == (match spec_parse_string(s@, i as int) {
                Some((v, j)) => Some((out@ + v, j)),
                None => None::<(Seq<char>, int)>,
            }),
        decreases len - i,
    {
        if i >= len {
            return None;
        }
        let c = s.get_char(i);
        if c == '"' {
            assert(out@ + Seq::<char>::empty() =~= out@);
            return Some((out, i + 1));
        } else if c == '\\' {
            if i + 1 < len {
                let c2 = s.get_char(i + 1);
                if c2 == '"' || c2 == '\\' {
                    let ghost oldo = out@;
                    push_char(&mut out, c2);
                    proof {
                        let pr = spec_parse_string(s@, i + 2);
                        if pr is Some {
                            let v2 = pr->Some_0.0;
                            assert(oldo + (seq![c2] + v2) =~= out@ + v2);
                        }
                    }
                    i += 2;
                } else {
                    return None;
                }
            } else {
                return None;
            }
        } else {
            let ghost oldo = out@;
            push_char(&mut out, c);
            proof {
                let pr = spec_parse_string(s@, i + 1);
                if pr is Some {
                    let v2 = pr->Some_0.0;
                    assert(oldo + (seq![c] + v2) =~= out@ + v2);
                }
            }
            i += 1;
        }
    }
}

/// Where a run of decimal digits starting at `i` ends.
pub open spec fn spec_digits_end(s: Seq<char>, i: int) -> int
    decreases s.len() - i,
{
    if i < 0 || i >= s.len() || !is_digit(s[i]) {
        i
    } else {
        spec_digits_end(s, i + 1)
    }
}

/// A digit run placed in a larger string scans back to its own end, when the
/// character after it is not a digit.
pub proof fn lemma_digits_end_of(s: Seq<char>, i: int, ds: Seq<char>)
    requires
        0 <= i,
        i + ds.len() < s.len(),
        s.subrange(i, i + ds.len()) == ds,
        all_digits(ds),
        !is_digit(s[i + ds.len()]),
    ensures
        spec_digits_end(s, i) == i + ds.len(),
    decreases ds.len(),
{
    if ds.len() == 0 {
        assert(!is_digit(s[i]));
    } else {
        assert(s.subrange(i, i + ds.len())[0] == s[i]);
        assert(is_digit(ds[0]));
        assert(s.subrange(i + 1, i + 1 + ds.drop_first().len()) =~= ds.drop_first()) by {
            assert forall|k: int| 0 <= k < ds.drop_first().len() implies s.subrange(
                i + 1,
                i + 1 + ds.drop_first().len(),
            )[k] == ds.drop_first()[k] by {
                assert(s.subrange(i + 1, i + 1 + ds.drop_first().len())[k] == s[i + 1 + k]);
                assert(s.subrange(i, i + ds.len())[1 + k] == s[i + 1 + k]);
            }
        }
        assert(all_digits(ds.drop_first()));
        lemma_digits_end_of(s, i + 1, ds.drop_first());
    }
}

/// The value of a digit run is non-negative.
pub proof fn lemma_digits_val_nonneg(s: Seq<char>)
    requires
        all_digits(s),
    ensures
        digits_val(s) >= 0,
    decreases s.len(),
{
    if s.len() > 0 {
        assert(all_digits(s.drop_last()));
        lemma_digits_val_nonneg(s.drop_last());
        assert(is_digit(s.last()));
    }
}

/// Parse a decimal integer (optional leading `-`, then digits) starting at
/// `i`, yielding its value and the position after the digits; `None` where no
/// digit follows, or the value falls outside the i64 range.
pub open spec fn spec_parse_i64(s: Seq<char>, i: int) -> Option<(int, int)> {
    if !(0 <= i < s.len()) {
        None
    } else {
        let neg = s[i] == '-';
        let ds = if neg {
            i + 1
        } else {
            i
        };
        let de = spec_digits_end(s, ds);
        if de == ds {
            None
        } else {
            let mag = digits_val(s.subrange(ds, de));
            let value = if neg {
                -mag
            } else {
                mag
            };
            if i64::MIN <= value <= i64::MAX {
                Some((value, de))
            } else {
                None
            }
        }
    }
}

fn digit_of(c: char) -> (r: Option<u8>)
    ensures
        is_digit(c) ==> r == Some((digit_val(c)) as u8),
        !is_digit(c) ==> r is None,
{
    if c == '0' {
        Some(0)
    } else if c == '1' {
        Some(1)
    } else if c == '2' {
        Some(2)
    } else if c == '3' {
        Some(3)
    } else if c == '4' {
        Some(4)
    } else if c == '5' {
        Some(5)
    } else if c == '6' {
        Some(6)
    } else if c == '7' {
        Some(7)
    } else if c == '8' {
        Some(8)
    } else if c == '9' {
        Some(9)
    } else {
        None
    }
}

/// Whether a decimal digit stands at position `p` of `s`.
fn is_digit_at(s: &str, p: usize) -> (r: bool)
    ensures
        r == (p < s@.len() && is_digit(s@[p as int])),
{
    if p < s.unicode_len() {
        match digit_of(s.get_char(p)) {
            Some(_) => true,
            None => false,
        }
    } else {
        false
    }
}

/// Parse a decimal integer. Follows `spec_parse_i64` exactly.
pub fn parse_i64_part(s: &str, start: usize) -> (r: Option<(i64, usize)>)
    ensures
        match r {
            Some((v, j)) => spec_parse_i64(s@, start as int) == Some((v as int, j as int)) && j
                <= s@.len(),
            None => spec_parse_i64(s@, start as int) is None,
        },
{
    let len = s.unicode_len();
    if start >= len {
        return None;
    }
    let neg = s.get_char(start) == '-';
    let ds: usize = if neg {
        start + 1
    } else {
        start
    };
    // Scan the digit run, tracking the exact magnitude while it stays within
    // 2^63, and a canonical too-large marker once it exceeds it.
    let lim: u64 = (i64::MAX as u64) + 1;
    let mut mag: u64 = 0;
    let mut p: usize = ds;
    assert(s@.subrange(ds as int, ds as int) =~= Seq::<char>::empty());
    while is_digit_at(s, p)
        invariant
            len == s@.len(),
            ds <= p <= len,
            lim == i64::MAX as u64 + 1,
            mag <= lim + 1,
            all_digits(s@.subrange(ds as int, p as int)),
            digits_val(s@.subrange(ds as int, p as int)) <= lim ==> mag == digits_val(
                s@.subrange(ds as int, p as int),
            ),
            digits_val(s@.subrange(ds as int, p as int)) > lim ==> mag == lim + 1,
            spec_digits_end(s@, ds as int) == spec_digits_end(s@, p as int),
        decreases len - p,
    {
        let c = s.get_char(p);
        let d = match digit_of(c) {
            Some(d) => d,
            None => {
                return None;
            },
        };
        proof {
            let pre = s@.subrange(ds as int, p as int);
            let post = s@.subrange(ds as int, p + 1);
            assert(post.drop_last() =~= pre);
            assert(post.last() == s@[p as int]);
            assert(digits_val(post) == digits_val(pre) * 10 + digit_val(c));
            lemma_digits_val_nonneg(pre);
            assert forall|k: int| 0 <= k < post.len() implies is_digit(post[k]) by {
                if k < pre.len() {
                    assert(post[k] == pre[k]);
                }
            }
            assert(digit_val(c) < 10);
        }
        if mag > lim / 10 {
            mag = lim + 1;
        } else {
            let next: u64 = mag * 10 + (d as u64);
            if next > lim {
                mag = lim + 1;
            } else {
                mag = next;
            }
        }
        p += 1;
    }
    proof {
        assert(spec_digits_end(s@, p as int) == p);
    }
    if p == ds {
        return None;
    }
    proof {
        lemma_digits_val_nonneg(s@.subrange(ds as int, p as int));
    }
    if neg {
        if mag > lim {
            return None;
        }
        let v: i64 = if mag == lim {
            i64::MIN
        } else {
            -(mag as i64)
        };
        Some((v, p))
    } else {
        if mag >= lim {
            return None;
        }
        Some((mag as i64, p))
    }
}

/// Whether the fixed text `lit` stands at position `i` of `s`; the position
/// after it when it does.
pub open spec fn spec_expect(s: Seq<char>, i: int, lit: Seq<char>) -> Option<int> {
    if 0 <= i && i + lit.len() <= s.len() && s.subrange(i, i + lit.len()) == lit {
        Some(i + lit.len())
    } else {
        None
    }
}

/// Match the fixed text `lit` at position `i`. Follows `spec_expect` exactly.
pub fn expect_lit(s: &str, i: usize, lit: &str) -> (r: Option<usize>)
    ensures
        match r {
            Some(j) => spec_expect(s@, i as int, lit@) == Some(j as int) && j <= s@.len(),
            None => spec_expect(s@, i as int, lit@) is None,
        },
{
    let sl = s.unicode_len();
    let ll = lit.unicode_len();
    if i <= sl && ll <= sl - i {
        if matches_at(s, lit, i) {
            Some(i + ll)
        } else {
            None
        }
    } else {
        None
    }
}

/// The decimal text of `v` scans back to `v`: placed in a larger string and
/// followed by a non-digit, it parses to exactly `v`.
pub proof fn lemma_parse_i64_of(s: Seq<char>, v: i64, i: int)
    requires
        0 <= i,
        i + spec_i64_str(v as int).len() < s.len(),
        s.subrange(i, i + spec_i64_str(v as int).len()) == spec_i64_str(v as int),
        !is_digit(s[i + spec_i64_str(v as int).len()]),
    ensures
        spec_parse_i64(s, i) == Some((v as int, i + spec_i64_str(v as int).len())),
{
    let txt = spec_i64_str(v as int);
    assert forall|k: int| 0 <= k < txt.len() implies s[i + k] == txt[k] by {
        assert(s.subrange(i, i + txt.len())[k] == s[i + k]);
    }
    if v >= 0 {
        let ds = dec_digits(v as nat);
        assert(txt == ds);
        lemma_dec_digits_val(v as nat);
        assert(s[i] == ds[0]);
        assert(is_digit(ds[0]));
        assert(s[i] != '-');
        lemma_digits_end_of(s, i, ds);
        assert(s.subrange(i, i + ds.len()) == ds);
        assert(digits_val(s.subrange(i, i + ds.len())) == v as int);
    } else {
        let ds = dec_digits((-(v as int)) as nat);
        assert(txt == seq!['-'] + ds);
        lemma_dec_digits_val((-(v as int)) as nat);
        assert(s[i] == txt[0]);
        assert(txt[0] == '-');
        assert(s.subrange(i + 1, i + 1 + ds.len()) =~= ds) by {
            assert forall|k: int| 0 <= k < ds.len() implies s.subrange(i + 1, i + 1 + ds.len())[k]
                == ds[k] by {
                assert(s.subrange(i + 1, i + 1 + ds.len())[k] == s[i + 1 + k]);
                assert(txt[1 + k] == ds[k]);
            }
        }
        lemma_digits_end_of(s, i + 1, ds);
        assert(digits_val(s.subrange(i + 1, i + 1 + ds.len())) == -(v as int));
    }
}

/// The fixed text `lit` matches at the end of a known prefix.
pub proof fn lemma_expect_here(s: Seq<char>, pre: Seq<char>, lit: Seq<char>, suf: Seq<char>)
    requires
        s =~= pre + lit + suf,
    ensures
        spec_expect(s, pre.len() as int, lit) == Some((pre.len() + lit.len()) as int),
{
    let p = pre.len() as int;
    assert(s.subrange(p, p + lit.len()) =~= lit) by {
        assert forall|k: int| 0 <= k < lit.len() implies s.subrange(p, p + lit.len())[k]
            == lit[k] by {
            assert(s.subrange(p, p + lit.len())[k] == s[p + k]);
            assert(s[p + k] == (pre + lit + suf)[p + k]);
        }
    }
}

/// An escaped value with its closing quote parses at the end of a known
/// prefix.
pub proof fn lemma_parse_string_here(s: Seq<char>, pre: Seq<char>, v: Seq<char>, suf: Seq<char>)
    requires
        s =~= pre + esc(v) + seq!['"'] + suf,
    ensures
        spec_parse_string(s, pre.len() as int) == Some(
            (v, (pre.len() + esc(v).len() + 1) as int),
        ),
{
    let p = pre.len() as int;
    let el = esc(v).len() as int;
    assert(s.subrange(p, p + el) =~= esc(v)) by {
        assert forall|k: int| 0 <= k < el implies s.subrange(p, p + el)[k] == esc(v)[k] by {
            assert(s.subrange(p, p + el)[k] == s[p + k]);
            assert(s[p + k] == ((pre + esc(v)) + seq!['"'] + suf)[p + k]);
        }
    }
    assert(s[p + el] == '"') by {
        assert(s[p + el] == ((pre + esc(v)) + seq!['"'] + suf)[p + el]);
    }
    lemma_parse_escaped(s, v, p);
}

/// A decimal integer parses at the end of a known prefix, when what follows
/// it does not begin with a digit.
pub proof fn lemma_parse_i64_here(s: Seq<char>, pre: Seq<char>, v: i64, suf: Seq<char>)
    requires
        s =~= pre + spec_i64_str(v as int) + suf,
        suf.len() > 0,
        !is_digit(suf[0]),
    ensures
        spec_parse_i64(s, pre.len() as int) == Some(
            (v as int, (pre.len() + spec_i64_str(v as int).len()) as int),
        ),
{
    let p = pre.len() as int;
    let txt = spec_i64_str(v as int);
    let tl = txt.len() as int;
    assert(s.subrange(p, p + tl) =~= txt) by {
        assert forall|k: int| 0 <= k < tl implies s.subrange(p, p + tl)[k] == txt[k] by {
            assert(s.subrange(p, p + tl)[k] == s[p + k]);
            assert(s[p + k] == ((pre + txt) + suf)[p + k]);
        }
    }
    assert(!is_digit(s[p + tl])) by {
        assert(s[p + tl] == ((pre + txt) + suf)[p + tl]);
    }
    lemma_parse_i64_of(s, v, p);
}

} // verus!
