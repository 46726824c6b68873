//! Small string operations, stated over the characters of a string.

use vstd::prelude::*;
use vstd::string::StringSliceAdditionalSpecFns;
use vstd::utf8::encode_utf8_decode_utf8;

verus! {

/// Whether `c` is one of the ASCII digits `0` to `9`.
pub open spec fn is_ascii_digit(c: char) -> bool {
    '0' <= c <= '9'
}

/// Whether `s` is non-empty and its first character is an ASCII digit.
pub open spec fn has_leading_ascii_digit(s: Seq<char>) -> bool {
    s.len() > 0 && is_ascii_digit(s[0])
}

/// `s` with a single underscore in front of it.
pub open spec fn underscore_prefixed(s: Seq<char>) -> Seq<char> {
    seq!['_'] + s
}

/// Tests whether `name` begins with an ASCII digit.
pub fn starts_with_ascii_digit(name: &str) -> (found: bool)
    ensures
        found == has_leading_ascii_digit(name@),
{
    if name.is_empty() {
        return false;
    }
    let first: char = name.get_char(0);
    '0' <= first && first <= '9'
}

/// Tests whether `a` and `b` hold the same characters, by comparing their
/// UTF-8 bytes: two strings with the same encoding decode to the same
/// characters.
pub fn same_text(a: &str, b: &str) -> (same: bool)
    ensures
        same == (a@ == b@),
{
    let x: &[u8] = a.as_bytes();
    let y: &[u8] = b.as_bytes();
    if x.len() != y.len() {
        return false;
    }
    let mut i: usize = 0;
    while i < x.len()
        invariant
            i <= x.len(),
            x.len() == y.len(),
            x@ == a.spec_bytes(),
            y@ == b.spec_bytes(),
            forall|k: int| 0 <= k < i ==> x@[k] == y@[k],
        decreases x.len() - i,
    {
        if x[i] != y[i] {
            return false;
        }
        i += 1;
    }
    proof {
        assert(x@ =~= y@);
        encode_utf8_decode_utf8(a@);
        encode_utf8_decode_utf8(b@);
    }
    true
}

/// Builds a new string that holds an underscore followed by `name`.
pub fn prefix_underscore(name: &str) -> (prefixed: String)
    ensures
        prefixed@ == underscore_prefixed(name@),
{
    let mut prefixed: String = String::from_str("_");
    proof {
        reveal_strlit("_");
    }
    prefixed.append(name);
    prefixed
}

} // verus!
