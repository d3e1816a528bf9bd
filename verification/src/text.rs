//! Exact comparison of strings.

use vstd::prelude::*;
use vstd::string::StringSliceAdditionalSpecFns;
use vstd::utf8::encode_utf8_decode_utf8;

verus! {

/// Whether `a` and `b` hold the same characters: every one of them, in the
/// same order, in the same case, with nothing trimmed and nothing folded.
pub fn same_text(a: &str, b: &str) -> (same: bool)
    ensures
        same == (a@ == b@),
{
    let left = a.as_bytes();
    let right = b.as_bytes();
    proof {
        // A string is what its bytes decode to, so equal bytes are equal text.
        encode_utf8_decode_utf8(a@);
        encode_utf8_decode_utf8(b@);
    }
    if left.len() != right.len() {
        return false;
    }
    let mut i: usize = 0;
    while i < left.len()
        invariant
            left@ == a.spec_bytes(),
            right@ == b.spec_bytes(),
            left@.len() == right@.len(),
            i <= left@.len(),
            left@.subrange(0, i as int) == right@.subrange(0, i as int),
        decreases left@.len() - i,
    {
        if left[i] != right[i] {
            assert(a.spec_bytes()[i as int] != b.spec_bytes()[i as int]);
            return false;
        }
        assert(left@.subrange(0, i + 1) == left@.subrange(0, i as int).push(left@[i as int]));
        assert(right@.subrange(0, i + 1) == right@.subrange(0, i as int).push(right@[i as int]));
        i += 1;
    }
    assert(left@ == left@.subrange(0, i as int));
    assert(right@ == right@.subrange(0, i as int));
    true
}

} // verus!
