//! Small verified helpers on strings.

use vstd::prelude::*;
use vstd::string::*;
use vstd::utf8::*;

verus! {

broadcast use vstd::utf8::encode_utf8_decode_utf8;

/// Compares two string slices character by character (through their UTF-8 bytes).
pub fn str_eq(a: &str, b: &str) -> (r: bool)
    ensures
        r == (a@ == b@),
{
    let ab = a.as_bytes();
    let bb = b.as_bytes();
    proof {
        encode_utf8_decode_utf8(a@);
        encode_utf8_decode_utf8(b@);
    }
    if ab.len() != bb.len() {
        return false;
    }
    let n: usize = ab.len();
    let mut i: usize = 0;
    while i < n
        invariant
            n == ab@.len(),
            ab@ == a.spec_bytes(),
            bb@ == b.spec_bytes(),
            n == bb@.len(),
            i <= n,
            forall|j: int| 0 <= j < i ==> ab@[j] == bb@[j],
        decreases n - i,
    {
        if ab[i] != bb[i] {
            assert(ab@[i as int] != bb@[i as int]);
            assert(ab@ != bb@);
            return false;
        }
        i = i + 1;
    }
    assert(ab@ =~= bb@);
    true
}

} // verus!
