//! Texts and their bytes.

use vstd::prelude::*;
use vstd::slice::slice_to_vec;
use vstd::utf8::encode_utf8;

verus! {

/// Tells whether two texts are the same.
pub fn same_text(a: &str, b: &str) -> (r: bool)
    ensures
        r == (a@ == b@),
{
    let x = a.as_bytes();
    let y = b.as_bytes();
    proof {
        vstd::utf8::encode_utf8_decode_utf8(a@);
        vstd::utf8::encode_utf8_decode_utf8(b@);
    }
    if x.len() != y.len() {
        return false;
    }
    let mut i: usize = 0;
    while i < x.len()
        invariant
            i <= x@.len(),
            x@.len() == y@.len(),
            x@.take(i as int) == y@.take(i as int),
            x@ == encode_utf8(a@),
            y@ == encode_utf8(b@),
        decreases x@.len() - i,
    {
        if x[i] != y[i] {
            return false;
        }
        assert(x@.take(i + 1) =~= x@.take(i as int).push(x@[i as int]));
        assert(y@.take(i + 1) =~= y@.take(i as int).push(y@[i as int]));
        i = i + 1;
    }
    assert(x@.take(i as int) =~= x@);
    assert(y@.take(i as int) =~= y@);
    true
}

/// The UTF-8 bytes of a text.
pub fn bytes_of(text: &str) -> (r: Vec<u8>)
    ensures
        r@ == encode_utf8(text@),
{
    slice_to_vec(text.as_bytes())
}

/// One run of bytes after another.
pub fn joined(first: Vec<u8>, second: &[u8]) -> (r: Vec<u8>)
    ensures
        r@ == first@ + second@,
{
    let mut out = first;
    out.extend_from_slice(second);
    assert(out@ =~= first@ + second@);
    out
}

} // verus!
