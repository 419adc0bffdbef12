//! Small helpers for wire data: byte-level reads and text conversions.

use vstd::prelude::*;
use vstd::bytes::{spec_u64_from_le_bytes, u64_from_le_bytes};
use vstd::utf8::{decode_utf8, valid_utf8};

verus! {

/// Compare two string slices by content.
pub fn str_eq(a: &str, b: &str) -> (r: bool)
    ensures
        r == (a@ == b@),
{
    let sa = String::from_str(a);
    let sb = String::from_str(b);
    sa == sb
}

/// Relies on `String::from_utf8`: it returns the string whose characters
/// decode the given bytes exactly when the bytes are valid UTF-8, and
/// reports the bytes back as an error otherwise.
#[verifier::external_body]
pub(crate) fn string_from_utf8(bytes: Vec<u8>) -> (r: Option<String>)
    ensures
        r is Some <==> valid_utf8(bytes@),
        r matches Some(s) ==> s@ == decode_utf8(bytes@),
{
    match String::from_utf8(bytes) {
        Ok(s) => Some(s),
        Err(_) => None,
    }
}

/// Compare two byte vectors by content.
pub fn bytes_eq(a: &Vec<u8>, b: &Vec<u8>) -> (r: bool)
    ensures
        r == (a@ == b@),
{
    if a.len() != b.len() {
        proof {
            assert(a@ != b@);
        }
        return false;
    }
    let n = a.len();
    let mut i: usize = 0;
    while i < n
        invariant
            0 <= i <= n,
            n == a@.len() == b@.len(),
            forall|j: int| 0 <= j < i ==> a@[j] == b@[j],
        decreases n - i,
    {
        if a[i] != b[i] {
            return false;
        }
        i = i + 1;
    }
    proof {
        assert(a@ =~= b@);
    }
    true
}

/// Read a little-endian `u64` from eight bytes starting at `off`.
pub fn read_u64_at(v: &Vec<u8>, off: usize) -> (r: u64)
    requires
        off + 8 <= v@.len(),
    ensures
        r == spec_u64_from_le_bytes(v@.subrange(off as int, off as int + 8)),
{
    let n = v.len();
    let mut eight: Vec<u8> = Vec::new();
    let mut i: usize = 0;
    while i < 8
        invariant
            0 <= i <= 8,
            off + 8 <= n == v@.len(),
            eight@ =~= v@.subrange(off as int, off as int + i as int),
        decreases 8 - i,
    {
        eight.push(v[off + i]);
        proof {
            assert(eight@ =~= v@.subrange(off as int, off as int + i as int + 1));
        }
        i = i + 1;
    }
    u64_from_le_bytes(eight.as_slice())
}

/// Copy the bytes from `off` to the end.
pub fn tail_bytes(v: &Vec<u8>, off: usize) -> (r: Vec<u8>)
    requires
        off <= v@.len(),
    ensures
        r@ == v@.skip(off as int),
{
    let mut out: Vec<u8> = Vec::new();
    let mut i: usize = off;
    while i < v.len()
        invariant
            off <= i <= v@.len(),
            out@ =~= v@.subrange(off as int, i as int),
        decreases v@.len() - i,
    {
        out.push(v[i]);
        proof {
            assert(out@ =~= v@.subrange(off as int, i as int + 1));
        }
        i = i + 1;
    }
    proof {
        assert(out@ =~= v@.skip(off as int));
    }
    out
}

} // verus!
