//! Encoding of byte strings for a C interface that expects NUL-terminated
//! strings: a path prefix, an exact output path, a dump label, a property
//! name. The native side reads up to the first NUL byte, so a byte string
//! that already holds one cannot pass through unchanged and is rejected
//! here, before any native call sees it.

use vstd::prelude::*;

verus! {

/// True when the byte sequence holds a NUL byte anywhere.
pub open spec fn contains_nul(s: Seq<u8>) -> bool {
    exists|i: int| 0 <= i < s.len() && s[i] == 0u8
}

/// Append the single terminating NUL byte that the native entry points
/// expect, rejecting input that already holds one. On success the result is
/// the input unchanged followed by exactly one NUL, so the native side,
/// which reads up to the first NUL, sees precisely the caller's bytes.
pub fn nul_terminate(bytes: &[u8]) -> (r: Option<Vec<u8>>)
    ensures
        r is Some <==> !contains_nul(bytes@),
        r matches Some(v) ==> v@ == bytes@.push(0u8),
{
    let mut out: Vec<u8> = Vec::new();
    let mut i: usize = 0;
    while i < bytes.len()
        invariant
            i <= bytes@.len(),
            out@ == bytes@.subrange(0, i as int),
            forall|j: int| 0 <= j < i ==> bytes@[j] != 0u8,
        decreases bytes@.len() - i,
    {
        if bytes[i] == 0u8 {
            proof {
                assert(contains_nul(bytes@)) by {
                    assert(bytes@[i as int] == 0u8);
                }
            }
            return None;
        }
        out.push(bytes[i]);
        proof {
            assert(out@ =~= bytes@.subrange(0, i + 1));
        }
        i = i + 1;
    }
    proof {
        assert(out@ =~= bytes@);
    }
    out.push(0u8);
    Some(out)
}

} // verus!
