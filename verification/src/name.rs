//! Counter names as the agent reads them: bytes up to a single closing nul.

use vstd::prelude::*;
use vstd::string::StringSliceAdditionalSpecFns;

verus! {

/// A name the agent can read: not empty, closed by a nul byte, and with no
/// nul byte before the closing one.
pub open spec fn is_c_name(bytes: Seq<u8>) -> bool {
    &&& bytes.len() > 0
    &&& bytes[bytes.len() - 1] == 0u8
    &&& forall|i: int| 0 <= i < bytes.len() - 1 ==> bytes[i] != 0u8
}

/// Tells whether `bytes` is a readable name.
pub fn is_nul_terminated_bytes(bytes: &[u8]) -> (ok: bool)
    ensures
        ok == is_c_name(bytes@),
{
    let n: usize = bytes.len();
    if n == 0 {
        return false;
    }
    let mut i: usize = 0;
    while i < n - 1
        invariant
            n == bytes@.len(),
            n > 0,
            i <= n - 1,
            forall|j: int| 0 <= j < i ==> bytes@[j] != 0u8,
        decreases n - i,
    {
        if bytes[i] == 0 {
            return false;
        }
        i += 1;
    }
    bytes[n - 1] == 0
}

/// Tells whether the bytes of `name` are a readable name.
pub fn is_nul_terminated(name: &str) -> (ok: bool)
    ensures
        ok == is_c_name(name.spec_bytes()),
{
    is_nul_terminated_bytes(name.as_bytes())
}

} // verus!
