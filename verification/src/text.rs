//! Validation of values before they cross the native boundary.
//!
//! Text handed to the engine travels as a zero-terminated C string, so a
//! caller-supplied string with an embedded zero byte cannot be represented
//! and is rejected here, before any native call.  Byte buffers travel with
//! their length as a native `int`, so a length beyond `i32::MAX` is
//! rejected the same way.

use vstd::prelude::*;
use crate::Error;

verus! {

/// Whether `s` can cross the boundary as a C string: no embedded zero byte.
pub open spec fn nul_free(s: Seq<u8>) -> bool {
    forall|i: int| 0 <= i < s.len() ==> s[i] != 0
}

/// Checks that `s` holds no zero byte.
pub fn check_nul_free(s: &[u8]) -> (ok: bool)
    ensures
        ok == nul_free(s@),
{
    let n: usize = s.len();
    let mut i: usize = 0;
    while i < n
        invariant
            n == s@.len(),
            i <= n,
            forall|j: int| 0 <= j < i ==> s@[j] != 0,
        decreases n - i,
    {
        if s[i] == 0 {
            return false;
        }
        i = i + 1;
    }
    true
}

/// Validates one text argument: `Ok` exactly when the bytes hold no
/// embedded zero and may alias a C string for the duration of a native
/// call; `Err` is the encoding failure of the boundary.
pub fn check_text(s: &[u8]) -> (r: Result<(), Error>)
    ensures
        r is Ok <==> nul_free(s@),
{
    if check_nul_free(s) {
        Ok(())
    } else {
        Err(Error)
    }
}

/// Converts a buffer length to the native `int` it crosses the boundary
/// as: `Ok(len)` exactly when the length fits, `Err` otherwise (the
/// native call could not receive such a buffer faithfully).
pub fn native_len(len: usize) -> (r: Result<i32, Error>)
    ensures
        r matches Ok(n) ==> n == len,
        r is Ok <==> len <= i32::MAX,
{
    if len <= i32::MAX as usize {
        Ok(len as i32)
    } else {
        Err(Error)
    }
}

} // verus!
