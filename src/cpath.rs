use vstd::prelude::*;
use vstd::string::StringSliceAdditionalSpecFns;
use vstd::string::StringExecFns;
use crate::error::{ErrorModel, NetError};

verus! {

/// Whether a byte sequence holds a NUL byte anywhere.
pub open spec fn has_nul(b: Seq<u8>) -> bool {
    exists|i: int| 0 <= i < b.len() && b[i] == 0u8
}

/// The NUL-terminated form of a string as the native API takes it.
pub open spec fn c_bytes(s: Seq<u8>) -> Seq<u8> {
    s.push(0u8)
}

/// Turns a path or tensor name into the NUL-terminated bytes that the native
/// API takes. Text that holds a NUL byte cannot be expressed that way and is
/// refused.
pub fn to_c_bytes(text: &str) -> (r: Result<Vec<u8>, NetError>)
    ensures
        match r {
            Ok(v) => !has_nul(text.spec_bytes()) && v@ == c_bytes(text.spec_bytes()),
            Err(e) => has_nul(text.spec_bytes()) && e@ == ErrorModel::InvalidName(text@),
        },
{
    let b = text.as_bytes();
    let mut out: Vec<u8> = Vec::new();
    let mut i: usize = 0;
    while i < b.len()
        invariant
            b@ == text.spec_bytes(),
            i <= b@.len(),
            out@ == b@.subrange(0, i as int),
            forall|j: int| 0 <= j < i ==> b@[j] != 0u8,
        decreases b@.len() - i,
    {
        if b[i] == 0u8 {
            return Err(NetError::InvalidName { name: String::from_str(text) });
        }
        out.push(b[i]);
        i = i + 1;
        assert(out@ =~= b@.subrange(0, i as int));
    }
    out.push(0u8);
    assert(out@ =~= c_bytes(text.spec_bytes()));
    Ok(out)
}

} // verus!
