use vstd::prelude::*;
use crate::error::{Error, NulError};
use vstd::string::StringSliceAdditionalSpecFns;

verus! {

/// `p` is the index of the first nul byte of `b`.
pub open spec fn is_first_nul(b: Seq<u8>, p: int) -> bool {
    &&& 0 <= p < b.len()
    &&& b[p] == 0
    &&& forall|j: int| 0 <= j < p ==> b[j] != 0
}

/// `b` holds no nul byte.
pub open spec fn nul_free(b: Seq<u8>) -> bool {
    forall|j: int| 0 <= j < b.len() ==> b[j] != 0
}

/// What converting the bytes `b` into a C string gives: the bytes with a
/// terminating nul where `b` holds none, else the error that names the first
/// nul byte of `b` (as `CString::new` does).
pub open spec fn c_string_result(b: Seq<u8>, r: Result<Vec<u8>, NulError>) -> bool {
    match r {
        Ok(v) => nul_free(b) && v@ == b.push(0),
        Err(e) => e.bytes@ == b && is_first_nul(b, e.position as int),
    }
}

/// Converts `s` into the bytes of a nul-terminated C string; fails where `s`
/// holds a nul byte, naming the first one.
pub fn c_string(s: &str) -> (r: Result<Vec<u8>, NulError>)
    ensures
        c_string_result(s.spec_bytes(), r),
        r is Ok <==> nul_free(s.spec_bytes()),
{
    let b: &[u8] = s.as_bytes();
    let mut i: usize = 0;
    while i < b.len()
        invariant
            b@ == s.spec_bytes(),
            i <= b@.len(),
            forall|j: int| 0 <= j < i ==> b@[j] != 0,
        decreases b@.len() - i,
    {
        if b[i] == 0 {
            return Err(NulError { position: i, bytes: vstd::slice::slice_to_vec(b) });
        }
        i = i + 1;
    }
    let mut v: Vec<u8> = vstd::slice::slice_to_vec(b);
    v.push(0);
    Ok(v)
}

/// `c_string`, with the failure as an error of this library.
pub fn c_string_arg(s: &str) -> (r: Result<Vec<u8>, Error>)
    ensures
        match r {
            Ok(v) => nul_free(s.spec_bytes()) && v@ == s.spec_bytes().push(0),
            Err(e) => e matches Error::Cstring(n) && n.bytes@ == s.spec_bytes()
                && is_first_nul(s.spec_bytes(), n.position as int),
        },
{
    match c_string(s) {
        Ok(v) => Ok(v),
        Err(n) => Err(Error::from(n)),
    }
}

/// A C string made from `b` is `b` with one nul byte after it, and the
/// conversion fails exactly where `b` holds a nul byte, naming the first one:
/// a nul at that position and none before it.
pub proof fn law_c_string(b: Seq<u8>, r: Result<Vec<u8>, NulError>)
    requires
        c_string_result(b, r),
    ensures
        r matches Ok(v) ==> {
            &&& v@.len() == b.len() + 1
            &&& v@[b.len() as int] == 0
            &&& forall|i: int| 0 <= i < b.len() ==> v@[i] == b[i] && b[i] != 0
        },
        r matches Err(e) ==> {
            &&& e.bytes@ == b
            &&& e.position < b.len()
            &&& b[e.position as int] == 0
            &&& forall|j: int| 0 <= j < e.position ==> b[j] != 0
        },
        r is Ok <==> forall|i: int| 0 <= i < b.len() ==> b[i] != 0,
{
    if let Err(e) = r {
        assert(b[e.position as int] == 0);
    }
}
} // verus!
