//! Conversion of paths and other byte strings into the NUL-terminated form
//! that the C interface takes.
use vstd::prelude::*;
use crate::error::{Error, ErrorKind};

verus! {

/// Whether the byte string holds a NUL byte.
pub open spec fn has_nul(s: Seq<u8>) -> bool {
    exists|i: int| 0 <= i < s.len() && s[i] == 0
}

/// The bytes of a C string: `s` followed by a terminating NUL.
pub open spec fn c_string_of(s: Seq<u8>) -> Seq<u8> {
    s.push(0)
}

/// Whether `r` is the part of `s` before its first NUL byte (all of `s`
/// when it has none).
pub open spec fn is_until_nul(s: Seq<u8>, r: Seq<u8>) -> bool {
    &&& r.len() <= s.len()
    &&& r =~= s.take(r.len() as int)
    &&& !has_nul(r)
    &&& (r.len() == s.len() || s[r.len() as int] == 0)
}

/// The bytes of `s` followed by a NUL, or `None` when `s` holds a NUL byte
/// itself (and so cannot be a C string).
pub fn to_c_string(s: &[u8]) -> (r: Option<Vec<u8>>)
    ensures
        !has_nul(s@) ==> (r matches Some(v) && v@ == c_string_of(s@)),
        has_nul(s@) ==> r is None,
{
    let mut out: Vec<u8> = Vec::new();
    let mut i: usize = 0;
    while i < s.len()
        invariant
            i <= s.len(),
            out@ =~= s@.take(i as int),
            forall|j: int| 0 <= j < i ==> s@[j] != 0,
        decreases s.len() - i,
    {
        if s[i] == 0 {
            return None;
        }
        out.push(s[i]);
        i = i + 1;
    }
    assert(out@ =~= s@);
    out.push(0);
    Some(out)
}

/// The part of `s` before its first NUL byte, as a C string read from a
/// buffer gives it.
pub fn until_nul(s: &[u8]) -> (r: Vec<u8>)
    ensures
        is_until_nul(s@, r@),
{
    let mut out: Vec<u8> = Vec::new();
    let mut i: usize = 0;
    while i < s.len()
        invariant
            i <= s.len(),
            out@ =~= s@.take(i as int),
            forall|j: int| 0 <= j < i ==> s@[j] != 0,
        ensures
            i <= s.len(),
            out@ =~= s@.take(i as int),
            forall|j: int| 0 <= j < i ==> s@[j] != 0,
            i == s.len() || s@[i as int] == 0,
        decreases s.len() - i,
    {
        if s[i] == 0 {
            break;
        }
        out.push(s[i]);
        i = i + 1;
    }
    out
}

/// Appends the bytes of `src` to `dst`.
pub fn append_bytes(dst: &mut Vec<u8>, src: &[u8])
    ensures
        final(dst)@ == old(dst)@ + src@,
{
    let mut i: usize = 0;
    while i < src.len()
        invariant
            i <= src.len(),
            dst@ =~= old(dst)@ + src@.take(i as int),
        decreases src.len() - i,
    {
        dst.push(src[i]);
        i = i + 1;
    }
    proof {
        assert(src@.take(src@.len() as int) =~= src@);
    }
}

/// A copy of the byte string.
pub fn copy_bytes(src: &[u8]) -> (r: Vec<u8>)
    ensures
        r@ == src@,
{
    let mut r: Vec<u8> = Vec::new();
    append_bytes(&mut r, src);
    proof {
        assert(Seq::<u8>::empty() + src@ =~= src@);
    }
    r
}

/// Whether `e` is the error for a path holding a NUL byte.
pub open spec fn is_path_nul_error(e: Error) -> bool {
    e.is_simple(ErrorKind::InvalidInput, "path contains a NUL byte"@)
}

/// The path as a NUL-terminated C string; fails with `InvalidInput` when
/// the path holds a NUL byte.
pub fn cstr(path: &[u8]) -> (r: Result<Vec<u8>, Error>)
    ensures
        !has_nul(path@) ==> (r matches Ok(v) && v@ == c_string_of(path@)),
        has_nul(path@) ==> (r matches Err(e) && is_path_nul_error(e)),
{
    match to_c_string(path) {
        Some(v) => Ok(v),
        None => {
            let message = "path contains a NUL byte";
            proof {
                reveal_strlit("path contains a NUL byte");
            }
            Err(Error::Simple { kind: ErrorKind::InvalidInput, message })
        },
    }
}

/// Reading back a C string written from NUL-free bytes gives those bytes:
/// the part of `c_string_of(s)` before its first NUL is `s`.
pub proof fn lemma_c_string_roundtrip(s: Seq<u8>)
    requires
        !has_nul(s),
    ensures
        is_until_nul(c_string_of(s), s),
{
    let c = c_string_of(s);
    assert(c.take(s.len() as int) =~= s);
    assert(c[s.len() as int] == 0);
}

} // verus!
