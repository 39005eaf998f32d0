use vstd::prelude::*;
use vstd::string::StringSliceAdditionalSpecFns;

verus! {

/// Whether a byte string holds a NUL byte.
pub open spec fn has_nul(b: Seq<u8>) -> bool {
    exists|i: int| 0 <= i < b.len() && b[i] == 0
}

/// The NUL-terminated bytes that the engine's string primitive reads for the
/// UTF-8 text `b`, when `b` holds no NUL of its own; nothing otherwise.
pub open spec fn c_text_of(b: Seq<u8>) -> Option<Seq<u8>> {
    if has_nul(b) {
        None
    } else {
        Some(b.push(0))
    }
}

/// Whether text holds a NUL byte, which the engine's string primitive cannot
/// take: such text is a fatal error for every engine string made from it.
pub fn holds_nul(s: &str) -> (r: bool)
    ensures
        r == has_nul(s.spec_bytes()),
{
    let b = s.as_bytes();
    let mut i: usize = 0;
    while i < b.len()
        invariant
            b@ == s.spec_bytes(),
            i <= b@.len(),
            forall|j: int| 0 <= j < i ==> b@[j] != 0,
        decreases b@.len() - i,
    {
        if b[i] == 0 {
            return true;
        }
        i = i + 1;
    }
    false
}

/// Encodes text for the engine's string primitive: its UTF-8 bytes followed
/// by one terminating NUL.
pub fn c_text(s: &str) -> (r: Vec<u8>)
    requires
        !has_nul(s.spec_bytes()),
    ensures
        Some(r@) == c_text_of(s.spec_bytes()),
{
    let b = s.as_bytes();
    let mut out: Vec<u8> = Vec::new();
    let mut i: usize = 0;
    while i < b.len()
        invariant
            b@ == s.spec_bytes(),
            i <= b@.len(),
            out@ == b@.subrange(0, i as int),
        decreases b@.len() - i,
    {
        out.push(b[i]);
        i = i + 1;
        assert(out@ == b@.subrange(0, i as int));
    }
    assert(out@ == b@);
    out.push(0);
    out
}

} // verus!
