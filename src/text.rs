use vstd::prelude::*;
use vstd::utf8::encode_utf8;

verus! {

pub open spec fn has_nul(b: Seq<u8>) -> bool {
    exists|i: int| 0 <= i < b.len() && b[i] == 0
}

/// The UTF-8 bytes of `s` for the runtime, which takes them NUL-terminated:
/// `None` when `s` holds a NUL.
pub fn nul_free_bytes(s: &str) -> (r: Option<Vec<u8>>)
    ensures
        r is None <==> has_nul(encode_utf8(s@)),
        r matches Some(v) ==> v@ == encode_utf8(s@),
{
    let bytes = s.as_bytes();
    let mut out: Vec<u8> = Vec::new();
    let mut i: usize = 0;
    while i < bytes.len()
        invariant
            bytes@ == encode_utf8(s@),
            i <= bytes@.len(),
            out@ == bytes@.subrange(0, i as int),
            !has_nul(out@),
        decreases bytes@.len() - i,
    {
        if bytes[i] == 0 {
            assert(bytes@[i as int] == 0);
            return None;
        }
        out.push(bytes[i]);
        i = i + 1;
        assert(out@ =~= bytes@.subrange(0, i as int));
    }
    assert(out@ =~= bytes@);
    Some(out)
}

} // verus!
