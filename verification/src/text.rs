//! Byte-level text helpers: building prefixed report lines, and the
//! permissive decoding applied to child-process output before printing.

use vstd::prelude::*;
use vstd::string::StrSliceExecFns;
use vstd::string::StringSliceAdditionalSpecFns;

verus! {

/// The bytes printed for `bytes` after permissive text decoding: invalid
/// sequences are replaced, never rejected.
pub uninterp spec fn lossy_utf8_of(bytes: Seq<u8>) -> Seq<u8>;

/// Relies on String::from_utf8_lossy: the decoding depends on the bytes
/// alone; invalid sequences are replaced with the replacement character,
/// and well-formed text — all text of bytes below 0x80 is — passes through
/// unchanged.
#[verifier::external_body]
pub(crate) fn decode_lossy(bytes: &Vec<u8>) -> (text: Vec<u8>)
    ensures
        text@ == lossy_utf8_of(bytes@),
        bytes@.len() == 0 ==> text@.len() == 0,
        (forall|i: int| 0 <= i < bytes@.len() ==> bytes@[i] < 0x80) ==> text@ == bytes@,
{
    String::from_utf8_lossy(bytes).into_owned().into_bytes()
}

/// Build one report line: a fixed prefix followed by the given bytes.
pub fn prefixed_line(prefix: &str, body: &Vec<u8>) -> (line: Vec<u8>)
    ensures
        line@ == prefix.spec_bytes() + body@,
{
    let mut line = prefix.as_bytes_vec();
    let mut i: usize = 0;
    while i < body.len()
        invariant
            i <= body@.len(),
            line@ == prefix.spec_bytes() + body@.subrange(0, i as int),
        decreases body@.len() - i,
    {
        line.push(body[i]);
        proof {
            assert((prefix.spec_bytes() + body@.subrange(0, i as int)).push(body@[i as int])
                =~= prefix.spec_bytes() + body@.subrange(0, i as int + 1));
        }
        i = i + 1;
    }
    proof {
        assert(body@.subrange(0, body@.len() as int) =~= body@);
    }
    line
}

} // verus!
