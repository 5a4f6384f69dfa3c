use vstd::prelude::*;

use crate::worker::VerifyOutcome;

verus! {

/// Each artifact file starts with a header of this many bytes, which is not
/// part of the serialized data.
pub const ARTIFACT_HEADER_LEN: usize = 32;

/// The serialized data of an artifact file: what follows its header, or
/// `None` when the file is too short to hold a header.
pub fn artifact_payload(bytes: &Vec<u8>) -> (r: Option<Vec<u8>>)
    ensures
        bytes@.len() < ARTIFACT_HEADER_LEN <==> r is None,
        r matches Some(p) ==> p@ == bytes@.subrange(ARTIFACT_HEADER_LEN as int, bytes@.len() as int),
{
    if bytes.len() < ARTIFACT_HEADER_LEN {
        return None;
    }
    let mut out: Vec<u8> = Vec::new();
    let mut i: usize = ARTIFACT_HEADER_LEN;
    while i < bytes.len()
        invariant
            ARTIFACT_HEADER_LEN <= i <= bytes@.len(),
            out@ == bytes@.subrange(ARTIFACT_HEADER_LEN as int, i as int),
        decreases bytes@.len() - i,
    {
        out.push(bytes[i]);
        i = i + 1;
        assert(out@ =~= bytes@.subrange(ARTIFACT_HEADER_LEN as int, i as int));
    }
    Some(out)
}

/// The outcome of one check: an artifact that could not be read or decoded
/// is an error, kept apart from a proof that was read and rejected.
pub fn verification_outcome(decoded: bool, accepted: bool) -> (r: VerifyOutcome)
    ensures
        !decoded ==> r is Error,
        decoded && accepted ==> r is Valid,
        decoded && !accepted ==> r is Invalid,
{
    if !decoded {
        VerifyOutcome::Error
    } else if accepted {
        VerifyOutcome::Valid
    } else {
        VerifyOutcome::Invalid
    }
}

} // verus!
