use vstd::prelude::*;

use crate::hashes::{md5_digest, sha1_digest, sha512_digest};
use crate::record::DigestRecord;

verus! {

/// Computes all three digests over one immutable byte view and joins them
/// into a single record. Every input byte sequence is accepted, the empty
/// one included, and the result is exactly the standard digests of it; the
/// workers share the view read-only, so the order in which they run never
/// changes the record.
pub fn compute_digests(bytes: &[u8]) -> (r: DigestRecord)
    ensures
        r.wf(),
        r@.is_digests_of(bytes@),
{
    let md5 = md5_digest(bytes);
    let sha1 = sha1_digest(bytes);
    let sha512 = sha512_digest(bytes);
    let joined = DigestRecord::assemble(md5, sha1, sha512);
    joined.unwrap()
}

} // verus!
