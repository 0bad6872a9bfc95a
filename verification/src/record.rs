use vstd::prelude::*;

use crate::errors::DigestError;
use crate::hashes::{md5_of, sha1_of, sha512_of, MD5_LEN, SHA1_LEN, SHA512_LEN};

verus! {

/// The mathematical content of a `DigestRecord`: the three digests as plain
/// byte sequences.
#[verifier::ext_equal]
pub ghost struct DigestRecordView {
    pub md5: Seq<u8>,
    pub sha1: Seq<u8>,
    pub sha512: Seq<u8>,
}

impl DigestRecordView {
    /// Each digest has exactly its algorithm's fixed width.
    pub open spec fn wf(self) -> bool {
        &&& self.md5.len() == MD5_LEN
        &&& self.sha1.len() == SHA1_LEN
        &&& self.sha512.len() == SHA512_LEN
    }

    /// The record that a fanout over `bytes` must produce: all three standard
    /// digests of exactly those bytes.
    pub open spec fn is_digests_of(self, bytes: Seq<u8>) -> bool {
        &&& self.md5 == md5_of(bytes)
        &&& self.sha1 == sha1_of(bytes)
        &&& self.sha512 == sha512_of(bytes)
    }
}

/// The combined result of one fanout computation: three fixed-width digests,
/// immutable once populated. A record is either entirely absent or entirely
/// complete; no partial record is ever observable.
#[derive(Debug)]
pub struct DigestRecord {
    md5: Vec<u8>,
    sha1: Vec<u8>,
    sha512: Vec<u8>,
}

impl View for DigestRecord {
    type V = DigestRecordView;

    closed spec fn view(&self) -> DigestRecordView {
        DigestRecordView { md5: self.md5@, sha1: self.sha1@, sha512: self.sha512@ }
    }
}

/// A byte-for-byte copy of a vector.
fn copy_bytes(v: &Vec<u8>) -> (r: Vec<u8>)
    ensures
        r@ == v@,
{
    let mut out: Vec<u8> = Vec::new();
    let mut i: usize = 0;
    while i < v.len()
        invariant
            i <= v.len(),
            out@ == v@.subrange(0, i as int),
        decreases v.len() - i,
    {
        out.push(v[i]);
        proof {
            assert(out@ =~= v@.subrange(0, i + 1 as int));
        }
        i = i + 1;
    }
    proof {
        assert(out@ =~= v@);
    }
    out
}

impl DigestRecord {
    /// The three widths are exactly those of the algorithms.
    pub open spec fn wf(self) -> bool {
        self@.wf()
    }

    /// Joins the three workers' outputs into one record. The join succeeds
    /// exactly when every output has its algorithm's width; a wrong width is
    /// a worker failure, and no partial record is produced.
    pub fn assemble(md5: Vec<u8>, sha1: Vec<u8>, sha512: Vec<u8>) -> (r: Result<
        DigestRecord,
        DigestError,
    >)
        ensures
            r is Ok <==> (md5@.len() == MD5_LEN && sha1@.len() == SHA1_LEN && sha512@.len()
                == SHA512_LEN),
            r matches Ok(rec) ==> rec@ == (DigestRecordView {
                md5: md5@,
                sha1: sha1@,
                sha512: sha512@,
            }),
            r is Err ==> r == Err::<DigestRecord, DigestError>(DigestError::AlgorithmFailure),
    {
        if md5.len() == MD5_LEN && sha1.len() == SHA1_LEN && sha512.len() == SHA512_LEN {
            Ok(DigestRecord { md5, sha1, sha512 })
        } else {
            Err(DigestError::AlgorithmFailure)
        }
    }

    /// Whether the record carries digests of the fixed widths.
    pub fn check_well_formed(&self) -> (b: bool)
        ensures
            b == self.wf(),
    {
        self.md5.len() == MD5_LEN && self.sha1.len() == SHA1_LEN && self.sha512.len() == SHA512_LEN
    }

    /// The 16-byte MD5 digest.
    pub fn md5_bytes(&self) -> (r: &Vec<u8>)
        ensures
            r@ == self@.md5,
    {
        &self.md5
    }

    /// The 20-byte SHA-1 digest.
    pub fn sha1_bytes(&self) -> (r: &Vec<u8>)
        ensures
            r@ == self@.sha1,
    {
        &self.sha1
    }

    /// The 64-byte SHA-512 digest.
    pub fn sha512_bytes(&self) -> (r: &Vec<u8>)
        ensures
            r@ == self@.sha512,
    {
        &self.sha512
    }

    /// A copy of the record, identical bit for bit.
    pub fn duplicate(&self) -> (r: DigestRecord)
        ensures
            r@ == self@,
    {
        let r = DigestRecord {
            md5: copy_bytes(&self.md5),
            sha1: copy_bytes(&self.sha1),
            sha512: copy_bytes(&self.sha512),
        };
        proof {
            assert(r@ =~= self@);
        }
        r
    }
}

/// Two fanouts over the same byte view produce identical records, whatever
/// the interleaving of their workers and whichever handle requested them:
/// the record is a function of the bytes alone.
pub proof fn lemma_digests_deterministic(a: DigestRecordView, b: DigestRecordView, bytes: Seq<u8>)
    requires
        a.is_digests_of(bytes),
        b.is_digests_of(bytes),
    ensures
        a == b,
{
    assert(a =~= b);
}

} // verus!
