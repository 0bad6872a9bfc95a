use vstd::prelude::*;

verus! {

/// Every failure the digest core can surface to its caller.
///
/// `OpenFailed` and `MapFailed` arise when the file cannot be opened or
/// memory-mapped; `ComputationLost` when a dispatched background computation
/// was torn down before it delivered a result; `AlgorithmFailure` when a
/// digest worker failed, in which case no partial record is ever exposed.
#[derive(Clone, Copy, Debug, PartialEq, Eq, Structural)]
pub enum DigestError {
    OpenFailed,
    MapFailed,
    ComputationLost,
    AlgorithmFailure,
}

impl DigestError {
    /// What `message` returns for each variant.
    pub open spec fn message_spec(self) -> Seq<char> {
        match self {
            DigestError::OpenFailed => "the file could not be opened for reading"@,
            DigestError::MapFailed => "the file could not be memory-mapped"@,
            DigestError::ComputationLost => "the background digest computation was lost"@,
            DigestError::AlgorithmFailure => "a digest worker failed to produce its output"@,
        }
    }

    /// A human-readable description of the failure.
    pub fn message(&self) -> (r: &'static str)
        ensures
            r@ == self.message_spec(),
    {
        match self {
            DigestError::OpenFailed => "the file could not be opened for reading",
            DigestError::MapFailed => "the file could not be memory-mapped",
            DigestError::ComputationLost => "the background digest computation was lost",
            DigestError::AlgorithmFailure => "a digest worker failed to produce its output",
        }
    }
}

} // verus!
