use vstd::prelude::*;

use crate::errors::DigestError;
use crate::record::{DigestRecord, DigestRecordView};

verus! {

/// What the one-shot delivery from the background fanout yielded.
pub enum Delivery {
    /// The fanout completed and sent this record.
    Completed(DigestRecord),
    /// The sending side was torn down before any record arrived.
    Lost,
}

/// Progress of the digest computation bound to one handle.
#[derive(Debug)]
pub enum DigestState {
    /// Dispatched at construction; no result has been consumed yet.
    Pending,
    /// Consumed once; the record is cached here for every later retrieval.
    Ready(DigestRecord),
}

/// How opening and mapping the file behind a handle went. The caller that
/// performs the I/O reports the outcome here as a plain value.
#[derive(Clone, Copy, Debug, PartialEq, Eq, Structural)]
pub enum MappingOutcome {
    /// The file was opened and its byte view established.
    Mapped,
    /// The file could not be opened for reading.
    OpenFailed,
    /// The file opened, but the memory mapping could not be established.
    MapFailed,
}

/// The identifying metadata of a handle: the path and the declared values
/// that the caller passed through, none of them computed here.
#[verifier::ext_equal]
pub ghost struct HandleMeta {
    pub path: Seq<char>,
    pub mime: Seq<char>,
    pub width: Option<u64>,
    pub height: Option<u64>,
    pub duration_in_ms: Option<u64>,
    pub num_frames: Option<u64>,
}

/// A caller-held object bound to one opened and mapped file. Construction is
/// atomic with dispatch: a handle always starts with its digest computation
/// pending, and at most one computation is ever outstanding per handle. Once
/// a result has been consumed it is cached, and every later retrieval returns
/// the cached record without touching the delivery again.
///
/// Further background computations (a perceptual hash, a pixel hash, a
/// thumbnail) are meant to plug into the same pending/ready pattern, each
/// with its own one-shot delivery consumed at most once; the handle reserves
/// no behavior for them here.
#[derive(Debug)]
pub struct FileHandle {
    path: String,
    mime: String,
    width: Option<u64>,
    height: Option<u64>,
    duration_in_ms: Option<u64>,
    num_frames: Option<u64>,
    state: DigestState,
}

impl FileHandle {
    /// The handle's identifying metadata.
    pub closed spec fn meta(self) -> HandleMeta {
        HandleMeta {
            path: self.path@,
            mime: self.mime@,
            width: self.width,
            height: self.height,
            duration_in_ms: self.duration_in_ms,
            num_frames: self.num_frames,
        }
    }

    /// A record has been consumed and cached.
    pub closed spec fn is_ready(self) -> bool {
        self.state is Ready
    }

    /// The digest computation has been dispatched and not yet consumed: the
    /// handle is always in exactly one of the two states.
    pub open spec fn is_pending(self) -> bool {
        !self.is_ready()
    }

    /// The cached record's content.
    pub closed spec fn cached(self) -> DigestRecordView
        recommends
            self.is_ready(),
    {
        self.state->Ready_0@
    }

    /// A cached record always has the three fixed widths.
    pub open spec fn wf(self) -> bool {
        self.is_ready() ==> self.cached().wf()
    }

    /// Builds the handle for an opened and mapped file, or surfaces the I/O
    /// failure. Success comes exactly when the mapping was established, and
    /// the new handle starts with its computation pending — a caller never
    /// observes a handle with nothing dispatched, and a failed open or map
    /// never yields a handle at all.
    pub fn create(
        outcome: MappingOutcome,
        path: String,
        mime: String,
        width: Option<u64>,
        height: Option<u64>,
        duration_in_ms: Option<u64>,
        num_frames: Option<u64>,
    ) -> (r: Result<FileHandle, DigestError>)
        ensures
            r is Ok <==> outcome is Mapped,
            outcome is OpenFailed ==> r == Err::<FileHandle, DigestError>(DigestError::OpenFailed),
            outcome is MapFailed ==> r == Err::<FileHandle, DigestError>(DigestError::MapFailed),
            r matches Ok(h) ==> h.is_pending() && h.wf() && h.meta() == (HandleMeta {
                path: path@,
                mime: mime@,
                width: width,
                height: height,
                duration_in_ms: duration_in_ms,
                num_frames: num_frames,
            }),
    {
        match outcome {
            MappingOutcome::Mapped => Ok(
                FileHandle {
                    path,
                    mime,
                    width,
                    height,
                    duration_in_ms,
                    num_frames,
                    state: DigestState::Pending,
                },
            ),
            MappingOutcome::OpenFailed => Err(DigestError::OpenFailed),
            MappingOutcome::MapFailed => Err(DigestError::MapFailed),
        }
    }

    /// The computation is still pending, so the next retrieval must consume
    /// the one-shot delivery.
    pub fn needs_result(&self) -> (b: bool)
        ensures
            b == self.is_pending(),
    {
        match self.state {
            DigestState::Pending => true,
            DigestState::Ready(_) => false,
        }
    }

    /// What `retrieve_digests` does to the handle and returns, for each
    /// delivery: a completed well-formed record is cached and returned; a
    /// record of the wrong widths is a worker failure and yields nothing; a
    /// lost delivery is the distinct lifecycle fault; and with no delivery to
    /// consume the cached record is returned bit-identically, the handle
    /// untouched.
    pub open spec fn retrieve_post(
        pre: FileHandle,
        post: FileHandle,
        delivery: Option<Delivery>,
        r: Result<DigestRecord, DigestError>,
    ) -> bool {
        match delivery {
            Some(Delivery::Completed(rec)) => if rec.wf() {
                &&& post.is_ready()
                &&& post.cached() == rec@
                &&& r matches Ok(out) && out@ == rec@
            } else {
                &&& post == pre
                &&& r == Err::<DigestRecord, DigestError>(DigestError::AlgorithmFailure)
            },
            Some(Delivery::Lost) => {
                &&& post == pre
                &&& r == Err::<DigestRecord, DigestError>(DigestError::ComputationLost)
            },
            None => {
                &&& post == pre
                &&& r matches Ok(out) && out@ == pre.cached()
            },
        }
    }

    /// Retrieves the digest record. While the computation is pending the
    /// caller hands in the one-shot delivery it consumed, exactly once; once
    /// a record is cached the call is idempotent: it takes no delivery,
    /// dispatches nothing, changes nothing, and returns the cached record
    /// bit for bit.
    pub fn retrieve_digests(&mut self, delivery: Option<Delivery>) -> (r: Result<
        DigestRecord,
        DigestError,
    >)
        requires
            old(self).wf(),
            old(self).is_pending() <==> delivery is Some,
        ensures
            final(self).wf(),
            final(self).meta() == old(self).meta(),
            Self::retrieve_post(*old(self), *final(self), delivery, r),
    {
        match delivery {
            Some(Delivery::Completed(rec)) => {
                if rec.check_well_formed() {
                    let out = rec.duplicate();
                    self.state = DigestState::Ready(rec);
                    Ok(out)
                } else {
                    Err(DigestError::AlgorithmFailure)
                }
            },
            Some(Delivery::Lost) => Err(DigestError::ComputationLost),
            None => {
                match &self.state {
                    DigestState::Ready(rec) => Ok(rec.duplicate()),
                    DigestState::Pending => {
                        proof {
                            assert(false);
                        }
                        Err(DigestError::ComputationLost)
                    },
                }
            },
        }
    }

    /// The cached record, if a retrieval has completed already.
    pub fn cached_record(&self) -> (r: Option<&DigestRecord>)
        ensures
            r is Some <==> self.is_ready(),
            r matches Some(rec) ==> rec@ == self.cached(),
    {
        match &self.state {
            DigestState::Ready(rec) => Some(rec),
            DigestState::Pending => None,
        }
    }

    /// The path the file was opened from.
    pub fn path(&self) -> (r: &String)
        ensures
            r@ == self.meta().path,
    {
        &self.path
    }

    /// The declared MIME type, passed through unexamined.
    pub fn mime(&self) -> (r: &String)
        ensures
            r@ == self.meta().mime,
    {
        &self.mime
    }

    /// The declared width, passed through unexamined.
    pub fn width(&self) -> (r: Option<u64>)
        ensures
            r == self.meta().width,
    {
        self.width
    }

    /// The declared height, passed through unexamined.
    pub fn height(&self) -> (r: Option<u64>)
        ensures
            r == self.meta().height,
    {
        self.height
    }

    /// The declared duration in milliseconds, passed through unexamined.
    pub fn duration_in_ms(&self) -> (r: Option<u64>)
        ensures
            r == self.meta().duration_in_ms,
    {
        self.duration_in_ms
    }

    /// The declared number of frames, passed through unexamined.
    pub fn num_frames(&self) -> (r: Option<u64>)
        ensures
            r == self.meta().num_frames,
    {
        self.num_frames
    }
}

} // verus!
