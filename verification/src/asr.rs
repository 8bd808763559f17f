//! The speech recogniser's boundary types: which decoder head to run, the
//! errors that cross the boundary, and the check of a sample buffer's
//! length against the C API's `int` sample count.
use vstd::prelude::*;

verus! {

/// Which decoder head to run.
#[derive(Debug, Clone, Copy, PartialEq, Eq, Structural)]
pub enum Decoder {
    /// Pick by model architecture.
    Default,
    /// Force the CTC head.
    Ctc,
    /// Force the transducer head.
    Transducer,
}

impl Decoder {
    /// The C API's code for this decoder.
    pub open spec fn spec_code(self) -> i32 {
        match self {
            Decoder::Default => 0,
            Decoder::Ctc => 1,
            Decoder::Transducer => 2,
        }
    }

    /// The C API's code for this decoder: 0, 1 or 2.
    pub fn code(self) -> (c: i32)
        ensures
            c == self.spec_code(),
    {
        match self {
            Decoder::Default => 0,
            Decoder::Ctc => 1,
            Decoder::Transducer => 2,
        }
    }
}

/// Errors crossing the recogniser boundary.
#[derive(Debug, Clone, PartialEq, Eq)]
pub enum AsrError {
    /// The model path contained an interior NUL byte.
    InvalidPath,
    /// Loading failed; carries the model path attempted.
    LoadFailed(String),
    /// Transcription failed; carries the library's last error message.
    TranscribeFailed(String),
    /// The sample buffer is longer than an `int` sample count can say.
    TooManySamples(usize),
}

/// The sample count to hand the C API for a buffer of `len` samples:
/// an error when it does not fit an `int`, `None` for an empty buffer
/// (nothing to transcribe, no call is made), else the count itself.
pub fn ffi_sample_count(len: usize) -> (r: Result<Option<i32>, AsrError>)
    ensures
        len > i32::MAX ==> r == Err::<Option<i32>, AsrError>(AsrError::TooManySamples(len)),
        len == 0 ==> r == Ok::<Option<i32>, AsrError>(None),
        0 < len <= i32::MAX ==> r == Ok::<Option<i32>, AsrError>(Some(len as i32)),
{
    if len > 0x7fff_ffff {
        return Err(AsrError::TooManySamples(len));
    }
    if len == 0 {
        return Ok(None);
    }
    Ok(Some(len as i32))
}

} // verus!
