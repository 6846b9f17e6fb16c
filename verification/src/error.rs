//! Error taxonomy of the capture pipeline.

use vstd::prelude::*;

verus! {

/// Outcome classes of a shared-memory system call, as the allocator's retry
/// rules distinguish them.  `Other` carries the raw error number.
#[derive(Clone, Copy, Debug, PartialEq, Eq, Structural)]
pub enum ShmErrno {
    /// The call was interrupted before it could complete; retrying is safe.
    Interrupted,
    /// The facility does not exist on this platform.
    Unavailable,
    /// An object with the requested name already exists.
    AlreadyExists,
    /// Any other failure, by error number.
    Other(i32),
}

/// A fatal failure of the capture pipeline.  Every variant aborts the
/// in-flight capture session.
#[derive(Clone, Copy, Debug, PartialEq, Eq, Structural)]
pub enum CaptureError {
    /// The display server could not be reached.
    Connection,
    /// A required protocol interface was not advertised.
    MissingGlobal,
    /// The server advertised no output to capture.
    NoOutputAvailable,
    /// None of the advertised pixel layouts is supported.
    UnsupportedFormat,
    /// The server reported that the frame copy failed.
    CaptureFailed,
    /// Both shared-memory strategies were exhausted.
    Allocation(ShmErrno),
    /// The encoder rejected the normalized buffer.
    Encode,
    /// Writing the encoded stream failed.
    Io,
}

impl CaptureError {
    /// The diagnostic text of this error.
    pub open spec fn spec_message(self) -> Seq<char> {
        match self {
            CaptureError::Connection => "cannot reach the display server"@,
            CaptureError::MissingGlobal => "required protocol interface not advertised"@,
            CaptureError::NoOutputAvailable => "compositor did not advertise an output"@,
            CaptureError::UnsupportedFormat => "no suitable frame format found"@,
            CaptureError::CaptureFailed => "frame copy failed"@,
            CaptureError::Allocation(_) => "shared memory allocation failed"@,
            CaptureError::Encode => "encoding the frame failed"@,
            CaptureError::Io => "writing the image failed"@,
        }
    }

    /// A human-readable diagnostic for this error.
    pub fn message(&self) -> (r: String)
        ensures
            r@ == self.spec_message(),
    {
        match self {
            CaptureError::Connection => "cannot reach the display server".to_owned(),
            CaptureError::MissingGlobal => "required protocol interface not advertised".to_owned(),
            CaptureError::NoOutputAvailable => "compositor did not advertise an output".to_owned(),
            CaptureError::UnsupportedFormat => "no suitable frame format found".to_owned(),
            CaptureError::CaptureFailed => "frame copy failed".to_owned(),
            CaptureError::Allocation(_) => "shared memory allocation failed".to_owned(),
            CaptureError::Encode => "encoding the frame failed".to_owned(),
            CaptureError::Io => "writing the image failed".to_owned(),
        }
    }
}

} // verus!
