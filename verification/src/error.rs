//! Errors of TIFF encode and decode operations.
use vstd::prelude::*;

verus! {

/// `enough::StopReason`, carried opaquely in [`ZentiffError::Stopped`].
#[verifier::external_type_specification]
#[verifier::external_body]
pub struct ExStopReason(enough::StopReason);

/// `std::io::Error`, carried opaquely in [`ZentiffError::Io`].
#[verifier::external_type_specification]
#[verifier::external_body]
pub struct ExIoError(std::io::Error);

/// `zenpixels::BufferError`, carried opaquely in [`ZentiffError::Buffer`].
#[verifier::external_type_specification]
#[verifier::external_body]
pub struct ExBufferError(zenpixels::BufferError);

/// Errors from TIFF encode/decode operations.
#[derive(Debug)]
#[non_exhaustive]
pub enum ZentiffError {
    /// TIFF decoding error from the underlying tiff crate.
    Decode(String),
    /// TIFF encoding error from the underlying tiff crate.
    Encode(String),
    /// Invalid input (dimensions, buffer size, pixel format, etc.).
    InvalidInput(String),
    /// Unsupported TIFF feature (color type, compression, etc.).
    Unsupported(String),
    /// Resource limit exceeded.
    LimitExceeded(String),
    /// Operation stopped by cooperative cancellation.
    Stopped(enough::StopReason),
    /// I/O error.
    Io(std::io::Error),
    /// Pixel buffer error.
    Buffer(zenpixels::BufferError),
}

/// The kinds of failure of the `tiff` codec.
#[derive(Clone, Copy, Debug, PartialEq, Eq, Structural)]
pub enum CodecErrorKind {
    /// The file is malformed.
    Format,
    /// The file uses a feature the codec does not support.
    Unsupported,
    /// Reading or writing the bytes failed.
    Io,
    /// The decoder's own limits were exceeded.
    LimitsExceeded,
    /// A size does not fit in the platform's integers.
    IntSize,
    /// The codec was called in a way it does not allow.
    Usage,
}

/// A failure of the `tiff` codec: its kind, with the codec's text or I/O error.
#[derive(Debug)]
pub enum CodecError {
    Format(String),
    Unsupported(String),
    Io(std::io::Error),
    LimitsExceeded,
    IntSize,
    Usage(String),
}

impl CodecError {
    /// The kind of the failure.
    pub open spec fn kind(self) -> CodecErrorKind {
        match self {
            CodecError::Format(_) => CodecErrorKind::Format,
            CodecError::Unsupported(_) => CodecErrorKind::Unsupported,
            CodecError::Io(_) => CodecErrorKind::Io,
            CodecError::LimitsExceeded => CodecErrorKind::LimitsExceeded,
            CodecError::IntSize => CodecErrorKind::IntSize,
            CodecError::Usage(_) => CodecErrorKind::Usage,
        }
    }
}

/// How a codec failure of kind `k` is reported: malformed files as `Decode`, unsupported
/// features as `Unsupported`, I/O failures as `Io`, exceeded decoder limits and platform sizes
/// as `LimitExceeded`, usage errors as `InvalidInput`.
pub open spec fn codec_error_reported(k: CodecErrorKind, e: ZentiffError) -> bool {
    match k {
        CodecErrorKind::Format => e is Decode,
        CodecErrorKind::Unsupported => e is Unsupported,
        CodecErrorKind::Io => e is Io,
        CodecErrorKind::LimitsExceeded | CodecErrorKind::IntSize => e is LimitExceeded,
        CodecErrorKind::Usage => e is InvalidInput,
    }
}

/// Reports a codec failure as the library's error, keeping the codec's text or I/O error.
pub fn map_codec_error(e: CodecError) -> (r: ZentiffError)
    ensures
        codec_error_reported(e.kind(), r),
        e matches CodecError::Format(t) ==> r == ZentiffError::Decode(t),
        e matches CodecError::Unsupported(t) ==> r == ZentiffError::Unsupported(t),
        e matches CodecError::Io(io) ==> r == ZentiffError::Io(io),
        e matches CodecError::Usage(t) ==> r == ZentiffError::InvalidInput(t),
{
    match e {
        CodecError::Format(t) => ZentiffError::Decode(t),
        CodecError::Unsupported(t) => ZentiffError::Unsupported(t),
        CodecError::Io(io) => ZentiffError::Io(io),
        CodecError::LimitsExceeded => ZentiffError::LimitExceeded(String::from_str("tiff decoder limits exceeded")),
        CodecError::IntSize => ZentiffError::LimitExceeded(String::from_str("image dimensions exceed platform limits")),
        CodecError::Usage(t) => ZentiffError::InvalidInput(t),
    }
}

} // verus!
