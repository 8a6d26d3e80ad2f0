//! The closed set of failures reported by every layer of the reader.

use vstd::prelude::*;

verus! {

/// Low-level faults of reading the archive image or a decoded stream.
#[derive(Clone, Copy, Debug, PartialEq, Eq)]
pub enum IoFault {
    /// A read ran past the end of the available bytes.
    UnexpectedEof,
    /// A repositioning request fell outside the stream.
    InvalidSeek,
    /// The DEFLATE engine rejected the compressed bytes.
    CorruptDeflate,
    /// The stream does not support the requested operation.
    Unsupported,
}

#[derive(Clone, Copy, Debug, PartialEq, Eq)]
pub enum ZipError {
    Io(IoFault),
    InvalidArchive(&'static str),
    UnsupportedArchive,
    UnsupportedAesExtraData,
    UnsupportedCompressionMethod(u16),
    FileNotFound,
}

pub type ZipResult<T> = Result<T, ZipError>;

impl ZipError {
    /// A human-readable description of the failure.
    pub fn message(&self) -> &'static str {
        match self {
            ZipError::Io(IoFault::UnexpectedEof) => "failed to fill whole buffer",
            ZipError::Io(IoFault::InvalidSeek) => "Invalid seek input",
            ZipError::Io(IoFault::CorruptDeflate) => "corrupt deflate stream",
            ZipError::Io(IoFault::Unsupported) => "operation not supported",
            ZipError::InvalidArchive(m) => m,
            ZipError::UnsupportedArchive => "Support for multi - disk files is not implemented",
            ZipError::UnsupportedAesExtraData => "AES extra data field has an unsupported length",
            ZipError::UnsupportedCompressionMethod(_) => "UnsupportedCompressionMethod",
            ZipError::FileNotFound => "FileNotFound",
        }
    }
}

/// The error of a read past the end of the available bytes.
pub open spec fn eof_error() -> ZipError {
    ZipError::Io(IoFault::UnexpectedEof)
}

} // verus!
