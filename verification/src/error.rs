use vstd::prelude::*;

verus! {

/// Why the codec gave up on a stream. After any of these the reader or
/// writer that reported it must not be used further.
#[derive(Debug, Clone, Copy, PartialEq, Eq, Structural)]
pub enum EncryptedFileError {
    /// The magic byte does not fit the block counter.
    InvalidHeader,
    /// The source ended in the middle of a block.
    InvalidChunk,
    /// The block names a version or variant other than the one implemented.
    UnsupportedVariant,
    /// The block is not where its counter says it belongs.
    InvalidBlockCounter,
    /// The authentication tag does not fit: wrong passphrase or altered bytes.
    KeyError,
    /// The block counter of the sub-stream cannot grow any further.
    Exhausted,
    /// A seek would land before the start, or beyond what a position can hold.
    InvalidInput,
}

impl EncryptedFileError {
    pub open spec fn spec_message(self) -> Seq<char> {
        match self {
            EncryptedFileError::InvalidHeader => "Invalid Header"@,
            EncryptedFileError::InvalidChunk => "Invalid Chunk"@,
            EncryptedFileError::UnsupportedVariant => "Unsupported Variant"@,
            EncryptedFileError::InvalidBlockCounter => "Invalid Block Counter"@,
            EncryptedFileError::KeyError => "Key Error"@,
            EncryptedFileError::Exhausted => "Reached maximum bytes in stream"@,
            EncryptedFileError::InvalidInput => "Seek before start of file"@,
        }
    }

    /// The text shown for the error.
    pub fn message(&self) -> (s: &'static str)
        ensures
            s@ == self.spec_message(),
    {
        match self {
            EncryptedFileError::InvalidHeader => "Invalid Header",
            EncryptedFileError::InvalidChunk => "Invalid Chunk",
            EncryptedFileError::UnsupportedVariant => "Unsupported Variant",
            EncryptedFileError::InvalidBlockCounter => "Invalid Block Counter",
            EncryptedFileError::KeyError => "Key Error",
            EncryptedFileError::Exhausted => "Reached maximum bytes in stream",
            EncryptedFileError::InvalidInput => "Seek before start of file",
        }
    }
}

} // verus!
