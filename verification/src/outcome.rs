//! What hashing one file gives: a digest with the number of bytes it stands for, or the
//! reason why there is none.

use vstd::prelude::*;
use vstd::string::*;

verus! {

/// Why a file has no digest.
#[derive(Debug)]
pub enum HashError {
    /// The file is larger than the full-load limit and the algorithm cannot hash it chunk
    /// by chunk.
    StreamingUnsupported,
    /// The input is longer than the algorithms accept.
    InputTooLong,
    /// The file could not be opened or read; `message` is what the operating system said.
    Io { message: String },
}

/// The digest of one file.
#[derive(Debug)]
pub struct FileDigest {
    /// The digest in lowercase hexadecimal.
    pub digest: String,
    /// The size of the file, in bytes, as found when it was opened.
    pub bytes_hashed: u64,
}

/// What a `FileDigest` holds, with the digest as a sequence of characters.
pub struct DigestView {
    pub digest: Seq<char>,
    pub bytes_hashed: u64,
}

impl View for FileDigest {
    type V = DigestView;

    open spec fn view(&self) -> DigestView {
        DigestView { digest: self.digest@, bytes_hashed: self.bytes_hashed }
    }
}

/// The outcome of hashing one file.
pub type HashResult = Result<FileDigest, HashError>;

/// An outcome with its digest, if it has one, as a sequence of characters.
pub open spec fn outcome_view(outcome: HashResult) -> Result<DigestView, HashError> {
    match outcome {
        Ok(digest) => Ok(digest@),
        Err(error) => Err(error),
    }
}

impl HashError {
    /// The text that a manifest shows for the error.
    pub open spec fn spec_message(self) -> Seq<char> {
        match self {
            HashError::StreamingUnsupported =>
                "City128 does not support streaming. Increase --full-load-limit or choose another algorithm."@,
            HashError::InputTooLong => "the input is too long for the digest algorithms"@,
            HashError::Io { message } => message@,
        }
    }

    /// The text that a manifest shows for the error.
    pub fn message(&self) -> (text: String)
        ensures
            text@ == self.spec_message(),
    {
        match self {
            HashError::StreamingUnsupported => String::from_str(
                "City128 does not support streaming. Increase --full-load-limit or choose another algorithm.",
            ),
            HashError::InputTooLong => String::from_str(
                "the input is too long for the digest algorithms",
            ),
            HashError::Io { message } => message.clone(),
        }
    }
}

} // verus!
