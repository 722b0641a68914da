//! The library's error type.

use vstd::prelude::*;
use vstd::string::*;

verus! {

/// An error raised by the library.
#[derive(Debug, PartialEq, Eq)]
pub enum ObfuscatorError {
    /// The protection primitive failed to encrypt or to authenticate.
    EncryptionError,
    /// A path that was expected to name a Rust source file does not.
    InvalidFileExtension { path: String },
}

impl ObfuscatorError {
    /// The characters of the human-readable description of this error.
    pub open spec fn message_spec(&self) -> Seq<char> {
        match self {
            ObfuscatorError::EncryptionError => "Encryption failed :("@,
            ObfuscatorError::InvalidFileExtension { path } => "Invalid file extension for: "@
                + path@,
        }
    }

    /// A human-readable description of this error.
    pub fn message(&self) -> (r: String)
        ensures
            r@ == self.message_spec(),
    {
        match self {
            ObfuscatorError::EncryptionError => "Encryption failed :(".to_owned(),
            ObfuscatorError::InvalidFileExtension { path } => {
                "Invalid file extension for: ".to_owned().concat(path.as_str())
            },
        }
    }
}

} // verus!
