//! How saving and loading fail.

use vstd::prelude::*;

verus! {

/// Why a document could not be read.
#[derive(Debug, Clone, Copy, PartialEq, Eq, Structural)]
pub enum DecodeError {
    /// The text is not a well-formed document, or not a complete save.
    Malformed,
    /// The document is of a newer version than this library writes.
    UnsupportedVersion,
}

/// Why a request to save or load came to nothing.
#[derive(Debug, Clone, Copy, PartialEq, Eq, Structural)]
pub enum SaveError {
    /// The world does not hold exactly one player.
    MissingPlayer,
    /// There is no save under the slot's name.
    NoSuchSave,
    /// The save was found but could not be read as one.
    Decode(DecodeError),
    /// The directory or the file could not be created, read or written.
    IoFailure,
    /// The slot's name would lead outside the save directory.
    InvalidSlot,
}

impl DecodeError {
    /// A short description.
    pub fn message(&self) -> (r: &'static str)
        ensures
            r@ == match self {
                DecodeError::Malformed => "save file is malformed"@,
                DecodeError::UnsupportedVersion => "save file is from a newer version"@,
            },
    {
        match self {
            DecodeError::Malformed => "save file is malformed",
            DecodeError::UnsupportedVersion => "save file is from a newer version",
        }
    }
}

impl SaveError {
    /// A short description.
    pub fn message(&self) -> (r: &'static str)
        ensures
            r@ == match self {
                SaveError::MissingPlayer => "no single player found when saving game"@,
                SaveError::NoSuchSave => "save file does not exist"@,
                SaveError::Decode(inner) => match inner {
                    DecodeError::Malformed => "save file is malformed"@,
                    DecodeError::UnsupportedVersion => "save file is from a newer version"@,
                },
                SaveError::IoFailure => "save file could not be read or written"@,
                SaveError::InvalidSlot => "save name must not contain a path separator"@,
            },
    {
        match self {
            SaveError::MissingPlayer => "no single player found when saving game",
            SaveError::NoSuchSave => "save file does not exist",
            SaveError::Decode(inner) => inner.message(),
            SaveError::IoFailure => "save file could not be read or written",
            SaveError::InvalidSlot => "save name must not contain a path separator",
        }
    }
}

} // verus!
