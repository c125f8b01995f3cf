//! Failure classes of an archiving run.

use vstd::prelude::*;

verus! {

/// Why a run did not produce a container.
#[derive(Clone, Copy, Debug, PartialEq, Eq, Structural)]
pub enum ArchiveError {
    /// The source file could not be opened or read.
    SourceUnavailable,
    /// The destination file could not be created.
    DestinationUnavailable,
    /// Writing an entry or sealing the container failed.
    WriteFailed,
    /// A line of user input could not be read.
    InputReadFailed,
}

impl ArchiveError {
    /// A fatal error aborts the process at once; every other error is
    /// reported once at the top level and ends the run.
    pub open spec fn fatal(self) -> bool {
        self is InputReadFailed
    }

    /// The diagnostic text of each class.
    pub open spec fn text(self) -> Seq<char> {
        match self {
            ArchiveError::SourceUnavailable => "source file could not be read"@,
            ArchiveError::DestinationUnavailable => "destination file could not be created"@,
            ArchiveError::WriteFailed => "container could not be written"@,
            ArchiveError::InputReadFailed => "input line could not be read"@,
        }
    }

    /// Whether the process is to abort on this error.
    pub fn is_fatal(&self) -> (r: bool)
        ensures
            r == self.fatal(),
    {
        match self {
            ArchiveError::InputReadFailed => true,
            _ => false,
        }
    }

    /// One line of text for the user.
    pub fn describe(&self) -> (r: &'static str)
        ensures
            r@ == self.text(),
    {
        match self {
            ArchiveError::SourceUnavailable => "source file could not be read",
            ArchiveError::DestinationUnavailable => "destination file could not be created",
            ArchiveError::WriteFailed => "container could not be written",
            ArchiveError::InputReadFailed => "input line could not be read",
        }
    }
}

} // verus!
