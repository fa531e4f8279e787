//! The failure taxonomy of the install pipeline, with a distinct non-zero
//! exit code and a one-line message for each kind of failure.

use vstd::prelude::*;

verus! {

/// Everything that can go wrong during an install, one variant per stage.
#[derive(Clone, Copy, Debug, PartialEq, Eq, Structural)]
pub enum InstallError {
    /// The user's home directory could not be discovered.
    NoHomeDirectory,
    /// The install directory could not be created.
    DirectoryCreationFailed,
    /// The download request could not be completed (connection, DNS, timeout).
    NetworkError,
    /// The server answered, but not with the archive (non-success status).
    RemoteArchiveUnavailable,
    /// The downloaded bytes are not a well-formed gzip stream.
    DecompressionFailed,
    /// The decompressed archive could not be written to disk.
    FileWriteFailed,
    /// The archive container could not be unpacked into the install directory.
    UnpackFailed,
}

/// The process exit code reported for each failure.
pub open spec fn exit_code_of(error: InstallError) -> u8 {
    match error {
        InstallError::NoHomeDirectory => 1,
        InstallError::DirectoryCreationFailed => 2,
        InstallError::NetworkError => 3,
        InstallError::RemoteArchiveUnavailable => 4,
        InstallError::DecompressionFailed => 5,
        InstallError::FileWriteFailed => 6,
        InstallError::UnpackFailed => 7,
    }
}

/// The one-line message reported for each failure.
pub open spec fn message_of(error: InstallError) -> Seq<char> {
    match error {
        InstallError::NoHomeDirectory => "No Home Directory Found"@,
        InstallError::DirectoryCreationFailed => "Could not create the install directory"@,
        InstallError::NetworkError => "Could not reach the distribution server"@,
        InstallError::RemoteArchiveUnavailable => "The server did not provide the archive"@,
        InstallError::DecompressionFailed => "The downloaded archive is not valid gzip data"@,
        InstallError::FileWriteFailed => "Could not write the archive to disk"@,
        InstallError::UnpackFailed => "Could not unpack the archive"@,
    }
}

impl InstallError {
    /// The exit code for this failure.
    pub fn exit_code(&self) -> (code: u8)
        ensures
            code == exit_code_of(*self),
            code != 0,
    {
        match self {
            InstallError::NoHomeDirectory => 1,
            InstallError::DirectoryCreationFailed => 2,
            InstallError::NetworkError => 3,
            InstallError::RemoteArchiveUnavailable => 4,
            InstallError::DecompressionFailed => 5,
            InstallError::FileWriteFailed => 6,
            InstallError::UnpackFailed => 7,
        }
    }

    /// The message for this failure.
    pub fn message(&self) -> (text: String)
        ensures
            text@ == message_of(*self),
    {
        let text = match self {
            InstallError::NoHomeDirectory => "No Home Directory Found",
            InstallError::DirectoryCreationFailed => "Could not create the install directory",
            InstallError::NetworkError => "Could not reach the distribution server",
            InstallError::RemoteArchiveUnavailable => "The server did not provide the archive",
            InstallError::DecompressionFailed => "The downloaded archive is not valid gzip data",
            InstallError::FileWriteFailed => "Could not write the archive to disk",
            InstallError::UnpackFailed => "Could not unpack the archive",
        };
        text.to_owned()
    }
}

/// Exit codes are non-zero and distinct: two failures with the same exit code
/// are the same failure.
pub proof fn lemma_exit_codes_distinct(a: InstallError, b: InstallError)
    ensures
        exit_code_of(a) != 0,
        exit_code_of(a) == exit_code_of(b) ==> a == b,
{
}

} // verus!
