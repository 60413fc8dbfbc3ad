//! The library's errors: one variant per refusal, each with the category and
//! message that the transfer agent reports.
use vstd::prelude::*;

verus! {

/// How an error is reported: a bad configuration, an internal failure, or a
/// server that does not support what was asked.
#[derive(Clone, Copy, Debug, PartialEq, Eq, Structural)]
pub enum ErrorKind {
    Config,
    Internal,
    NotSupported,
}

/// Every way in which the library refuses an input.
#[derive(Clone, Copy, Debug, PartialEq, Eq, Structural)]
pub enum GitXetError {
    /// `--lfs-url` does not end in `/info/lfs`.
    LfsUrlSuffix,
    /// `--lfs-url` is not an HTTP or HTTPS URL.
    LfsUrlScheme,
    /// The text is not a Git URL.
    InvalidGitUrl,
    /// No HTTP endpoint can be derived from a local (`file`) remote.
    NoHttpEndpoint,
    /// The remote's path does not name a repository.
    InvalidRepoPath,
    /// A download batch selected a transfer other than `basic`.
    UnexpectedDownloadTransfer,
    /// The batch response does not list the requested object.
    ObjectOmitted,
    /// The server reported an error for the object, or another size.
    ObjectUnavailable,
    /// The server offered an upload action without selecting Xet.
    XetUploadNotSelected,
    /// The batch response has no download action for the object.
    DownloadActionOmitted,
    /// The server sent more bytes than the object has.
    DownloadTooLarge,
    /// The downloaded file does not have the expected size.
    IncompleteDownload,
    /// The downloaded content does not have the expected SHA-256.
    ShaMismatch,
}

impl GitXetError {
    /// The category in which the agent reports the error.
    pub open spec fn spec_kind(self) -> ErrorKind {
        match self {
            GitXetError::LfsUrlSuffix | GitXetError::LfsUrlScheme | GitXetError::InvalidGitUrl
            | GitXetError::NoHttpEndpoint | GitXetError::InvalidRepoPath => ErrorKind::Config,
            GitXetError::UnexpectedDownloadTransfer | GitXetError::XetUploadNotSelected => {
                ErrorKind::NotSupported
            },
            _ => ErrorKind::Internal,
        }
    }

    /// The text that the agent reports.
    pub open spec fn spec_message(self) -> Seq<char> {
        match self {
            GitXetError::LfsUrlSuffix => "--lfs-url must end in /info/lfs"@,
            GitXetError::LfsUrlScheme => "--lfs-url must use HTTP or HTTPS"@,
            GitXetError::InvalidGitUrl => "Invalid Git URL"@,
            GitXetError::NoHttpEndpoint => "Cannot derive an HTTP endpoint from a local remote"@,
            GitXetError::InvalidRepoPath => "Git URL does not name a repository"@,
            GitXetError::UnexpectedDownloadTransfer => "Unexpected LFS download transfer type"@,
            GitXetError::ObjectOmitted => "LFS response omitted the requested object"@,
            GitXetError::ObjectUnavailable => "LFS object unavailable or size mismatch"@,
            GitXetError::XetUploadNotSelected => "Server did not select Xet uploads"@,
            GitXetError::DownloadActionOmitted => "LFS response omitted the download action"@,
            GitXetError::DownloadTooLarge => "LFS download exceeds expected size"@,
            GitXetError::IncompleteDownload => "Incomplete LFS download"@,
            GitXetError::ShaMismatch => "LFS download SHA-256 mismatch"@,
        }
    }

    /// The category in which the agent reports the error.
    pub fn kind(&self) -> (k: ErrorKind)
        ensures
            k == self.spec_kind(),
    {
        match self {
            GitXetError::LfsUrlSuffix | GitXetError::LfsUrlScheme | GitXetError::InvalidGitUrl
            | GitXetError::NoHttpEndpoint | GitXetError::InvalidRepoPath => ErrorKind::Config,
            GitXetError::UnexpectedDownloadTransfer | GitXetError::XetUploadNotSelected => {
                ErrorKind::NotSupported
            },
            _ => ErrorKind::Internal,
        }
    }

    /// The text that the agent reports.
    pub fn message(&self) -> (m: String)
        ensures
            m@ == self.spec_message(),
    {
        match self {
            GitXetError::LfsUrlSuffix => "--lfs-url must end in /info/lfs".to_owned(),
            GitXetError::LfsUrlScheme => "--lfs-url must use HTTP or HTTPS".to_owned(),
            GitXetError::InvalidGitUrl => "Invalid Git URL".to_owned(),
            GitXetError::NoHttpEndpoint => "Cannot derive an HTTP endpoint from a local remote".to_owned(),
            GitXetError::InvalidRepoPath => "Git URL does not name a repository".to_owned(),
            GitXetError::UnexpectedDownloadTransfer => "Unexpected LFS download transfer type".to_owned(),
            GitXetError::ObjectOmitted => "LFS response omitted the requested object".to_owned(),
            GitXetError::ObjectUnavailable => "LFS object unavailable or size mismatch".to_owned(),
            GitXetError::XetUploadNotSelected => "Server did not select Xet uploads".to_owned(),
            GitXetError::DownloadActionOmitted => "LFS response omitted the download action".to_owned(),
            GitXetError::DownloadTooLarge => "LFS download exceeds expected size".to_owned(),
            GitXetError::IncompleteDownload => "Incomplete LFS download".to_owned(),
            GitXetError::ShaMismatch => "LFS download SHA-256 mismatch".to_owned(),
        }
    }
}

} // verus!
