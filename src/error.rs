use vstd::prelude::*;
use crate::text::concat;

verus! {

/// Every way an acquisition can fail.
#[derive(Debug, Clone, PartialEq, Eq)]
pub enum DownloadError {
    /// Transport or HTTP failure, with the underlying message.
    Network(String),
    /// File system failure, with the operation and path involved.
    Io(String),
    /// The release host lists no release at all.
    NoReleases,
    /// The release has no asset named for this tool and platform.
    NoMatchingAsset,
    /// The downloaded bytes do not hash to the expected digest.
    ChecksumMismatch,
    /// The archive holds no member with the wanted name.
    MemberNotFound(String),
    /// The archive format tag is neither `.tar.gz` nor `.zip`.
    UnsupportedArchiveFormat(String),
    /// The archive could not be decoded.
    InvalidArchive,
    /// The operating system or architecture has no published assets.
    UnsupportedPlatform(String),
}

impl DownloadError {
    /// The text shown to a user for this error.
    pub open spec fn message_spec(&self) -> Seq<char> {
        match self {
            DownloadError::Network(m) => "Network error: "@ + m@,
            DownloadError::Io(m) => "IO error: "@ + m@,
            DownloadError::NoReleases => "No releases found"@,
            DownloadError::NoMatchingAsset => "No matching asset found for platform"@,
            DownloadError::ChecksumMismatch => "Checksum verification failed"@,
            DownloadError::MemberNotFound(m) => "Binary "@ + m@ + " not found in archive"@,
            DownloadError::UnsupportedArchiveFormat(f) => "Unsupported archive format: "@ + f@,
            DownloadError::InvalidArchive => "The archive could not be read"@,
            DownloadError::UnsupportedPlatform(p) => "Unsupported platform: "@ + p@,
        }
    }

    /// The text shown to a user for this error.
    pub fn message(&self) -> (r: String)
        ensures
            r@ == self.message_spec(),
    {
        match self {
            DownloadError::Network(m) => concat("Network error: ", m.as_str()),
            DownloadError::Io(m) => concat("IO error: ", m.as_str()),
            DownloadError::NoReleases => String::from_str("No releases found"),
            DownloadError::NoMatchingAsset => String::from_str(
                "No matching asset found for platform",
            ),
            DownloadError::ChecksumMismatch => String::from_str("Checksum verification failed"),
            DownloadError::MemberNotFound(m) => {
                let mut s = concat("Binary ", m.as_str());
                s.append(" not found in archive");
                s
            },
            DownloadError::UnsupportedArchiveFormat(f) => concat(
                "Unsupported archive format: ",
                f.as_str(),
            ),
            DownloadError::InvalidArchive => String::from_str("The archive could not be read"),
            DownloadError::UnsupportedPlatform(p) => concat("Unsupported platform: ", p.as_str()),
        }
    }
}

} // verus!
