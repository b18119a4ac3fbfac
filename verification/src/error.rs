//! The ways in which acquiring the binaries can fail.

use vstd::prelude::*;

verus! {

/// The archive formats that can be unpacked, each named by the file
/// extension that selects it.
#[derive(Clone, Copy, Debug, PartialEq, Eq, Structural)]
pub enum ArchiveFormat {
    Zip,
    Tar,
    Xz,
    Gz,
}

/// One of the two executables that an installation consists of.
#[derive(Clone, Copy, Debug, PartialEq, Eq, Structural)]
pub enum Binary {
    /// The media-processing tool.
    Ffmpeg,
    /// Its probe utility.
    Ffprobe,
}

/// Why a step of the acquisition failed. Nothing is retried: every failure
/// is handed to the caller as it occurred.
#[derive(Clone, Copy, Debug, PartialEq, Eq, Structural)]
pub enum DownloadError {
    /// No source is known for this operating system and architecture.
    UnsupportedPlatform,
    /// The transfer tool could not be run, or what it printed is not text.
    TransferFailed,
    /// The archive could not be downloaded.
    DownloadFailed,
    /// The manifest does not hold a version where one is expected.
    VersionParseFailed,
    /// The archive's extension selects no extraction tool.
    UnsupportedArchiveFormat,
    /// The extraction tool for this format reported a failure.
    ExtractionFailed(ArchiveFormat),
    /// This executable was not among the extracted files.
    BinaryNotFound(Binary),
    /// A directory or file operation failed.
    IOFailure,
    /// The binaries are still not usable after the installation; they have
    /// to be installed by hand.
    InstallVerificationFailed,
}

impl DownloadError {
    /// What to tell the user about the failure.
    pub open spec fn message_of(self) -> Seq<char> {
        match self {
            DownloadError::UnsupportedPlatform => {
                "Unsupported platform; you can provide your own URL instead and call download_ffmpeg_package directly."@
            },
            DownloadError::TransferFailed => {
                "Failed to run the transfer, or its output is not text"@
            },
            DownloadError::DownloadFailed => "Failed to download ffmpeg"@,
            DownloadError::VersionParseFailed => "Failed to parse version number"@,
            DownloadError::UnsupportedArchiveFormat => "Unsupported archive format"@,
            DownloadError::ExtractionFailed(ArchiveFormat::Zip) => "Failed to unpack ffmpeg (zip)"@,
            DownloadError::ExtractionFailed(ArchiveFormat::Tar) => "Failed to unpack ffmpeg (tar)"@,
            DownloadError::ExtractionFailed(ArchiveFormat::Xz) => "Failed to unpack ffmpeg (xz)"@,
            DownloadError::ExtractionFailed(ArchiveFormat::Gz) => "Failed to unpack ffmpeg (gz)"@,
            DownloadError::BinaryNotFound(Binary::Ffmpeg) => "Binary not found: ffmpeg"@,
            DownloadError::BinaryNotFound(Binary::Ffprobe) => "Binary not found: ffprobe"@,
            DownloadError::IOFailure => "A directory or file operation failed"@,
            DownloadError::InstallVerificationFailed => {
                "FFmpeg failed to install, please install manually."@
            },
        }
    }

    /// What to tell the user about the failure.
    pub fn message(self) -> (text: &'static str)
        ensures
            text@ == self.message_of(),
    {
        match self {
            DownloadError::UnsupportedPlatform => {
                "Unsupported platform; you can provide your own URL instead and call download_ffmpeg_package directly."
            },
            DownloadError::TransferFailed => {
                "Failed to run the transfer, or its output is not text"
            },
            DownloadError::DownloadFailed => "Failed to download ffmpeg",
            DownloadError::VersionParseFailed => "Failed to parse version number",
            DownloadError::UnsupportedArchiveFormat => "Unsupported archive format",
            DownloadError::ExtractionFailed(ArchiveFormat::Zip) => "Failed to unpack ffmpeg (zip)",
            DownloadError::ExtractionFailed(ArchiveFormat::Tar) => "Failed to unpack ffmpeg (tar)",
            DownloadError::ExtractionFailed(ArchiveFormat::Xz) => "Failed to unpack ffmpeg (xz)",
            DownloadError::ExtractionFailed(ArchiveFormat::Gz) => "Failed to unpack ffmpeg (gz)",
            DownloadError::BinaryNotFound(Binary::Ffmpeg) => "Binary not found: ffmpeg",
            DownloadError::BinaryNotFound(Binary::Ffprobe) => "Binary not found: ffprobe",
            DownloadError::IOFailure => "A directory or file operation failed",
            DownloadError::InstallVerificationFailed => {
                "FFmpeg failed to install, please install manually."
            },
        }
    }
}

} // verus!
