//! The platform a build targets.

use crate::error::DownloadError;
use vstd::prelude::*;

verus! {

/// Operating system of the target.
#[derive(Clone, Copy, Debug, PartialEq, Eq, Structural)]
pub enum OperatingSystem {
    Windows,
    MacOs,
    Linux,
    Other,
}

/// Processor architecture of the target.
#[derive(Clone, Copy, Debug, PartialEq, Eq, Structural)]
pub enum Architecture {
    X86_64,
    Aarch64,
    Other,
}

/// The pair of operating system and architecture that every lookup is keyed by.
#[derive(Clone, Copy, Debug, PartialEq, Eq, Structural)]
pub struct PlatformTarget {
    pub os: OperatingSystem,
    pub arch: Architecture,
}

impl PlatformTarget {
    pub fn new(os: OperatingSystem, arch: Architecture) -> (target: PlatformTarget)
        ensures
            target.os == os,
            target.arch == arch,
    {
        PlatformTarget { os, arch }
    }
}

/// Where the manifest of the latest published build lies for `target`. Only
/// x86_64 builds have one, on the three supported operating systems.
pub open spec fn manifest_url(target: PlatformTarget) -> Result<Seq<char>, DownloadError> {
    if target.arch != Architecture::X86_64 {
        Err(DownloadError::UnsupportedPlatform)
    } else {
        match target.os {
            OperatingSystem::Windows => Ok("https://www.gyan.dev/ffmpeg/builds/release-version"@),
            OperatingSystem::MacOs => Ok("https://evermeet.cx/ffmpeg/info/ffmpeg/release"@),
            OperatingSystem::Linux => Ok("https://johnvansickle.com/ffmpeg/release-readme.txt"@),
            OperatingSystem::Other => Err(DownloadError::UnsupportedPlatform),
        }
    }
}

/// Where the archive of the latest published release lies for `target`.
pub open spec fn download_url(target: PlatformTarget) -> Result<Seq<char>, DownloadError> {
    match (target.os, target.arch) {
        (OperatingSystem::Windows, Architecture::X86_64) => Ok(
            "https://cap-ffmpeg.s3.amazonaws.com/ffmpeg-7.0.1-essentials_build.zip"@,
        ),
        (OperatingSystem::Linux, Architecture::X86_64) => Ok(
            "https://cap-ffmpeg.s3.amazonaws.com/ffmpeg-release-amd64-static.tar.xz"@,
        ),
        (OperatingSystem::MacOs, Architecture::X86_64) => Ok(
            "https://cap-ffmpeg.s3.amazonaws.com/ffmpeg-7.0.1.zip"@,
        ),
        (OperatingSystem::MacOs, Architecture::Aarch64) => Ok(
            "https://cap-ffmpeg.s3.amazonaws.com/ffmpegarm.zip"@,
        ),
        _ => Err(DownloadError::UnsupportedPlatform),
    }
}

/// URL of a manifest that describes the latest published build for `target`.
pub fn ffmpeg_manifest_url(target: PlatformTarget) -> (url: Result<&'static str, DownloadError>)
    ensures
        match url {
            Ok(text) => manifest_url(target) == Ok::<Seq<char>, DownloadError>(text@),
            Err(error) => manifest_url(target) == Err::<Seq<char>, DownloadError>(error),
        },
{
    match target.arch {
        Architecture::X86_64 => match target.os {
            OperatingSystem::Windows => Ok("https://www.gyan.dev/ffmpeg/builds/release-version"),
            OperatingSystem::MacOs => Ok("https://evermeet.cx/ffmpeg/info/ffmpeg/release"),
            OperatingSystem::Linux => Ok("https://johnvansickle.com/ffmpeg/release-readme.txt"),
            OperatingSystem::Other => Err(DownloadError::UnsupportedPlatform),
        },
        _ => Err(DownloadError::UnsupportedPlatform),
    }
}

/// URL of the archive of the latest published release for `target`. Where
/// there is none, a caller that has a URL of its own can hand it to the
/// download step directly.
pub fn ffmpeg_download_url(target: PlatformTarget) -> (url: Result<&'static str, DownloadError>)
    ensures
        match url {
            Ok(text) => download_url(target) == Ok::<Seq<char>, DownloadError>(text@),
            Err(error) => download_url(target) == Err::<Seq<char>, DownloadError>(error),
        },
{
    match (target.os, target.arch) {
        (OperatingSystem::Windows, Architecture::X86_64) => Ok(
            "https://cap-ffmpeg.s3.amazonaws.com/ffmpeg-7.0.1-essentials_build.zip",
        ),
        (OperatingSystem::Linux, Architecture::X86_64) => Ok(
            "https://cap-ffmpeg.s3.amazonaws.com/ffmpeg-release-amd64-static.tar.xz",
        ),
        (OperatingSystem::MacOs, Architecture::X86_64) => Ok(
            "https://cap-ffmpeg.s3.amazonaws.com/ffmpeg-7.0.1.zip",
        ),
        (OperatingSystem::MacOs, Architecture::Aarch64) => Ok(
            "https://cap-ffmpeg.s3.amazonaws.com/ffmpegarm.zip",
        ),
        _ => Err(DownloadError::UnsupportedPlatform),
    }
}

} // verus!
