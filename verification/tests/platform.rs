use ffmpeg_sidecar::error::ArchiveFormat as Format;
use ffmpeg_sidecar::error::DownloadError;
use ffmpeg_sidecar::platform::{
    ffmpeg_download_url, ffmpeg_manifest_url, Architecture, OperatingSystem, PlatformTarget,
};

const SYSTEMS: [OperatingSystem; 4] = [
    OperatingSystem::Windows,
    OperatingSystem::MacOs,
    OperatingSystem::Linux,
    OperatingSystem::Other,
];

const ARCHITECTURES: [Architecture; 3] =
    [Architecture::X86_64, Architecture::Aarch64, Architecture::Other];

#[test]
fn manifest_urls() {
    let t = PlatformTarget::new(OperatingSystem::Windows, Architecture::X86_64);
    assert_eq!(ffmpeg_manifest_url(t), Ok("https://www.gyan.dev/ffmpeg/builds/release-version"));
    let t = PlatformTarget::new(OperatingSystem::MacOs, Architecture::X86_64);
    assert_eq!(ffmpeg_manifest_url(t), Ok("https://evermeet.cx/ffmpeg/info/ffmpeg/release"));
    let t = PlatformTarget::new(OperatingSystem::Linux, Architecture::X86_64);
    assert_eq!(ffmpeg_manifest_url(t), Ok("https://johnvansickle.com/ffmpeg/release-readme.txt"));
}

#[test]
fn manifest_url_needs_x86_64() {
    for os in SYSTEMS {
        for arch in [Architecture::Aarch64, Architecture::Other] {
            let t = PlatformTarget::new(os, arch);
            assert_eq!(ffmpeg_manifest_url(t), Err(DownloadError::UnsupportedPlatform));
        }
    }
}

#[test]
fn manifest_url_needs_a_known_system() {
    let t = PlatformTarget::new(OperatingSystem::Other, Architecture::X86_64);
    assert_eq!(ffmpeg_manifest_url(t), Err(DownloadError::UnsupportedPlatform));
}

#[test]
fn download_urls() {
    let t = PlatformTarget::new(OperatingSystem::Windows, Architecture::X86_64);
    assert_eq!(
        ffmpeg_download_url(t),
        Ok("https://cap-ffmpeg.s3.amazonaws.com/ffmpeg-7.0.1-essentials_build.zip")
    );
    let t = PlatformTarget::new(OperatingSystem::Linux, Architecture::X86_64);
    assert_eq!(
        ffmpeg_download_url(t),
        Ok("https://cap-ffmpeg.s3.amazonaws.com/ffmpeg-release-amd64-static.tar.xz")
    );
    let t = PlatformTarget::new(OperatingSystem::MacOs, Architecture::X86_64);
    assert_eq!(ffmpeg_download_url(t), Ok("https://cap-ffmpeg.s3.amazonaws.com/ffmpeg-7.0.1.zip"));
    let t = PlatformTarget::new(OperatingSystem::MacOs, Architecture::Aarch64);
    assert_eq!(ffmpeg_download_url(t), Ok("https://cap-ffmpeg.s3.amazonaws.com/ffmpegarm.zip"));
}

#[test]
fn download_url_of_every_pair() {
    let mut supported = 0;
    for os in SYSTEMS {
        for arch in ARCHITECTURES {
            let t = PlatformTarget::new(os, arch);
            match ffmpeg_download_url(t) {
                Ok(url) => {
                    supported += 1;
                    assert!(url.starts_with("https://"));
                    assert!(url.len() > "https://".len());
                    assert!(!url.contains(char::is_whitespace));
                    assert!(Format::of_archive(url, os).is_some(), "{}", url);
                }
                Err(error) => assert_eq!(error, DownloadError::UnsupportedPlatform),
            }
        }
    }
    assert_eq!(supported, 4);
}

#[test]
fn download_url_unsupported_pairs() {
    let pairs = [
        (OperatingSystem::Windows, Architecture::Aarch64),
        (OperatingSystem::Linux, Architecture::Aarch64),
        (OperatingSystem::Linux, Architecture::Other),
        (OperatingSystem::Other, Architecture::X86_64),
        (OperatingSystem::Other, Architecture::Aarch64),
        (OperatingSystem::MacOs, Architecture::Other),
    ];
    for (os, arch) in pairs {
        let t = PlatformTarget::new(os, arch);
        assert_eq!(ffmpeg_download_url(t), Err(DownloadError::UnsupportedPlatform));
    }
}

#[test]
fn target_keeps_its_parts() {
    let t = PlatformTarget::new(OperatingSystem::Linux, Architecture::Aarch64);
    assert_eq!(t.os, OperatingSystem::Linux);
    assert_eq!(t.arch, Architecture::Aarch64);
}
