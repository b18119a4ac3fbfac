use ffmpeg_sidecar::error::DownloadError;
use ffmpeg_sidecar::manifest::{check_latest_version, parse_linux_version, parse_macos_version};
use ffmpeg_sidecar::platform::{Architecture, OperatingSystem, PlatformTarget};

#[test]
fn macos_version_between_quotes() {
    let parsed = parse_macos_version("{\"name\":\"x\",\"version\":\"6.0\"}");
    assert_eq!(parsed, Some("6.0".to_string()));
}

#[test]
fn macos_version_in_a_full_manifest() {
    let json = "{\"name\":\"ffmpeg\",\"type\":\"release\",\"version\":\"6.0\",...}";
    assert_eq!(parse_macos_version(json), Some("6.0".to_string()));
}

#[test]
fn macos_version_without_key() {
    assert_eq!(parse_macos_version("{\"name\":\"x\"}"), None);
    assert_eq!(parse_macos_version(""), None);
    assert_eq!(parse_macos_version("version: 6.0"), None);
}

#[test]
fn macos_version_without_quotes() {
    assert_eq!(parse_macos_version("{\"version\": 6}"), None);
    assert_eq!(parse_macos_version("{\"version\":"), None);
    assert_eq!(parse_macos_version("{\"version\":   \t\n"), None);
}

#[test]
fn macos_version_with_space_after_the_key() {
    assert_eq!(parse_macos_version("{\"version\": \"7.1\" }"), Some("7.1".to_string()));
}

#[test]
fn macos_version_without_closing_quote() {
    assert_eq!(parse_macos_version("{\"version\":\"6.0"), None);
    assert_eq!(parse_macos_version("\"version\":\"6.0  "), None);
    assert_eq!(parse_macos_version("\"version\": \""), None);
    assert_eq!(parse_macos_version("{\"name\":\"x\",\"version\":\"6.0}"), None);
}

#[test]
fn macos_version_that_is_empty() {
    assert_eq!(parse_macos_version("{\"version\":\"\"}"), Some(String::new()));
}

#[test]
fn macos_version_whose_closing_quote_opens_the_next_key() {
    let text = "\"version\":\"6.0\"version\":\"7\"";
    assert_eq!(parse_macos_version(text), Some("6.0".to_string()));
}

#[test]
fn macos_version_after_the_first_key() {
    let text = "\"version\":\"1\",\"version\":\"2\"";
    assert_eq!(parse_macos_version(text), Some("1".to_string()));
    let text = "\"version\":\"version\":\"6.0\"";
    assert_eq!(parse_macos_version(text), Some("version".to_string()));
}

#[test]
fn macos_version_keeps_inner_whitespace() {
    assert_eq!(parse_macos_version("\"version\":\" 6.0 \""), Some(" 6.0 ".to_string()));
}

#[test]
fn macos_version_of_non_ascii_text() {
    let text = "{\"n\u{e4}me\":\"\u{3b1}\",\"version\":\"6.\u{3b2}\"}";
    assert_eq!(parse_macos_version(text), Some("6.\u{3b2}".to_string()));
}

#[test]
fn linux_version_after_label() {
    let parsed = parse_linux_version("build: x\nversion: 5.1.1\n\ngcc: 8.3.0");
    assert_eq!(parsed, Some("5.1.1".to_string()));
}

#[test]
fn linux_version_in_a_full_manifest() {
    let text = "build: ffmpeg-5.1.1-amd64-static.tar.xz\nversion: 5.1.1\n\ngcc: 8.3.0";
    assert_eq!(parse_linux_version(text), Some("5.1.1".to_string()));
}

#[test]
fn linux_version_without_label() {
    assert_eq!(parse_linux_version("build: x\ngcc: 8.3.0"), None);
    assert_eq!(parse_linux_version(""), None);
}

#[test]
fn linux_version_with_nothing_after_label() {
    assert_eq!(parse_linux_version("version:"), None);
    assert_eq!(parse_linux_version("version:  \n\t "), None);
}

#[test]
fn linux_version_without_space() {
    assert_eq!(parse_linux_version("version:7.0"), Some("7.0".to_string()));
}

#[test]
fn linux_version_after_the_first_label() {
    assert_eq!(parse_linux_version("version: 4 version: 5"), Some("4".to_string()));
    assert_eq!(parse_linux_version("version: 4version: 5"), Some("4version:".to_string()));
    assert_eq!(parse_linux_version("version: version: 5"), Some("version:".to_string()));
    assert_eq!(parse_linux_version("conversion: 1\n"), Some("1".to_string()));
}

#[test]
fn linux_version_ends_at_unicode_whitespace() {
    assert_eq!(parse_linux_version("version:\u{a0}5.0\u{2003}rest"), Some("5.0".to_string()));
}

fn target(os: OperatingSystem, arch: Architecture) -> PlatformTarget {
    PlatformTarget::new(os, arch)
}

#[test]
fn latest_version_on_windows_is_the_manifest() {
    let t = target(OperatingSystem::Windows, Architecture::X86_64);
    assert_eq!(check_latest_version(t, "7.0.1"), Ok("7.0.1".to_string()));
    assert_eq!(check_latest_version(t, ""), Ok(String::new()));
}

#[test]
fn latest_version_on_macos() {
    let t = target(OperatingSystem::MacOs, Architecture::X86_64);
    assert_eq!(check_latest_version(t, "{\"version\":\"6.0\"}"), Ok("6.0".to_string()));
    assert_eq!(check_latest_version(t, "6.0"), Err(DownloadError::VersionParseFailed));
}

#[test]
fn latest_version_on_linux() {
    let t = target(OperatingSystem::Linux, Architecture::X86_64);
    assert_eq!(check_latest_version(t, "version: 5.1.1\n"), Ok("5.1.1".to_string()));
    assert_eq!(check_latest_version(t, "5.1.1"), Err(DownloadError::VersionParseFailed));
}

#[test]
fn latest_version_on_unsupported_platforms() {
    let text = "{\"version\":\"6.0\"}";
    let t = target(OperatingSystem::MacOs, Architecture::Aarch64);
    assert_eq!(check_latest_version(t, text), Err(DownloadError::UnsupportedPlatform));
    let t = target(OperatingSystem::Other, Architecture::X86_64);
    assert_eq!(check_latest_version(t, text), Err(DownloadError::UnsupportedPlatform));
    let t = target(OperatingSystem::Windows, Architecture::Other);
    assert_eq!(check_latest_version(t, text), Err(DownloadError::UnsupportedPlatform));
}
