use ffmpeg_sidecar::path::{extension, file_name, join};
use ffmpeg_sidecar::platform::OperatingSystem;
use ffmpeg_sidecar::text::{char_is_whitespace, chars_of, CharClass};
use std::path::Path;

const UNIX: OperatingSystem = OperatingSystem::Linux;
const WINDOWS: OperatingSystem = OperatingSystem::Windows;

fn some(text: &str) -> Option<String> {
    Some(text.to_string())
}

#[test]
fn file_name_of_a_url() {
    let url = "https://cap-ffmpeg.s3.amazonaws.com/ffmpeg-7.0.1.zip";
    assert_eq!(file_name(url, UNIX), some("ffmpeg-7.0.1.zip"));
    assert_eq!(file_name(url, WINDOWS), some("ffmpeg-7.0.1.zip"));
    assert_eq!(file_name(url, OperatingSystem::MacOs), some("ffmpeg-7.0.1.zip"));
}

#[test]
fn file_name_plain() {
    assert_eq!(file_name("archive.tar.gz", UNIX), some("archive.tar.gz"));
    assert_eq!(file_name("/usr/bin/tool", UNIX), some("tool"));
    assert_eq!(file_name("a/b/c", UNIX), some("c"));
}

#[test]
fn file_name_ignores_what_trails() {
    assert_eq!(file_name("dir/name/", UNIX), some("name"));
    assert_eq!(file_name("dir/name///", UNIX), some("name"));
    assert_eq!(file_name("dir/name/.", UNIX), some("name"));
    assert_eq!(file_name("dir/name/./", UNIX), some("name"));
    assert_eq!(file_name("name/././.", UNIX), some("name"));
}

#[test]
fn file_name_missing() {
    assert_eq!(file_name("", UNIX), None);
    assert_eq!(file_name("/", UNIX), None);
    assert_eq!(file_name("//", UNIX), None);
    assert_eq!(file_name(".", UNIX), None);
    assert_eq!(file_name("./", UNIX), None);
    assert_eq!(file_name("..", UNIX), None);
    assert_eq!(file_name("a/..", UNIX), None);
    assert_eq!(file_name("a/../", UNIX), None);
    assert_eq!(file_name("/..", UNIX), None);
}

#[test]
fn file_name_with_dots() {
    assert_eq!(file_name("a/...", UNIX), some("..."));
    assert_eq!(file_name("a/.hidden", UNIX), some(".hidden"));
    assert_eq!(file_name("a/b.", UNIX), some("b."));
    assert_eq!(file_name("a/..b", UNIX), some("..b"));
}

#[test]
fn file_name_and_backslashes() {
    assert_eq!(file_name("C:\\tools\\ffmpeg.zip", WINDOWS), some("ffmpeg.zip"));
    assert_eq!(file_name("tools\\sub/ffmpeg.zip", WINDOWS), some("ffmpeg.zip"));
    assert_eq!(file_name("tools\\ffmpeg.zip\\", WINDOWS), some("ffmpeg.zip"));
    assert_eq!(file_name("tools\\ffmpeg.zip", UNIX), some("tools\\ffmpeg.zip"));
}

#[test]
fn file_name_as_the_standard_library_has_it() {
    let paths = [
        "", "/", ".", "..", "a", "a/", "a/.", "a/..", "./a", "a/./b", "a//b", "/a/b.c/", "a/...",
        "a/.b", "a/b/.", "x/y.tar.gz", "../z", "a/./", "a\\b", ".a.", "a/b/./.", "\u{e9}/\u{fc}.zip",
    ];
    for path in paths {
        let expected = Path::new(path).file_name().map(|n| n.to_str().unwrap().to_string());
        let os = if std::path::MAIN_SEPARATOR == '\\' { WINDOWS } else { UNIX };
        assert_eq!(file_name(path, os), expected, "{:?}", path);
    }
}

#[test]
fn extension_plain() {
    assert_eq!(extension("ffmpeg.zip", UNIX), some("zip"));
    assert_eq!(extension("/tmp/ffmpeg-release-amd64-static.tar.xz", UNIX), some("xz"));
    assert_eq!(extension("a.b/c.tar.gz", UNIX), some("gz"));
}

#[test]
fn extension_missing() {
    assert_eq!(extension("", UNIX), None);
    assert_eq!(extension("ffmpeg", UNIX), None);
    assert_eq!(extension("a.b/ffmpeg", UNIX), None);
    assert_eq!(extension(".zip", UNIX), None);
    assert_eq!(extension("dir/.zip", UNIX), None);
    assert_eq!(extension("dir/..", UNIX), None);
    assert_eq!(extension("/", UNIX), None);
}

#[test]
fn extension_edge_cases() {
    assert_eq!(extension("name.", UNIX), some(""));
    assert_eq!(extension("..zip", UNIX), some("zip"));
    assert_eq!(extension(".a.zip", UNIX), some("zip"));
    assert_eq!(extension("dir.zip/", UNIX), some("zip"));
    assert_eq!(extension("dir.zip/.", UNIX), some("zip"));
    assert_eq!(extension("a.ZIP", UNIX), some("ZIP"));
}

#[test]
fn extension_and_backslashes() {
    assert_eq!(extension("C:\\x.y\\ffmpeg", WINDOWS), None);
    assert_eq!(extension("C:\\x.y\\ffmpeg.zip", WINDOWS), some("zip"));
    assert_eq!(extension("x.y\\ffmpeg", UNIX), some("y\\ffmpeg"));
}

#[test]
fn extension_as_the_standard_library_has_it() {
    let paths = [
        "", "a", "a.b", ".a", "a.", "a/b.c", "a.b/c", "a/.b", "..", "...", "a..b", "a.b.c",
        "x/y.tar.gz/", "x/.y.z", "a.b/.", "\u{e9}.\u{fc}",
    ];
    for path in paths {
        let expected = Path::new(path).extension().map(|n| n.to_str().unwrap().to_string());
        let os = if std::path::MAIN_SEPARATOR == '\\' { WINDOWS } else { UNIX };
        assert_eq!(extension(path, os), expected, "{:?}", path);
    }
}

#[test]
fn join_puts_a_separator_between() {
    assert_eq!(join("/opt/app", "ffmpeg", UNIX), "/opt/app/ffmpeg");
    assert_eq!(join("/opt/app", "ffmpeg", OperatingSystem::MacOs), "/opt/app/ffmpeg");
    assert_eq!(join("C:\\app", "ffmpeg.exe", WINDOWS), "C:\\app\\ffmpeg.exe");
    assert_eq!(join("rel", "x", OperatingSystem::Other), "rel/x");
}

#[test]
fn join_keeps_a_separator_that_is_there() {
    assert_eq!(join("/opt/app/", "ffmpeg", UNIX), "/opt/app/ffmpeg");
    assert_eq!(join("/", "ffmpeg", UNIX), "/ffmpeg");
    assert_eq!(join("C:\\app\\", "ffmpeg.exe", WINDOWS), "C:\\app\\ffmpeg.exe");
    assert_eq!(join("C:/app/", "ffmpeg.exe", WINDOWS), "C:/app/ffmpeg.exe");
    assert_eq!(join("app\\", "ffmpeg", UNIX), "app\\/ffmpeg");
}

#[test]
fn join_with_empty_parts() {
    assert_eq!(join("", "ffmpeg", UNIX), "ffmpeg");
    assert_eq!(join("", "ffmpeg", WINDOWS), "ffmpeg");
    assert_eq!(join("dir", "", UNIX), "dir/");
    assert_eq!(join("", "", UNIX), "");
}

#[test]
fn join_as_the_standard_library_has_it() {
    let os = if std::path::MAIN_SEPARATOR == '\\' { WINDOWS } else { UNIX };
    for dir in ["", "a", "a/", "/", "/a/b", "\u{e9}"] {
        for name in ["x", "x.y", "ffmpeg_release_temp"] {
            let expected = Path::new(dir).join(name);
            assert_eq!(join(dir, name, os), expected.to_str().unwrap(), "{:?} {:?}", dir, name);
        }
    }
}

#[test]
fn whitespace_as_the_standard_library_has_it() {
    for code in 0..0x3100u32 {
        if let Some(c) = char::from_u32(code) {
            assert_eq!(char_is_whitespace(c), c.is_whitespace(), "{:x}", code);
        }
    }
    assert!(!char_is_whitespace('\u{200B}'));
    assert!(!char_is_whitespace('\u{FEFF}'));
    assert!(!char_is_whitespace('\u{10FFFF}'));
}

#[test]
fn classes_of_characters() {
    assert!(CharClass::Whitespace.contains(' '));
    assert!(CharClass::Whitespace.contains('\u{3000}'));
    assert!(!CharClass::Whitespace.contains('x'));
    assert!(CharClass::NotWhitespace.contains('x'));
    assert!(!CharClass::NotWhitespace.contains('\n'));
    assert!(CharClass::Is('/').contains('/'));
    assert!(!CharClass::Is('/').contains('\\'));
    assert!(CharClass::OneOf('/', '\\').contains('/'));
    assert!(CharClass::OneOf('/', '\\').contains('\\'));
    assert!(!CharClass::OneOf('/', '\\').contains(':'));
}

#[test]
fn characters_of_a_string() {
    assert_eq!(chars_of(""), Vec::<char>::new());
    assert_eq!(chars_of("a\u{e9}\u{1F600}z"), vec!['a', '\u{e9}', '\u{1F600}', 'z']);
}
