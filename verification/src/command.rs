//! The external tools that do the transfers and the extraction, as command
//! lines for the caller to run.

use crate::error::{ArchiveFormat, Binary, DownloadError};
use crate::path::{extension, extension_of, file_name_of, is_plain_name, lemma_extension_at};
use crate::platform::{download_url, Architecture, OperatingSystem, PlatformTarget};
use crate::text::is_whitespace;
use vstd::prelude::*;
use vstd::string::*;
use vstd::utf8::{decode_utf8, valid_utf8};

verus! {

/// A command line: the program to start and its arguments, in order.
#[derive(Debug, PartialEq, Eq)]
pub struct Invocation {
    pub program: String,
    pub args: Vec<String>,
    /// Whether the caller is to collect what the program prints on its
    /// standard output. Its diagnostic output is discarded in that case.
    pub capture_output: bool,
}

/// A command line as plain sequences of characters.
pub struct InvocationView {
    pub program: Seq<char>,
    pub args: Seq<Seq<char>>,
    pub capture_output: bool,
}

impl View for Invocation {
    type V = InvocationView;

    open spec fn view(&self) -> InvocationView {
        InvocationView {
            program: self.program@,
            args: self.args@.map_values(|arg: String| arg@),
            capture_output: self.capture_output,
        }
    }
}

/// The transfer tool, following redirects, printing what it fetched from
/// `url`.
pub open spec fn curl_invocation(url: Seq<char>) -> InvocationView {
    InvocationView { program: "curl"@, args: seq!["-L"@, url], capture_output: true }
}

/// The transfer tool, following redirects, writing what it fetched from
/// `url` into the file `destination`.
pub open spec fn curl_to_file_invocation(url: Seq<char>, destination: Seq<char>) -> InvocationView {
    InvocationView {
        program: "curl"@,
        args: seq!["-L"@, url, "-o"@, destination],
        capture_output: false,
    }
}

/// The extraction tool for `format`, unpacking `archive` into the directory
/// `into`: `unzip`, overwriting what is there, for a ZIP archive, and `tar`
/// for the others.
pub open spec fn extraction_invocation(
    format: ArchiveFormat,
    archive: Seq<char>,
    into: Seq<char>,
) -> InvocationView {
    match format {
        ArchiveFormat::Zip => InvocationView {
            program: "unzip"@,
            args: seq!["-o"@, archive, "-d"@, into],
            capture_output: false,
        },
        _ => InvocationView {
            program: "tar"@,
            args: seq!["-xf"@, archive, "-C"@, into],
            capture_output: false,
        },
    }
}

/// The extension that names `format`.
pub open spec fn extension_text(format: ArchiveFormat) -> Seq<char> {
    match format {
        ArchiveFormat::Zip => "zip"@,
        ArchiveFormat::Tar => "tar"@,
        ArchiveFormat::Xz => "xz"@,
        ArchiveFormat::Gz => "gz"@,
    }
}

/// The format that the extension `ext` selects: `zip`, `tar`, `xz` and `gz`
/// are recognized, in lower case only.
pub open spec fn format_of(ext: Seq<char>) -> Option<ArchiveFormat> {
    if ext == "zip"@ {
        Some(ArchiveFormat::Zip)
    } else if ext == "tar"@ {
        Some(ArchiveFormat::Tar)
    } else if ext == "xz"@ {
        Some(ArchiveFormat::Xz)
    } else if ext == "gz"@ {
        Some(ArchiveFormat::Gz)
    } else {
        None
    }
}

/// The format of the archive at `path`, which the extension of its file
/// name selects. An archive without extension has none.
pub open spec fn archive_format_of(path: Seq<char>, os: OperatingSystem) -> Option<ArchiveFormat> {
    match extension_of(path, os) {
        None => None,
        Some(ext) => format_of(ext),
    }
}

/// The file name of `binary` on `os`: with the suffix `.exe` on Windows,
/// without suffix elsewhere.
pub open spec fn binary_name_of(binary: Binary, os: OperatingSystem) -> Seq<char> {
    match (binary, os) {
        (Binary::Ffmpeg, OperatingSystem::Windows) => "ffmpeg.exe"@,
        (Binary::Ffprobe, OperatingSystem::Windows) => "ffprobe.exe"@,
        (Binary::Ffmpeg, _) => "ffmpeg"@,
        (Binary::Ffprobe, _) => "ffprobe"@,
    }
}

/// Whether the two strings hold the same characters.
fn same_text(a: &str, b: &str) -> (same: bool)
    ensures
        same == (a@ == b@),
{
    String::from_str(a) == String::from_str(b)
}

/// A command line of `program` with the four arguments given.
fn four_args(program: &str, first: &str, second: &str, third: &str, fourth: &str) -> (command:
    Invocation)
    ensures
        command@ == (InvocationView {
            program: program@,
            args: seq![first@, second@, third@, fourth@],
            capture_output: false,
        }),
{
    let mut args: Vec<String> = Vec::new();
    args.push(String::from_str(first));
    args.push(String::from_str(second));
    args.push(String::from_str(third));
    args.push(String::from_str(fourth));
    let command = Invocation { program: String::from_str(program), args, capture_output: false };
    assert(command@.args =~= seq![first@, second@, third@, fourth@]);
    command
}

impl ArchiveFormat {
    /// The format that the extension `ext` selects, if it selects one.
    pub fn from_extension(ext: &str) -> (format: Option<ArchiveFormat>)
        ensures
            format == format_of(ext@),
    {
        if same_text(ext, "zip") {
            Some(ArchiveFormat::Zip)
        } else if same_text(ext, "tar") {
            Some(ArchiveFormat::Tar)
        } else if same_text(ext, "xz") {
            Some(ArchiveFormat::Xz)
        } else if same_text(ext, "gz") {
            Some(ArchiveFormat::Gz)
        } else {
            None
        }
    }

    /// The format of the archive at `path`, if its extension selects one.
    pub fn of_archive(path: &str, os: OperatingSystem) -> (format: Option<ArchiveFormat>)
        ensures
            format == archive_format_of(path@, os),
    {
        match extension(path, os) {
            None => None,
            Some(ext) => ArchiveFormat::from_extension(ext.as_str()),
        }
    }

    /// The extension that names the format.
    pub fn extension(self) -> (ext: &'static str)
        ensures
            ext@ == extension_text(self),
    {
        match self {
            ArchiveFormat::Zip => "zip",
            ArchiveFormat::Tar => "tar",
            ArchiveFormat::Xz => "xz",
            ArchiveFormat::Gz => "gz",
        }
    }

    /// The command line that unpacks `archive` into the directory `into`.
    pub fn extraction(self, archive: &str, into: &str) -> (command: Invocation)
        ensures
            command@ == extraction_invocation(self, archive@, into@),
    {
        match self {
            ArchiveFormat::Zip => four_args("unzip", "-o", archive, "-d", into),
            _ => four_args("tar", "-xf", archive, "-C", into),
        }
    }
}

impl Binary {
    /// The file name of the executable on `os`.
    pub fn file_name(self, os: OperatingSystem) -> (name: &'static str)
        ensures
            name@ == binary_name_of(self, os),
    {
        match (self, os) {
            (Binary::Ffmpeg, OperatingSystem::Windows) => "ffmpeg.exe",
            (Binary::Ffprobe, OperatingSystem::Windows) => "ffprobe.exe",
            (Binary::Ffmpeg, _) => "ffmpeg",
            (Binary::Ffprobe, _) => "ffprobe",
        }
    }
}

/// The command line that downloads `url` and prints it: the transfer tool,
/// told to follow redirects, with its output to be captured.
pub fn curl(url: &str) -> (command: Invocation)
    ensures
        command@ == curl_invocation(url@),
{
    let mut args: Vec<String> = Vec::new();
    args.push(String::from_str("-L"));
    args.push(String::from_str(url));
    let command = Invocation { program: String::from_str("curl"), args, capture_output: true };
    assert(command@.args =~= seq!["-L"@, url@]);
    command
}

/// `String::from_utf8`: the text that `bytes` encode, if they are
/// well-formed UTF-8, and nothing if they are not.
#[verifier::external_body]
fn text_of(bytes: Vec<u8>) -> (text: Option<String>)
    ensures
        match text {
            Some(decoded) => valid_utf8(bytes@) && decoded@ == decode_utf8(bytes@),
            None => !valid_utf8(bytes@),
        },
{
    String::from_utf8(bytes).ok()
}

/// What a transfer to memory came to: `captured` is what the transfer tool
/// printed, or nothing if the tool could not be run.
pub open spec fn transferred(captured: Option<Vec<u8>>) -> Result<Seq<char>, DownloadError> {
    match captured {
        Some(bytes) if valid_utf8(bytes@) => Ok(decode_utf8(bytes@)),
        _ => Err(DownloadError::TransferFailed),
    }
}

/// Reads what the command line of [`curl`] came to. `captured` holds what
/// the transfer tool printed, or nothing if the tool could not be run. The
/// result is the text that was printed; a transfer that did not run, or
/// printed what is not text, has failed.
pub fn curl_output(captured: Option<Vec<u8>>) -> (fetched: Result<String, DownloadError>)
    ensures
        match fetched {
            Ok(text) => transferred(captured) == Ok::<Seq<char>, DownloadError>(text@),
            Err(error) => transferred(captured) == Err::<Seq<char>, DownloadError>(error),
        },
{
    match captured {
        None => Err(DownloadError::TransferFailed),
        Some(bytes) => match text_of(bytes) {
            Some(text) => Ok(text),
            None => Err(DownloadError::TransferFailed),
        },
    }
}

/// The command line that downloads `url` into the file `destination`: the
/// transfer tool, told to follow redirects and where to write.
pub fn curl_to_file(url: &str, destination: &str) -> (command: Invocation)
    ensures
        command@ == curl_to_file_invocation(url@, destination@),
{
    four_args("curl", "-L", url, "-o", destination)
}

/// Whether archives are published for `target`.
pub open spec fn has_download(target: PlatformTarget) -> bool {
    match (target.os, target.arch) {
        (OperatingSystem::Windows, Architecture::X86_64) => true,
        (OperatingSystem::Linux, Architecture::X86_64) => true,
        (OperatingSystem::MacOs, Architecture::X86_64) => true,
        (OperatingSystem::MacOs, Architecture::Aarch64) => true,
        _ => false,
    }
}

/// Whether `url` has the shape of an HTTPS URL: the scheme, then more, and
/// no whitespace anywhere.
pub open spec fn is_https_url(url: Seq<char>) -> bool {
    &&& url.len() > 8
    &&& url.subrange(0, 8) == "https://"@
    &&& forall|i: int| 0 <= i < url.len() ==> !is_whitespace(#[trigger] url[i])
}

/// Where archives are published for a target, the download URL is a
/// non-empty HTTPS URL that ends in a plain file name with the extension of
/// an archive format that can be unpacked; for every other target there is
/// no URL, and the lookup fails with `UnsupportedPlatform`.
pub proof fn lemma_download_url_names_an_archive(target: PlatformTarget)
    ensures
        has_download(target) ==> (download_url(target) matches Ok(url) && url.len() > 0
            && is_https_url(url) && archive_format_of(url, target.os) is Some && (file_name_of(
            url,
            target.os,
        ) matches Some(name) && is_plain_name(name, target.os))),
        !has_download(target) ==> download_url(target) == Err::<Seq<char>, DownloadError>(
            DownloadError::UnsupportedPlatform,
        ),
{
    reveal_strlit("https://");
    reveal_strlit("zip");
    reveal_strlit("tar");
    reveal_strlit("xz");
    reveal_strlit("gz");
    match (target.os, target.arch) {
        (OperatingSystem::Windows, Architecture::X86_64) => {
            reveal_strlit("https://cap-ffmpeg.s3.amazonaws.com/ffmpeg-7.0.1-essentials_build.zip");
            let url = "https://cap-ffmpeg.s3.amazonaws.com/ffmpeg-7.0.1-essentials_build.zip"@;
            assert(url.subrange(0, 8) =~= "https://"@);
            assert(url.skip(66) =~= "zip"@);
            lemma_extension_at(url, target.os, 36, 66);
            assert(is_plain_name(url.skip(36), target.os));
        },
        (OperatingSystem::Linux, Architecture::X86_64) => {
            reveal_strlit(
                "https://cap-ffmpeg.s3.amazonaws.com/ffmpeg-release-amd64-static.tar.xz",
            );
            let url = "https://cap-ffmpeg.s3.amazonaws.com/ffmpeg-release-amd64-static.tar.xz"@;
            assert(url.subrange(0, 8) =~= "https://"@);
            assert(url.skip(68) =~= "xz"@);
            lemma_extension_at(url, target.os, 36, 68);
            assert(is_plain_name(url.skip(36), target.os));
        },
        (OperatingSystem::MacOs, Architecture::X86_64) => {
            reveal_strlit("https://cap-ffmpeg.s3.amazonaws.com/ffmpeg-7.0.1.zip");
            let url = "https://cap-ffmpeg.s3.amazonaws.com/ffmpeg-7.0.1.zip"@;
            assert(url.subrange(0, 8) =~= "https://"@);
            assert(url.skip(49) =~= "zip"@);
            lemma_extension_at(url, target.os, 36, 49);
            assert(is_plain_name(url.skip(36), target.os));
        },
        (OperatingSystem::MacOs, Architecture::Aarch64) => {
            reveal_strlit("https://cap-ffmpeg.s3.amazonaws.com/ffmpegarm.zip");
            let url = "https://cap-ffmpeg.s3.amazonaws.com/ffmpegarm.zip"@;
            assert(url.subrange(0, 8) =~= "https://"@);
            assert(url.skip(46) =~= "zip"@);
            lemma_extension_at(url, target.os, 36, 46);
            assert(is_plain_name(url.skip(36), target.os));
        },
        _ => {},
    }
}

} // verus!
