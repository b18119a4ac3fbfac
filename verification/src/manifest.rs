//! Reading the version out of a manifest of the latest published build.
//!
//! Each operating system's builds come with a manifest in a format of its
//! own: a JSON object for macOS, a plain text of labeled lines for Linux, the
//! bare version for Windows. The two parsers never fail: a text that is not
//! of the expected form gives `None`.

use crate::error::DownloadError;
use crate::platform::{ffmpeg_manifest_url, manifest_url, OperatingSystem, PlatformTarget};
use crate::text::{
    chars_of, cut, end_of_last_in, find, find_in, first_in, is_first_occurrence, is_whitespace,
    lemma_end_of_last_in_exists, lemma_first_in_exists, lemma_first_in_unique,
    lemma_first_occurrence_unique, occurs_at, scan, scan_back, trim, CharClass,
};
use vstd::prelude::*;
use vstd::string::*;

verus! {

/// The key that precedes the version in a macOS manifest.
pub open spec fn macos_key() -> Seq<char> {
    "\"version\":"@
}

/// The label that precedes the version in a Linux manifest.
pub open spec fn linux_label() -> Seq<char> {
    "version:"@
}

/// What follows the first `key` in `text`, to the end of the text; nothing
/// if `text` holds no `key`.
pub open spec fn text_after(text: Seq<char>, key: Seq<char>) -> Option<Seq<char>> {
    match find(text, key) {
        None => None,
        Some(at) => Some(text.skip(at + key.len())),
    }
}

/// What stands in `s` between its first two quotation marks; nothing if `s`
/// holds fewer than two.
pub open spec fn quoted(s: Seq<char>) -> Option<Seq<char>> {
    let open = first_in(s, CharClass::Is('"'));
    if open == s.len() {
        None
    } else {
        let rest = s.skip(open + 1);
        let close = first_in(rest, CharClass::Is('"'));
        if close == rest.len() {
            None
        } else {
            Some(rest.take(close))
        }
    }
}

/// The first run of characters in `s` that are not whitespace; nothing if
/// `s` is all whitespace.
pub open spec fn first_word(s: Seq<char>) -> Option<Seq<char>> {
    let start = first_in(s, CharClass::NotWhitespace);
    if start == s.len() {
        None
    } else {
        let rest = s.skip(start);
        Some(rest.take(first_in(rest, CharClass::Whitespace)))
    }
}

/// The version that a macOS manifest names: the text between the pair of
/// quotation marks that follows the key `"version":`. A manifest without the
/// key, or without a pair of quotation marks after it, names none.
pub open spec fn macos_version(manifest: Seq<char>) -> Option<Seq<char>> {
    match text_after(manifest, macos_key()) {
        None => None,
        Some(rest) => quoted(trim(rest)),
    }
}

/// The version that a Linux manifest names: the word that follows the label
/// `version:`. A manifest without the label, or with nothing but whitespace
/// after it, names none.
pub open spec fn linux_version(manifest: Seq<char>) -> Option<Seq<char>> {
    match text_after(manifest, linux_label()) {
        None => None,
        Some(rest) => first_word(rest),
    }
}

/// The latest version for `target` as its manifest gives it. A Windows
/// manifest is the version itself.
pub open spec fn latest_version(target: PlatformTarget, manifest: Seq<char>) -> Result<
    Seq<char>,
    DownloadError,
> {
    if manifest_url(target) is Err {
        Err(DownloadError::UnsupportedPlatform)
    } else {
        match target.os {
            OperatingSystem::Windows => Ok(manifest),
            OperatingSystem::MacOs => match macos_version(manifest) {
                Some(version) => Ok(version),
                None => Err(DownloadError::VersionParseFailed),
            },
            OperatingSystem::Linux => match linux_version(manifest) {
                Some(version) => Ok(version),
                None => Err(DownloadError::VersionParseFailed),
            },
            OperatingSystem::Other => Err(DownloadError::UnsupportedPlatform),
        }
    }
}

/// The index in `chars` of what follows the first `key`.
fn after_key(chars: &Vec<char>, key: &Vec<char>) -> (start: Option<usize>)
    ensures
        match start {
            Some(from) => from <= chars.len() && text_after(chars@, key@) == Some(
                chars@.skip(from as int),
            ),
            None => text_after(chars@, key@) is None,
        },
{
    let len = chars.len();
    assert(chars@.subrange(0, len as int) =~= chars@);
    match find_in(chars, 0, len, key) {
        None => None,
        Some(at) => Some(at + key.len()),
    }
}

/// Parses the version number out of a macOS manifest, a JSON object in which
/// the key `"version":` is followed by the version in quotation marks. A
/// text that is not of this form gives `None`: one without the key, and one
/// in which the key is not followed by a pair of quotation marks.
///
/// The result is [`macos_version`] of the text; [`lemma_text_after`],
/// [`lemma_macos_version_between`] and [`lemma_macos_version_needs_a_pair`]
/// tell what that is for a text whose key and quotation marks are known.
pub fn parse_macos_version(version: &str) -> (parsed: Option<String>)
    ensures
        match parsed {
            Some(number) => macos_version(version@) == Some(number@),
            None => macos_version(version@) is None,
        },
{
    let chars = chars_of(version);
    let key = chars_of("\"version\":");
    match after_key(&chars, &key) {
        None => None,
        Some(from) => {
            let to = chars.len();
            let ghost rest = chars@.subrange(from as int, to as int);
            assert(rest =~= chars@.skip(from as int));
            let start = scan(&chars, from, to, CharClass::NotWhitespace);
            let end = scan_back(&chars, from, to, CharClass::NotWhitespace);
            if start >= end {
                proof {
                    assert(trim(rest) =~= Seq::<char>::empty());
                    lemma_first_in_unique(Seq::<char>::empty(), CharClass::Is('"'), 0);
                }
                return None;
            }
            let ghost trimmed = chars@.subrange(start as int, end as int);
            assert(trim(rest) =~= trimmed);
            let open = scan(&chars, start, end, CharClass::Is('"'));
            if open == end {
                return None;
            }
            let close = scan(&chars, open + 1, end, CharClass::Is('"'));
            proof {
                let inner = trimmed.skip(open - start + 1);
                assert(inner =~= chars@.subrange(open + 1, end as int));
                assert(inner.take(close - (open + 1)) =~= chars@.subrange(
                    open + 1,
                    close as int,
                ));
            }
            if close == end {
                return None;
            }
            Some(cut(version, open + 1, close))
        },
    }
}

/// Parses the version number out of a Linux manifest, a long text in which
/// the label `version:` is followed by the version. A text without the
/// label, or with nothing but whitespace after it, gives `None`.
///
/// The result is [`linux_version`] of the text; [`lemma_text_after`],
/// [`lemma_linux_version_between`] and [`lemma_linux_version_needs_a_word`]
/// tell what that is for a text whose label and version are known.
pub fn parse_linux_version(version: &str) -> (parsed: Option<String>)
    ensures
        match parsed {
            Some(number) => linux_version(version@) == Some(number@),
            None => linux_version(version@) is None,
        },
{
    let chars = chars_of(version);
    let label = chars_of("version:");
    match after_key(&chars, &label) {
        None => None,
        Some(from) => {
            let to = chars.len();
            let ghost rest = chars@.subrange(from as int, to as int);
            assert(rest =~= chars@.skip(from as int));
            let start = scan(&chars, from, to, CharClass::NotWhitespace);
            if start == to {
                return None;
            }
            let end = scan(&chars, start, to, CharClass::Whitespace);
            proof {
                let word = rest.skip(start - from);
                assert(word =~= chars@.subrange(start as int, to as int));
                assert(word.take(end - start) =~= chars@.subrange(start as int, end as int));
            }
            Some(cut(version, start, end))
        },
    }
}

/// Reads the latest version for `target` out of `manifest`, the text that
/// was fetched from the target's manifest URL.
pub fn check_latest_version(target: PlatformTarget, manifest: &str) -> (version: Result<
    String,
    DownloadError,
>)
    ensures
        match version {
            Ok(number) => latest_version(target, manifest@) == Ok::<Seq<char>, DownloadError>(
                number@,
            ),
            Err(error) => latest_version(target, manifest@) == Err::<Seq<char>, DownloadError>(
                error,
            ),
        },
{
    if ffmpeg_manifest_url(target).is_err() {
        return Err(DownloadError::UnsupportedPlatform);
    }
    match target.os {
        OperatingSystem::Windows => Ok(String::from_str(manifest)),
        OperatingSystem::MacOs => match parse_macos_version(manifest) {
            Some(number) => Ok(number),
            None => Err(DownloadError::VersionParseFailed),
        },
        OperatingSystem::Linux => match parse_linux_version(manifest) {
            Some(number) => Ok(number),
            None => Err(DownloadError::VersionParseFailed),
        },
        OperatingSystem::Other => Err(DownloadError::UnsupportedPlatform),
    }
}

/// A manifest that holds no key names no version, on macOS and on Linux
/// alike.
pub proof fn lemma_no_key_no_version(manifest: Seq<char>)
    ensures
        (forall|i: int| !occurs_at(manifest, macos_key(), i)) ==> macos_version(manifest) is None,
        (forall|i: int| !occurs_at(manifest, linux_label(), i)) ==> linux_version(manifest)
            is None,
{
}

/// Where `key` first stands at `at`, what follows it is the text from the
/// end of the key on.
pub proof fn lemma_text_after(text: Seq<char>, key: Seq<char>, at: int)
    requires
        is_first_occurrence(text, key, at),
    ensures
        text_after(text, key) == Some(text.skip(at + key.len())),
{
    lemma_first_occurrence_unique(text, key, at);
}

/// Where what follows the key begins at `start`, its first quotation mark
/// stands at `open`, and the next one at `close`, the macOS version is what
/// stands between the two.
pub proof fn lemma_macos_version_between(manifest: Seq<char>, start: int, open: int, close: int)
    requires
        text_after(manifest, macos_key()) == Some(manifest.skip(start)),
        0 <= start <= open < close < manifest.len(),
        manifest[open] == '"',
        manifest[close] == '"',
        forall|k: int| start <= k < open ==> #[trigger] manifest[k] != '"',
        forall|k: int| open < k < close ==> #[trigger] manifest[k] != '"',
    ensures
        macos_version(manifest) == Some(manifest.subrange(open + 1, close)),
{
    let rest = manifest.skip(start);
    let quote = CharClass::Is('"');
    lemma_first_in_exists(rest, CharClass::NotWhitespace);
    lemma_end_of_last_in_exists(rest, CharClass::NotWhitespace);
    let from = first_in(rest, CharClass::NotWhitespace);
    let to = end_of_last_in(rest, CharClass::NotWhitespace);
    assert(rest[open - start] == '"');
    assert(from <= open - start) by {
        if from > open - start {
            assert(!CharClass::NotWhitespace.holds(rest[open - start]));
        }
    }
    assert(rest[close - start] == '"');
    assert(to > close - start) by {
        if to <= close - start {
            assert(!CharClass::NotWhitespace.holds(rest[close - start]));
        }
    }
    let trimmed = rest.subrange(from, to);
    assert(trim(rest) == trimmed);
    assert forall|k: int| 0 <= k < open - start - from implies !quote.holds(
        #[trigger] trimmed[k],
    ) by {
        assert(trimmed[k] == manifest[start + from + k]);
    }
    assert(trimmed[open - start - from] == '"');
    lemma_first_in_unique(trimmed, quote, open - start - from);
    let inner = trimmed.skip(open - start - from + 1);
    assert(inner =~= manifest.subrange(open + 1, start + to));
    assert forall|k: int| 0 <= k < close - open - 1 implies !quote.holds(#[trigger] inner[k]) by {
        assert(inner[k] == manifest[open + 1 + k]);
    }
    assert(inner[close - open - 1] == '"');
    lemma_first_in_unique(inner, quote, close - open - 1);
    assert(inner.take(close - open - 1) =~= manifest.subrange(open + 1, close));
}

/// Where what follows the key, from `start` on, holds fewer than two
/// quotation marks, the manifest names no macOS version: `open` is the place
/// of the only one, or the end of the text if there is none.
pub proof fn lemma_macos_version_needs_a_pair(manifest: Seq<char>, start: int, open: int)
    requires
        text_after(manifest, macos_key()) == Some(manifest.skip(start)),
        0 <= start <= open <= manifest.len(),
        forall|k: int|
            start <= k < manifest.len() && k != open ==> #[trigger] manifest[k] != '"',
    ensures
        macos_version(manifest) is None,
{
    let rest = manifest.skip(start);
    let quote = CharClass::Is('"');
    lemma_first_in_exists(rest, CharClass::NotWhitespace);
    lemma_end_of_last_in_exists(rest, CharClass::NotWhitespace);
    let from = first_in(rest, CharClass::NotWhitespace);
    let to = end_of_last_in(rest, CharClass::NotWhitespace);
    let trimmed = trim(rest);
    lemma_first_in_exists(trimmed, quote);
    let first = first_in(trimmed, quote);
    if first < trimmed.len() {
        assert(trimmed == rest.subrange(from, to));
        assert(trimmed[first] == manifest[start + from + first]);
        assert(start + from + first == open);
        let inner = trimmed.skip(first + 1);
        lemma_first_in_exists(inner, quote);
        let next = first_in(inner, quote);
        if next < inner.len() {
            assert(inner[next] == manifest[open + 1 + next]);
        }
    }
}

/// Where what follows the label begins at `start`, and its first character
/// that is no whitespace stands at `from`, the Linux version reaches from
/// there to `to`, the next whitespace or the end of the text.
pub proof fn lemma_linux_version_between(manifest: Seq<char>, start: int, from: int, to: int)
    requires
        text_after(manifest, linux_label()) == Some(manifest.skip(start)),
        0 <= start <= from < to <= manifest.len(),
        forall|k: int| start <= k < from ==> is_whitespace(#[trigger] manifest[k]),
        forall|k: int| from <= k < to ==> !is_whitespace(#[trigger] manifest[k]),
        to == manifest.len() || is_whitespace(manifest[to]),
    ensures
        linux_version(manifest) == Some(manifest.subrange(from, to)),
{
    let rest = manifest.skip(start);
    assert forall|k: int| 0 <= k < from - start implies !CharClass::NotWhitespace.holds(
        #[trigger] rest[k],
    ) by {
        assert(rest[k] == manifest[start + k]);
    }
    assert(rest[from - start] == manifest[from]);
    lemma_first_in_unique(rest, CharClass::NotWhitespace, from - start);
    let word = rest.skip(from - start);
    assert(word =~= manifest.skip(from));
    assert forall|k: int| 0 <= k < to - from implies !CharClass::Whitespace.holds(
        #[trigger] word[k],
    ) by {
        assert(word[k] == manifest[from + k]);
    }
    lemma_first_in_unique(word, CharClass::Whitespace, to - from);
    assert(word.take(to - from) =~= manifest.subrange(from, to));
}

/// Where nothing but whitespace follows the label, from `start` on, the
/// manifest names no Linux version.
pub proof fn lemma_linux_version_needs_a_word(manifest: Seq<char>, start: int)
    requires
        text_after(manifest, linux_label()) == Some(manifest.skip(start)),
        0 <= start <= manifest.len(),
        forall|k: int| start <= k < manifest.len() ==> is_whitespace(#[trigger] manifest[k]),
    ensures
        linux_version(manifest) is None,
{
    let rest = manifest.skip(start);
    assert forall|k: int| 0 <= k < rest.len() implies !CharClass::NotWhitespace.holds(
        #[trigger] rest[k],
    ) by {
        assert(rest[k] == manifest[start + k]);
    }
    lemma_first_in_unique(rest, CharClass::NotWhitespace, rest.len() as int);
}

/// The macOS manifest `{"name":"x","version":"6.0"}` names the version
/// `6.0`.
pub proof fn lemma_macos_example()
    ensures
        macos_version("{\"name\":\"x\",\"version\":\"6.0\"}"@) == Some("6.0"@),
{
    reveal_strlit("{\"name\":\"x\",\"version\":\"6.0\"}");
    reveal_strlit("\"version\":");
    reveal_strlit("6.0");
    let text = "{\"name\":\"x\",\"version\":\"6.0\"}"@;
    let key = macos_key();
    assert(text.subrange(12, 22) =~= key);
    assert forall|k: int| 0 <= k < 12 implies !occurs_at(text, key, k) by {
        if occurs_at(text, key, k) {
            let part = text.subrange(k, k + 10);
            assert(part[0] == key[0] && part[1] == key[1]);
        }
    }
    lemma_text_after(text, key, 12);
    lemma_macos_version_between(text, 22, 22, 26);
    assert(text.subrange(23, 26) =~= "6.0"@);
}

/// The macOS manifest `{"version":"6.0`, in which the version's closing
/// quotation mark is missing, names no version.
pub proof fn lemma_macos_example_without_closing_quote()
    ensures
        macos_version("{\"version\":\"6.0"@) is None,
{
    reveal_strlit("{\"version\":\"6.0");
    reveal_strlit("\"version\":");
    let text = "{\"version\":\"6.0"@;
    let key = macos_key();
    assert(text.subrange(1, 11) =~= key);
    assert forall|k: int| 0 <= k < 1 implies !occurs_at(text, key, k) by {
        if occurs_at(text, key, k) {
            let part = text.subrange(k, k + 10);
            assert(part[0] == key[0]);
        }
    }
    lemma_text_after(text, key, 1);
    lemma_macos_version_needs_a_pair(text, 11, 11);
}

/// The Linux manifest with the lines `build: x`, `version: 5.1.1`, an empty
/// line and `gcc: 8.3.0` names the version `5.1.1`.
pub proof fn lemma_linux_example()
    ensures
        linux_version("build: x\nversion: 5.1.1\n\ngcc: 8.3.0"@) == Some("5.1.1"@),
{
    reveal_strlit("build: x\nversion: 5.1.1\n\ngcc: 8.3.0");
    reveal_strlit("version:");
    reveal_strlit("5.1.1");
    let text = "build: x\nversion: 5.1.1\n\ngcc: 8.3.0"@;
    let key = linux_label();
    assert(text.subrange(9, 17) =~= key);
    assert forall|k: int| 0 <= k < 9 implies !occurs_at(text, key, k) by {
        if occurs_at(text, key, k) {
            let part = text.subrange(k, k + 8);
            assert(part[0] == key[0]);
        }
    }
    lemma_text_after(text, key, 9);
    lemma_linux_version_between(text, 17, 18, 23);
    assert(text.subrange(18, 23) =~= "5.1.1"@);
}

} // verus!
