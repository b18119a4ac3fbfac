//! Paths as text: the final component of a path, its extension, and a path
//! below a directory.
//!
//! A path is a string in which separators part the components. The slash
//! separates on every operating system, the backslash on Windows too. Drive
//! prefixes are not interpreted.

use crate::platform::OperatingSystem;
use crate::text::{
    chars_of, cut, end_of_last_in, lemma_end_of_last_in_unique, scan_back, CharClass,
};
use vstd::prelude::*;
use vstd::string::*;

verus! {

/// The characters that separate the components of a path on `os`.
pub open spec fn separators(os: OperatingSystem) -> CharClass {
    if os == OperatingSystem::Windows {
        CharClass::OneOf('/', '\\')
    } else {
        CharClass::Is('/')
    }
}

/// The separator that is written between a directory and a name on `os`.
pub open spec fn main_separator(os: OperatingSystem) -> char {
    if os == OperatingSystem::Windows {
        '\\'
    } else {
        '/'
    }
}

/// The length of `path` once the separators and the components `.` at its
/// end are taken off.
pub open spec fn stripped_len(path: Seq<char>, seps: CharClass) -> int
    decreases path.len(),
{
    if path.len() == 0 {
        0
    } else if seps.holds(path.last()) {
        stripped_len(path.drop_last(), seps)
    } else if path.last() == '.' && (path.len() == 1 || seps.holds(path[path.len() - 2])) {
        stripped_len(path.drop_last(), seps)
    } else {
        path.len() as int
    }
}

/// The final component of `path`: what follows the last separator once the
/// separators and the components `.` at the end are taken off. A path that
/// ends in the component `..`, or has no component, has none.
pub open spec fn file_name_of(path: Seq<char>, os: OperatingSystem) -> Option<Seq<char>> {
    let stripped = path.take(stripped_len(path, separators(os)));
    let name = stripped.skip(end_of_last_in(stripped, separators(os)));
    if name.len() == 0 || name == seq!['.', '.'] {
        None
    } else {
        Some(name)
    }
}

/// The extension of a file name: what follows its last dot, unless the name
/// has no dot or its only dot comes first.
pub open spec fn extension_of_name(name: Seq<char>) -> Option<Seq<char>> {
    let after_dot = end_of_last_in(name, CharClass::Is('.'));
    if after_dot <= 1 {
        None
    } else {
        Some(name.skip(after_dot))
    }
}

/// The extension of the final component of `path`.
pub open spec fn extension_of(path: Seq<char>, os: OperatingSystem) -> Option<Seq<char>> {
    match file_name_of(path, os) {
        None => None,
        Some(name) => extension_of_name(name),
    }
}

/// The path of `name` below `dir`: the two with a separator between them,
/// unless `dir` is empty or ends in one already.
pub open spec fn joined(dir: Seq<char>, name: Seq<char>, os: OperatingSystem) -> Seq<char> {
    if dir.len() == 0 || separators(os).holds(dir.last()) {
        dir + name
    } else {
        dir + seq![main_separator(os)] + name
    }
}

/// Whether `name` can name a file below a directory: it is not empty, holds
/// no separator and does not end in a dot.
pub open spec fn is_plain_name(name: Seq<char>, os: OperatingSystem) -> bool {
    &&& name.len() > 0
    &&& name.last() != '.'
    &&& forall|k: int| 0 <= k < name.len() ==> !separators(os).holds(#[trigger] name[k])
}

/// The characters that separate the components of a path on `os`.
pub fn path_separators(os: OperatingSystem) -> (seps: CharClass)
    ensures
        seps == separators(os),
{
    match os {
        OperatingSystem::Windows => CharClass::OneOf('/', '\\'),
        _ => CharClass::Is('/'),
    }
}

/// Whether `chars[..end]` ends in a separator or in a component `.`.
fn ends_in_separator_or_dot(chars: &Vec<char>, end: usize, seps: CharClass) -> (found: bool)
    requires
        0 < end <= chars.len(),
    ensures
        found == (stripped_len(chars@.take(end as int), seps) != end),
{
    let ghost head = chars@.take(end as int);
    assert(head.last() == chars@[end - 1]);
    assert(end > 1 ==> head[head.len() - 2] == chars@[end - 2]);
    proof {
        let rest = head.drop_last();
        lemma_stripped_len_bound(rest, seps);
    }
    let last = chars[end - 1];
    seps.contains(last) || (last == '.' && (end == 1 || seps.contains(chars[end - 2])))
}

/// Nothing is added by taking characters off.
proof fn lemma_stripped_len_bound(path: Seq<char>, seps: CharClass)
    ensures
        0 <= stripped_len(path, seps) <= path.len(),
    decreases path.len(),
{
    if path.len() > 0 {
        lemma_stripped_len_bound(path.drop_last(), seps);
    }
}

/// The bounds in `chars` of the final component of the path.
fn file_name_bounds(chars: &Vec<char>, os: OperatingSystem) -> (bounds: Option<(usize, usize)>)
    ensures
        match bounds {
            Some((from, to)) => from <= to <= chars.len() && file_name_of(chars@, os) == Some(
                chars@.subrange(from as int, to as int),
            ),
            None => file_name_of(chars@, os) is None,
        },
{
    let seps = path_separators(os);
    let mut end: usize = chars.len();
    assert(chars@.take(end as int) =~= chars@);
    while end > 0 && ends_in_separator_or_dot(chars, end, seps)
        invariant
            end <= chars.len(),
            stripped_len(chars@, seps) == stripped_len(chars@.take(end as int), seps),
        decreases end,
    {
        assert(chars@.take(end as int).drop_last() =~= chars@.take(end - 1));
        end -= 1;
    }
    let ghost stripped = chars@.take(end as int);
    assert(stripped_len(stripped, seps) == end);
    assert(stripped =~= chars@.subrange(0, end as int));
    let from = scan_back(chars, 0, end, seps);
    let ghost name = stripped.skip(from as int);
    assert(name =~= chars@.subrange(from as int, end as int));
    if from == end {
        return None;
    }
    if end - from == 2 && chars[from] == '.' && chars[from + 1] == '.' {
        assert(name =~= seq!['.', '.']);
        return None;
    }
    proof {
        if name == seq!['.', '.'] {
            assert(name.len() == 2);
            assert(name[0] == '.' && name[1] == '.');
        }
    }
    Some((from, end))
}

/// The final component of `path`, if it has one.
pub fn file_name(path: &str, os: OperatingSystem) -> (name: Option<String>)
    ensures
        match name {
            Some(text) => file_name_of(path@, os) == Some(text@),
            None => file_name_of(path@, os) is None,
        },
{
    let chars = chars_of(path);
    match file_name_bounds(&chars, os) {
        None => None,
        Some((from, to)) => Some(cut(path, from, to)),
    }
}

/// The extension of the final component of `path`, without its dot, if it
/// has one.
pub fn extension(path: &str, os: OperatingSystem) -> (ext: Option<String>)
    ensures
        match ext {
            Some(text) => extension_of(path@, os) == Some(text@),
            None => extension_of(path@, os) is None,
        },
{
    let chars = chars_of(path);
    match file_name_bounds(&chars, os) {
        None => None,
        Some((from, to)) => {
            let ghost name = chars@.subrange(from as int, to as int);
            let after_dot = scan_back(&chars, from, to, CharClass::Is('.'));
            if after_dot - from <= 1 {
                return None;
            }
            assert(name.skip(after_dot - from) =~= chars@.subrange(after_dot as int, to as int));
            Some(cut(path, after_dot, to))
        },
    }
}

/// The path of `name` below `dir`.
pub fn join(dir: &str, name: &str, os: OperatingSystem) -> (path: String)
    ensures
        path@ == joined(dir@, name@, os),
{
    let seps = path_separators(os);
    let len = dir.unicode_len();
    let mut path = String::from_str(dir);
    if len > 0 && !seps.contains(dir.get_char(len - 1)) {
        match os {
            OperatingSystem::Windows => {
                proof {
                    reveal_strlit("\\");
                }
                assert("\\"@ =~= seq!['\\']);
                path.append("\\");
            },
            _ => {
                proof {
                    reveal_strlit("/");
                }
                assert("/"@ =~= seq!['/']);
                path.append("/");
            },
        }
    }
    path.append(name);
    path
}

/// A path that does not end in a separator or a dot, and whose last
/// separator stands just before `name_at`, has the rest from `name_at` on as
/// its file name.
pub proof fn lemma_file_name_at(path: Seq<char>, os: OperatingSystem, name_at: int)
    requires
        0 <= name_at < path.len(),
        name_at == 0 || separators(os).holds(path[name_at - 1]),
        forall|k: int| name_at <= k < path.len() ==> !separators(os).holds(#[trigger] path[k]),
        path.last() != '.',
    ensures
        file_name_of(path, os) == Some(path.skip(name_at)),
{
    let seps = separators(os);
    assert(!seps.holds(path.last()));
    assert(stripped_len(path, seps) == path.len());
    assert(path.take(path.len() as int) =~= path);
    lemma_end_of_last_in_unique(path, seps, name_at);
    let name = path.skip(name_at);
    assert(name.last() == path.last());
    if name == seq!['.', '.'] {
        assert(name[1] == '.');
    }
}

/// A path with the file name from `name_at` on, in which the last dot
/// stands just before `ext_at` and not first in the name, has the rest from
/// `ext_at` on as its extension.
pub proof fn lemma_extension_at(path: Seq<char>, os: OperatingSystem, name_at: int, ext_at: int)
    requires
        0 <= name_at,
        name_at + 1 < ext_at < path.len(),
        name_at == 0 || separators(os).holds(path[name_at - 1]),
        forall|k: int| name_at <= k < path.len() ==> !separators(os).holds(#[trigger] path[k]),
        path[ext_at - 1] == '.',
        forall|k: int| ext_at <= k < path.len() ==> #[trigger] path[k] != '.',
    ensures
        file_name_of(path, os) == Some(path.skip(name_at)),
        extension_of(path, os) == Some(path.skip(ext_at)),
{
    lemma_file_name_at(path, os, name_at);
    let name = path.skip(name_at);
    assert(name[ext_at - name_at - 1] == '.');
    assert forall|k: int| ext_at - name_at <= k < name.len() implies !CharClass::Is('.').holds(
        #[trigger] name[k],
    ) by {
        assert(name[k] == path[name_at + k]);
    }
    lemma_end_of_last_in_unique(name, CharClass::Is('.'), ext_at - name_at);
    assert(name.skip(ext_at - name_at) =~= path.skip(ext_at));
}

/// The path of a plain name below a directory has that name as its file
/// name, and the name's extension as its extension.
pub proof fn lemma_file_name_of_joined(dir: Seq<char>, name: Seq<char>, os: OperatingSystem)
    requires
        is_plain_name(name, os),
    ensures
        file_name_of(joined(dir, name, os), os) == Some(name),
        extension_of(joined(dir, name, os), os) == extension_of_name(name),
{
    let path = joined(dir, name, os);
    let name_at = path.len() - name.len();
    assert(path.skip(name_at) =~= name);
    assert forall|k: int| name_at <= k < path.len() implies !separators(os).holds(
        #[trigger] path[k],
    ) by {
        assert(path[k] == name[k - name_at]);
    }
    assert(path.last() == name.last());
    lemma_file_name_at(path, os, name_at);
}

} // verus!
