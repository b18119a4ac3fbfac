//! Character sequences: classes of characters, scanning and searching.
//!
//! Every function here works on a window `[from, to)` of a vector of
//! characters and states its result over the corresponding subrange of the
//! vector's view, so that callers can cut a text into pieces by index and
//! still speak of the pieces as sequences.

use vstd::prelude::*;
use vstd::string::*;

verus! {

/// A set of characters that a scan looks for.
#[derive(Clone, Copy, Debug)]
pub enum CharClass {
    /// The characters with the Unicode property `White_Space`.
    Whitespace,
    /// Every character without that property.
    NotWhitespace,
    /// One character.
    Is(char),
    /// Either of two characters.
    OneOf(char, char),
}

/// Whether `c` has the Unicode property `White_Space`.
pub open spec fn is_whitespace(c: char) -> bool {
    ||| ('\u{9}' <= c && c <= '\u{D}')
    ||| c == ' '
    ||| c == '\u{85}'
    ||| c == '\u{A0}'
    ||| c == '\u{1680}'
    ||| ('\u{2000}' <= c && c <= '\u{200A}')
    ||| c == '\u{2028}'
    ||| c == '\u{2029}'
    ||| c == '\u{202F}'
    ||| c == '\u{205F}'
    ||| c == '\u{3000}'
}

impl CharClass {
    /// Whether `c` belongs to the class.
    pub open spec fn holds(self, c: char) -> bool {
        match self {
            CharClass::Whitespace => is_whitespace(c),
            CharClass::NotWhitespace => !is_whitespace(c),
            CharClass::Is(x) => c == x,
            CharClass::OneOf(x, y) => c == x || c == y,
        }
    }

    /// Tests whether `c` belongs to the class.
    pub fn contains(&self, c: char) -> (found: bool)
        ensures
            found == self.holds(c),
    {
        match *self {
            CharClass::Whitespace => char_is_whitespace(c),
            CharClass::NotWhitespace => !char_is_whitespace(c),
            CharClass::Is(x) => c == x,
            CharClass::OneOf(x, y) => c == x || c == y,
        }
    }
}

/// Tests whether `c` has the Unicode property `White_Space`.
pub fn char_is_whitespace(c: char) -> (found: bool)
    ensures
        found == is_whitespace(c),
{
    ('\u{9}' <= c && c <= '\u{D}') || c == ' ' || c == '\u{85}' || c == '\u{A0}' || c
        == '\u{1680}' || ('\u{2000}' <= c && c <= '\u{200A}') || c == '\u{2028}' || c
        == '\u{2029}' || c == '\u{202F}' || c == '\u{205F}' || c == '\u{3000}'
}

/// `i` is the index of the first character of `s` in `class`, or the length
/// of `s` if it has none.
pub open spec fn is_first_in(s: Seq<char>, class: CharClass, i: int) -> bool {
    &&& 0 <= i <= s.len()
    &&& i < s.len() ==> class.holds(s[i])
    &&& forall|k: int| 0 <= k < i ==> !class.holds(#[trigger] s[k])
}

/// The index of the first character of `s` in `class`; the length of `s` if
/// it has none.
pub open spec fn first_in(s: Seq<char>, class: CharClass) -> int {
    choose|i: int| is_first_in(s, class, i)
}

/// `i` is one past the index of the last character of `s` in `class`, or 0 if
/// it has none.
pub open spec fn is_end_of_last_in(s: Seq<char>, class: CharClass, i: int) -> bool {
    &&& 0 <= i <= s.len()
    &&& 0 < i ==> class.holds(s[i - 1])
    &&& forall|k: int| i <= k < s.len() ==> !class.holds(#[trigger] s[k])
}

/// One past the index of the last character of `s` in `class`; 0 if it has
/// none.
pub open spec fn end_of_last_in(s: Seq<char>, class: CharClass) -> int {
    choose|i: int| is_end_of_last_in(s, class, i)
}

/// `s` without the whitespace at its two ends.
pub open spec fn trim(s: Seq<char>) -> Seq<char> {
    let from = first_in(s, CharClass::NotWhitespace);
    let to = end_of_last_in(s, CharClass::NotWhitespace);
    if from <= to {
        s.subrange(from, to)
    } else {
        Seq::empty()
    }
}

/// `needle` stands in `hay` at index `i`.
pub open spec fn occurs_at(hay: Seq<char>, needle: Seq<char>, i: int) -> bool {
    &&& 0 <= i
    &&& i + needle.len() <= hay.len()
    &&& hay.subrange(i, i + needle.len()) == needle
}

/// `needle` stands in `hay` at index `i` and nowhere before.
pub open spec fn is_first_occurrence(hay: Seq<char>, needle: Seq<char>, i: int) -> bool {
    &&& occurs_at(hay, needle, i)
    &&& forall|k: int| 0 <= k < i ==> !occurs_at(hay, needle, k)
}

/// The index at which `needle` first stands in `hay`, if it stands there at
/// all.
pub open spec fn find(hay: Seq<char>, needle: Seq<char>) -> Option<int> {
    if exists|i: int| occurs_at(hay, needle, i) {
        Some(choose|i: int| is_first_occurrence(hay, needle, i))
    } else {
        None
    }
}

/// There is only one first character in a class.
pub proof fn lemma_first_in_unique(s: Seq<char>, class: CharClass, i: int)
    requires
        is_first_in(s, class, i),
    ensures
        first_in(s, class) == i,
{
    let j = first_in(s, class);
    assert(is_first_in(s, class, j));
    if j < i {
        assert(class.holds(s[j]));
    } else if i < j {
        assert(class.holds(s[i]));
    }
}

/// There is only one last character in a class.
pub proof fn lemma_end_of_last_in_unique(s: Seq<char>, class: CharClass, i: int)
    requires
        is_end_of_last_in(s, class, i),
    ensures
        end_of_last_in(s, class) == i,
{
    let j = end_of_last_in(s, class);
    assert(is_end_of_last_in(s, class, j));
    if j < i {
        assert(class.holds(s[i - 1]));
    } else if i < j {
        assert(class.holds(s[j - 1]));
    }
}

/// Every sequence has a first character in a class, or none: `first_in` is
/// the index that its name promises.
pub proof fn lemma_first_in_exists(s: Seq<char>, class: CharClass)
    ensures
        is_first_in(s, class, first_in(s, class)),
    decreases s.len(),
{
    if s.len() == 0 || class.holds(s[0]) {
        assert(is_first_in(s, class, 0));
    } else {
        let rest = s.drop_first();
        lemma_first_in_exists(rest, class);
        let i = first_in(rest, class);
        assert forall|k: int| 0 <= k < i + 1 implies !class.holds(#[trigger] s[k]) by {
            if k > 0 {
                assert(s[k] == rest[k - 1]);
            }
        }
        assert(i < rest.len() ==> s[i + 1] == rest[i]);
        assert(is_first_in(s, class, i + 1));
    }
}

/// Every sequence has a last character in a class, or none: `end_of_last_in`
/// is the index that its name promises.
pub proof fn lemma_end_of_last_in_exists(s: Seq<char>, class: CharClass)
    ensures
        is_end_of_last_in(s, class, end_of_last_in(s, class)),
    decreases s.len(),
{
    if s.len() == 0 {
        assert(is_end_of_last_in(s, class, 0));
    } else if class.holds(s.last()) {
        assert(is_end_of_last_in(s, class, s.len() as int));
    } else {
        let rest = s.drop_last();
        lemma_end_of_last_in_exists(rest, class);
        let i = end_of_last_in(rest, class);
        assert forall|k: int| i <= k < s.len() implies !class.holds(#[trigger] s[k]) by {
            if k < rest.len() {
                assert(s[k] == rest[k]);
            }
        }
        assert(0 < i ==> s[i - 1] == rest[i - 1]);
        assert(is_end_of_last_in(s, class, i));
    }
}

/// There is only one first occurrence.
pub proof fn lemma_first_occurrence_unique(hay: Seq<char>, needle: Seq<char>, i: int)
    requires
        is_first_occurrence(hay, needle, i),
    ensures
        find(hay, needle) == Some(i),
{
    assert(occurs_at(hay, needle, i));
    let j = choose|j: int| is_first_occurrence(hay, needle, j);
    assert(is_first_occurrence(hay, needle, j));
    if j < i {
        assert(!occurs_at(hay, needle, j));
    } else if i < j {
        assert(!occurs_at(hay, needle, i));
    }
}

/// The characters of `s`, in order.
pub fn chars_of(s: &str) -> (chars: Vec<char>)
    ensures
        chars@ == s@,
{
    let mut chars: Vec<char> = Vec::new();
    for c in it: s.chars()
        invariant
            chars@ == it.seq().take(it.index() as int),
            it.seq() == s@,
    {
        chars.push(c);
    }
    chars
}

/// The index of the first character in `class` within `chars[from..to]`, or
/// `to` if the window has none.
pub(crate) fn scan(chars: &Vec<char>, from: usize, to: usize, class: CharClass) -> (at: usize)
    requires
        from <= to <= chars.len(),
    ensures
        from <= at <= to,
        at - from == first_in(chars@.subrange(from as int, to as int), class),
{
    let ghost window = chars@.subrange(from as int, to as int);
    let mut at: usize = from;
    while at < to && !class.contains(chars[at])
        invariant
            from <= at <= to <= chars.len(),
            window == chars@.subrange(from as int, to as int),
            forall|k: int| 0 <= k < at - from ==> !class.holds(#[trigger] window[k]),
        decreases to - at,
    {
        at += 1;
    }
    proof {
        lemma_first_in_unique(window, class, at - from);
    }
    at
}

/// One past the index of the last character in `class` within
/// `chars[from..to]`, or `from` if the window has none.
pub(crate) fn scan_back(
    chars: &Vec<char>,
    from: usize,
    to: usize,
    class: CharClass,
) -> (end: usize)
    requires
        from <= to <= chars.len(),
    ensures
        from <= end <= to,
        end - from == end_of_last_in(chars@.subrange(from as int, to as int), class),
{
    let ghost window = chars@.subrange(from as int, to as int);
    let mut end: usize = to;
    while end > from && !class.contains(chars[end - 1])
        invariant
            from <= end <= to <= chars.len(),
            window == chars@.subrange(from as int, to as int),
            forall|k: int| end - from <= k < window.len() ==> !class.holds(#[trigger] window[k]),
        decreases end - from,
    {
        end -= 1;
    }
    proof {
        lemma_end_of_last_in_unique(window, class, end - from);
    }
    end
}

/// Whether `needle` stands in `chars[from..to]` at index `at` of `chars`.
pub(crate) fn matches_at(
    chars: &Vec<char>,
    from: usize,
    to: usize,
    needle: &Vec<char>,
    at: usize,
) -> (found: bool)
    requires
        from <= at <= to <= chars.len(),
    ensures
        found == occurs_at(chars@.subrange(from as int, to as int), needle@, at - from),
{
    let ghost window = chars@.subrange(from as int, to as int);
    let len = needle.len();
    if len > to - at {
        return false;
    }
    let mut k: usize = 0;
    while k < len
        invariant
            from <= at <= to <= chars.len(),
            len == needle.len(),
            at + len <= to,
            k <= len,
            window == chars@.subrange(from as int, to as int),
            forall|j: int| 0 <= j < k ==> window[at - from + j] == #[trigger] needle@[j],
        decreases len - k,
    {
        if chars[at + k] != needle[k] {
            proof {
                let part = window.subrange(at - from, at - from + len);
                assert(part[k as int] == window[at - from + k]);
            }
            return false;
        }
        k += 1;
    }
    proof {
        assert(window.subrange(at - from, at - from + len) =~= needle@);
    }
    true
}

/// The index in `chars` at which `needle` first stands within
/// `chars[from..to]`.
pub(crate) fn find_in(
    chars: &Vec<char>,
    from: usize,
    to: usize,
    needle: &Vec<char>,
) -> (found: Option<usize>)
    requires
        from <= to <= chars.len(),
    ensures
        match found {
            Some(at) => from <= at && at + needle.len() <= to && find(
                chars@.subrange(from as int, to as int),
                needle@,
            ) == Some(at - from),
            None => find(chars@.subrange(from as int, to as int), needle@) is None,
        },
{
    let ghost window = chars@.subrange(from as int, to as int);
    let mut at: usize = from;
    while at < to
        invariant
            from <= at <= to <= chars.len(),
            window == chars@.subrange(from as int, to as int),
            forall|k: int| 0 <= k < at - from ==> !occurs_at(window, needle@, k),
        decreases to - at,
    {
        if matches_at(chars, from, to, needle, at) {
            proof {
                lemma_first_occurrence_unique(window, needle@, at - from);
            }
            return Some(at);
        }
        at += 1;
    }
    if matches_at(chars, from, to, needle, at) {
        proof {
            lemma_first_occurrence_unique(window, needle@, at - from);
        }
        return Some(at);
    }
    proof {
        assert forall|k: int| !occurs_at(window, needle@, k) by {
            if 0 <= k <= to - from {
                assert(!occurs_at(window, needle@, k));
            }
        }
    }
    None
}

/// The characters `from..to` of `s`, as a string of their own.
pub(crate) fn cut(s: &str, from: usize, to: usize) -> (piece: String)
    requires
        from <= to <= s@.len(),
    ensures
        piece@ == s@.subrange(from as int, to as int),
{
    String::from_str(s.substring_char(from, to))
}

} // verus!
