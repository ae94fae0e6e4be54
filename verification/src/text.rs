//! Small functions on text: cutting, searching, and the names and types of
//! snapshot files.

use crate::model::Text;
use vstd::prelude::*;
use vstd::std_specs::iter::IteratorSpec;
use vstd::string::{StrSliceExecFns, StringExecFns};

verus! {

broadcast use vstd::string::group_string_axioms;

/// The characters of a piece of text.
pub fn chars_of(s: &str) -> (r: Vec<char>)
    ensures
        r@ == s@,
{
    let mut out: Vec<char> = Vec::new();
    for c in it: s.chars()
        invariant
            it.seq() == s@,
            out@.len() == it.index(),
            forall|j: int| 0 <= j < out@.len() ==> out@[j] == it.seq()[j],
    {
        out.push(c);
    }
    assert(out@ =~= s@);
    out
}

/// Whether `pat` stands in `s` at position `i`.
pub open spec fn stands_at(s: Text, pat: Text, i: int) -> bool {
    0 <= i && i + pat.len() <= s.len() && s.subrange(i, i + pat.len()) == pat
}

/// The first position at or after `i` at which `pat` stands in `s`.
pub open spec fn find_from(s: Text, pat: Text, i: int) -> Option<int>
    decreases s.len() - i,
{
    if i < 0 || i + pat.len() > s.len() {
        None
    } else if stands_at(s, pat, i) {
        Some(i)
    } else if i + pat.len() == s.len() {
        None
    } else {
        find_from(s, pat, i + 1)
    }
}

/// The first position at which `pat` stands in `s`.
pub open spec fn find(s: Text, pat: Text) -> Option<int> {
    find_from(s, pat, 0)
}

/// The last position before `end` at which `c` stands in `s`.
pub open spec fn find_last_before(s: Text, c: char, end: int) -> Option<int>
    decreases end,
{
    if end <= 0 || end > s.len() {
        None
    } else if s[end - 1] == c {
        Some(end - 1)
    } else {
        find_last_before(s, c, end - 1)
    }
}

/// The last position at which `c` stands in `s`.
pub open spec fn find_last(s: Text, c: char) -> Option<int> {
    find_last_before(s, c, s.len() as int)
}

/// Whether `s` ends in `suffix`.
pub open spec fn ends_in(s: Text, suffix: Text) -> bool {
    stands_at(s, suffix, s.len() - suffix.len())
}

/// What `find_from` finds is the first place at or after `i` where `pat`
/// stands, and where it finds nothing, `pat` stands nowhere from `i` on.
pub proof fn lemma_find_from(s: Text, pat: Text, i: int)
    requires
        0 <= i,
    ensures
        match find_from(s, pat, i) {
            Some(k) => i <= k && stands_at(s, pat, k) && forall|j: int|
                i <= j < k ==> !stands_at(s, pat, j),
            None => forall|j: int| i <= j ==> !stands_at(s, pat, j),
        },
    decreases s.len() - i,
{
    if i + pat.len() < s.len() && !stands_at(s, pat, i) {
        lemma_find_from(s, pat, i + 1);
    }
}

/// What `find_last_before` finds is the last place before `end` where `c`
/// stands.
pub proof fn lemma_find_last(s: Text, c: char, end: int)
    requires
        0 <= end <= s.len(),
    ensures
        match find_last_before(s, c, end) {
            Some(k) => 0 <= k < end && s[k] == c && forall|j: int| k < j < end ==> s[j] != c,
            None => forall|j: int| 0 <= j < end ==> s[j] != c,
        },
    decreases end,
{
    if end > 0 && s[end - 1] != c {
        lemma_find_last(s, c, end - 1);
    }
}

/// Whether `pat` stands in `v` at position `i`.
pub fn matches_at(v: &Vec<char>, pat: &Vec<char>, i: usize) -> (r: bool)
    ensures
        r == stands_at(v@, pat@, i as int),
{
    if pat.len() > v.len() || i > v.len() - pat.len() {
        return false;
    }
    let mut k: usize = 0;
    while k < pat.len()
        invariant
            k <= pat@.len(),
            i + pat@.len() <= v@.len(),
            v@.len() <= usize::MAX,
            forall|j: int| 0 <= j < k ==> v@[i + j] == pat@[j],
        decreases pat@.len() - k,
    {
        if v[i + k] != pat[k] {
            assert(v@.subrange(i as int, i + pat@.len())[k as int] != pat@[k as int]);
            return false;
        }
        k = k + 1;
    }
    assert(v@.subrange(i as int, i + pat@.len()) =~= pat@);
    true
}

/// The first position at or after `from` at which `pat` stands in `v`.
pub fn find_in(v: &Vec<char>, pat: &Vec<char>, from: usize) -> (r: Option<usize>)
    ensures
        match r {
            Some(i) => find_from(v@, pat@, from as int) == Some(i as int) && from <= i && i
                + pat@.len() <= v@.len(),
            None => find_from(v@, pat@, from as int) is None,
        },
{
    let mut i: usize = from;
    while i <= v.len()
        invariant
            from <= i,
            find_from(v@, pat@, from as int) == find_from(v@, pat@, i as int),
        decreases v@.len() + 1 - i,
    {
        if matches_at(v, pat, i) {
            return Some(i);
        }
        if i == v.len() {
            return None;
        }
        i = i + 1;
    }
    None
}

/// The last position at which `c` stands in `v`.
pub fn find_last_in(v: &Vec<char>, c: char) -> (r: Option<usize>)
    ensures
        match r {
            Some(i) => find_last(v@, c) == Some(i as int) && i < v@.len(),
            None => find_last(v@, c) is None,
        },
{
    let mut end: usize = v.len();
    while end > 0
        invariant
            end <= v@.len(),
            find_last(v@, c) == find_last_before(v@, c, end as int),
        decreases end,
    {
        if v[end - 1] == c {
            return Some(end - 1);
        }
        end = end - 1;
    }
    None
}

/// Whether `v` ends in `suffix`.
pub fn ends_with(v: &Vec<char>, suffix: &Vec<char>) -> (r: bool)
    ensures
        r == ends_in(v@, suffix@),
{
    if suffix.len() > v.len() {
        return false;
    }
    matches_at(v, suffix, v.len() - suffix.len())
}

/// What is put behind a piece of text that was cut.
pub open spec fn ellipsis() -> Text {
    "..."@
}

/// `s` cut to `max_chars` characters: `s` itself where it is no longer, else
/// its first `max_chars` characters and an ellipsis.
pub open spec fn truncated(s: Text, max_chars: int) -> Text {
    if s.len() <= max_chars {
        s
    } else {
        s.take(max_chars) + ellipsis()
    }
}

/// Cuts a piece of text to `max_chars` characters, counted as characters and
/// not as bytes.
pub fn truncate_str(s: &str, max_chars: usize) -> (r: String)
    ensures
        r@ == truncated(s@, max_chars as int),
{
    if s.unicode_len() <= max_chars {
        String::from_str(s)
    } else {
        let mut out = String::from_str(s.substring_char(0, max_chars));
        out.append("...");
        assert(out@ =~= s@.take(max_chars as int) + ellipsis());
        out
    }
}

/// What separates the scheme of an address from the rest.
pub open spec fn scheme_mark() -> Text {
    "://"@
}

/// The domain named where an address has none.
pub open spec fn unknown_domain() -> Text {
    "unknown"@
}

/// `s` up to the first place where `pat` stands, or all of it.
pub open spec fn up_to(s: Text, pat: Text) -> Text {
    match find(s, pat) {
        Some(i) => s.take(i),
        None => s,
    }
}

/// The domain of an address: what stands between the first scheme mark and
/// the next scheme mark or slash.
pub open spec fn domain_of(url: Text) -> Text {
    match find(url, scheme_mark()) {
        Some(i) => up_to(up_to(url.skip(i + 3), scheme_mark()), seq!['/']),
        None => unknown_domain(),
    }
}

/// Searching in what follows position `base` finds the same places as
/// searching in the whole from `base` on.
proof fn lemma_find_shift(s: Text, pat: Text, base: int, i: int)
    requires
        0 <= base <= s.len(),
        0 <= i,
    ensures
        find_from(s.skip(base), pat, i) == match find_from(s, pat, base + i) {
            Some(k) => Some(k - base),
            None => None,
        },
    decreases s.len() - base - i,
{
    let t = s.skip(base);
    if i + pat.len() <= t.len() {
        assert(t.subrange(i, i + pat.len()) =~= s.subrange(base + i, base + i + pat.len()));
        if !stands_at(t, pat, i) && i + pat.len() < t.len() {
            lemma_find_shift(s, pat, base, i + 1);
        }
    }
}

/// Searching for one character in the first `end` characters finds what
/// searching in the whole finds, where that lies before `end`.
proof fn lemma_find_in_prefix(s: Text, pat: Text, end: int, i: int)
    requires
        0 <= i,
        0 <= end <= s.len(),
        pat.len() == 1,
    ensures
        find_from(s.take(end), pat, i) == match find_from(s, pat, i) {
            Some(k) => if k < end {
                Some(k)
            } else {
                None
            },
            None => None,
        },
    decreases s.len() - i,
{
    let t = s.take(end);
    if i + 1 > s.len() {
    } else if i + 1 > end {
        lemma_find_from(s, pat, i);
    } else {
        assert(t.subrange(i, i + 1) =~= s.subrange(i, i + 1));
        if !stands_at(s, pat, i) {
            if i + 1 < s.len() {
                lemma_find_in_prefix(s, pat, end, i + 1);
            }
            if i + 1 == end {
                lemma_find_from(s, pat, i + 1);
            }
        }
    }
}

/// The domain of an address, or `unknown` where the address has no scheme
/// mark.
pub fn extract_domain(url: &str) -> (r: String)
    ensures
        r@ == domain_of(url@),
{
    let v = chars_of(url);
    let length: usize = v.len();
    let mark = chars_of("://");
    let slash = chars_of("/");
    proof {
        reveal_strlit("://");
        reveal_strlit("/");
        assert(slash@ =~= seq!['/']);
        assert(mark@.len() == 3);
    }
    match find_in(&v, &mark, 0) {
        None => String::from_str("unknown"),
        Some(i) => {
            let start: usize = i + 3;
            let limit: usize = match find_in(&v, &mark, start) {
                Some(q) => q,
                None => length,
            };
            let end: usize = match find_in(&v, &slash, start) {
                Some(p) => if p < limit {
                    p
                } else {
                    limit
                },
                None => limit,
            };
            proof {
                let rest = v@.skip(start as int);
                lemma_find_shift(v@, mark@, start as int, 0);
                lemma_find_shift(v@, slash@, start as int, 0);
                lemma_find_from(v@, slash@, start as int);
                let seg = up_to(rest, mark@);
                assert(seg =~= rest.take(limit - start));
                assert(seg =~= v@.subrange(start as int, limit as int));
                lemma_find_in_prefix(rest, slash@, limit - start, 0);
                assert(up_to(seg, slash@) =~= v@.subrange(start as int, end as int));
            }
            String::from_str(url.substring_char(start, end))
        },
    }
}

/// A snapshot file of the old naming scheme, which kept the time in the
/// name: it has an underscore in its name, and the suffix of a snapshot.
pub open spec fn legacy_name(name: Text) -> bool {
    name.contains('_') && ends_in(name, ".jpg"@)
}

/// Whether a file of the snapshot directory is left over from the old
/// naming scheme, and is to be deleted at startup.
pub fn is_legacy_screenshot_name(name: &str) -> (r: bool)
    ensures
        r == legacy_name(name@),
{
    let v = chars_of(name);
    let suffix = chars_of(".jpg");
    let found = find_last_in(&v, '_');
    proof {
        lemma_find_last_contains(v@, '_', v@.len() as int);
        assert(v@.take(v@.len() as int) =~= v@);
    }
    found.is_some() && ends_with(&v, &suffix)
}

/// The search from the back finds something exactly where the character
/// occurs.
proof fn lemma_find_last_contains(s: Text, c: char, end: int)
    requires
        0 <= end <= s.len(),
    ensures
        find_last_before(s, c, end) is Some <==> s.take(end).contains(c),
    decreases end,
{
    if end > 0 {
        lemma_find_last_contains(s, c, end - 1);
        let longer = s.take(end);
        let shorter = s.take(end - 1);
        if s[end - 1] == c {
            assert(longer[end - 1] == c);
        } else {
            if longer.contains(c) {
                let j = choose|j: int| 0 <= j < longer.len() && longer[j] == c;
                assert(shorter[j] == c);
            }
            if shorter.contains(c) {
                let j = choose|j: int| 0 <= j < shorter.len() && shorter[j] == c;
                assert(longer[j] == c);
            }
        }
    }
}

/// The media type under which a snapshot file is served, by its suffix.
pub open spec fn media_type(name: Text) -> Text {
    if ends_in(name, ".jpg"@) || ends_in(name, ".jpeg"@) {
        "image/jpeg"@
    } else if ends_in(name, ".png"@) {
        "image/png"@
    } else {
        "application/octet-stream"@
    }
}

/// The media type under which a snapshot file is served.
pub fn content_type_for(name: &str) -> (r: &'static str)
    ensures
        r@ == media_type(name@),
{
    let v = chars_of(name);
    if ends_with(&v, &chars_of(".jpg")) || ends_with(&v, &chars_of(".jpeg")) {
        "image/jpeg"
    } else if ends_with(&v, &chars_of(".png")) {
        "image/png"
    } else {
        "application/octet-stream"
    }
}

/// What the classifier's answer lacks when no array can be cut from it.
#[derive(Debug, Clone, Copy, PartialEq, Eq, Structural)]
pub enum ArrayError {
    /// The answer has no opening bracket.
    NoArray,
    /// The answer has no closing bracket behind its first opening bracket.
    NoClosingBracket,
}

impl ArrayError {
    /// What the caller is told of the error.
    pub open spec fn text(self) -> Text {
        match self {
            ArrayError::NoArray => "No JSON array found"@,
            ArrayError::NoClosingBracket => "No closing bracket found"@,
        }
    }

    /// What the caller is told of the error.
    pub fn message(&self) -> (r: String)
        ensures
            r@ == self.text(),
    {
        match self {
            ArrayError::NoArray => String::from_str("No JSON array found"),
            ArrayError::NoClosingBracket => String::from_str("No closing bracket found"),
        }
    }
}

/// Where the array of the classifier's answer starts and ends: from the
/// first opening bracket to the last closing bracket, which has to come
/// behind it.
pub open spec fn array_span(content: Text) -> Result<(int, int), ArrayError> {
    match find(content, seq!['[']) {
        None => Err(ArrayError::NoArray),
        Some(start) => match find_last(content, ']') {
            None => Err(ArrayError::NoClosingBracket),
            Some(last) => if start < last {
                Ok((start, last + 1))
            } else {
                Err(ArrayError::NoClosingBracket)
            },
        },
    }
}

/// The array of the classifier's answer, as text.
pub open spec fn array_text(content: Text) -> Result<Text, ArrayError> {
    match array_span(content) {
        Ok((start, end)) => Ok(content.subrange(start, end)),
        Err(e) => Err(e),
    }
}

/// Cuts the array out of the classifier's answer: the text from the first
/// opening bracket to the last closing bracket.
pub fn extract_json_array(content: &str) -> (r: Result<String, ArrayError>)
    ensures
        match r {
            Ok(text) => array_text(content@) == Ok::<Text, ArrayError>(text@),
            Err(e) => array_text(content@) == Err::<Text, ArrayError>(e),
        },
{
    let v = chars_of(content);
    let length: usize = v.len();
    let open = chars_of("[");
    proof {
        reveal_strlit("[");
        assert(open@ =~= seq!['[']);
    }
    match find_in(&v, &open, 0) {
        None => Err(ArrayError::NoArray),
        Some(start) => match find_last_in(&v, ']') {
            None => Err(ArrayError::NoClosingBracket),
            Some(last) => {
                if start < last {
                    Ok(String::from_str(content.substring_char(start, last + 1)))
                } else {
                    Err(ArrayError::NoClosingBracket)
                }
            },
        },
    }
}

} // verus!
