//! Text helpers shared by the parsers, with the models of lines, trimming
//! and searching that the rest of the crate states its contracts over.

use vstd::prelude::*;
use vstd::string::*;

verus! {

/// `needle` occurs somewhere in `hay` as a contiguous run of characters.
pub open spec fn has_substring(hay: Seq<char>, needle: Seq<char>) -> bool {
    exists|i: int|
        0 <= i && i + needle.len() <= hay.len() && #[trigger] hay.subrange(i, i + needle.len())
            == needle
}

/// `text` begins with `prefix`.
pub open spec fn has_prefix(text: Seq<char>, prefix: Seq<char>) -> bool {
    prefix.len() <= text.len() && text.subrange(0, prefix.len() as int) == prefix
}

/// `text` ends with `suffix`.
pub open spec fn has_suffix(text: Seq<char>, suffix: Seq<char>) -> bool {
    suffix.len() <= text.len() && text.subrange(text.len() - suffix.len(), text.len() as int)
        == suffix
}

/// Whitespace as Unicode defines it (the property `White_Space`).
pub open spec fn is_whitespace(c: char) -> bool {
    let code = c as u32;
    (0x09 <= code <= 0x0D) || code == 0x20 || code == 0x85 || code == 0xA0 || code == 0x1680 || (
    0x2000 <= code <= 0x200A) || code == 0x2028 || code == 0x2029 || code == 0x202F || code
        == 0x205F || code == 0x3000
}

/// A line without the carriage return that may end it.
pub open spec fn without_cr(line: Seq<char>) -> Seq<char> {
    if line.len() > 0 && line.last() == '\r' {
        line.drop_last()
    } else {
        line
    }
}

/// The lines of `text` that are still to come when a line began at `start`
/// and has been read up to `at`. A line ends at a newline, which is not part
/// of it, nor is a carriage return just before that newline. Text after the
/// last newline is a line of its own, unless it is empty.
pub open spec fn lines_scan(text: Seq<char>, start: int, at: int) -> Seq<Seq<char>>
    decreases text.len() - at,
{
    if start < 0 || at < start {
        Seq::empty()
    } else if at >= text.len() {
        if start < text.len() {
            seq![text.subrange(start, text.len() as int)]
        } else {
            Seq::empty()
        }
    } else if text[at] == '\n' {
        seq![without_cr(text.subrange(start, at))] + lines_scan(text, at + 1, at + 1)
    } else {
        lines_scan(text, start, at + 1)
    }
}

/// The lines of a text.
pub open spec fn lines_of(text: Seq<char>) -> Seq<Seq<char>> {
    lines_scan(text, 0, 0)
}

/// Position of the first character at or after `at` that is not whitespace;
/// the length of `text` when there is none.
pub open spec fn trim_start_from(text: Seq<char>, at: int) -> int
    decreases text.len() - at,
{
    if at < 0 || at >= text.len() {
        text.len() as int
    } else if is_whitespace(text[at]) {
        trim_start_from(text, at + 1)
    } else {
        at
    }
}

/// Position behind the last character before `at` that is not whitespace,
/// looking no further back than `start`.
pub open spec fn trim_end_from(text: Seq<char>, start: int, at: int) -> int
    decreases at,
{
    if start < 0 || at <= start || at > text.len() {
        start
    } else if is_whitespace(text[at - 1]) {
        trim_end_from(text, start, at - 1)
    } else {
        at
    }
}

/// A text without its leading and trailing whitespace.
pub open spec fn trimmed(text: Seq<char>) -> Seq<char> {
    let start = trim_start_from(text, 0);
    text.subrange(start, trim_end_from(text, start, text.len() as int))
}

/// Position at which the run of characters without whitespace begins that
/// ends at `at`, looking no further back than `start`.
pub open spec fn word_start_from(text: Seq<char>, start: int, at: int) -> int
    decreases at,
{
    if start < 0 || at <= start || at > text.len() {
        start
    } else if is_whitespace(text[at - 1]) {
        at
    } else {
        word_start_from(text, start, at - 1)
    }
}

/// The last of the whitespace-separated words of a text, if it has any.
pub open spec fn last_word_of(text: Seq<char>) -> Option<Seq<char>> {
    let start = trim_start_from(text, 0);
    let end = trim_end_from(text, start, text.len() as int);
    if start >= end {
        None
    } else {
        Some(text.subrange(word_start_from(text, start, end), end))
    }
}

/// What follows position `at` in `text`, with every occurrence of `from`
/// replaced by `to`. Occurrences are taken from the left and do not
/// overlap; an empty `from` occurs nowhere.
pub open spec fn replaced_from(text: Seq<char>, from: Seq<char>, to: Seq<char>, at: int) -> Seq<
    char,
>
    decreases text.len() - at,
{
    if at < 0 || at >= text.len() {
        Seq::empty()
    } else if from.len() > 0 && at + from.len() <= text.len() && text.subrange(
        at,
        at + from.len(),
    ) == from {
        to + replaced_from(text, from, to, at + from.len())
    } else {
        seq![text[at]] + replaced_from(text, from, to, at + 1)
    }
}

/// A text with every occurrence of `from` replaced by `to`.
pub open spec fn replaced(text: Seq<char>, from: Seq<char>, to: Seq<char>) -> Seq<char> {
    replaced_from(text, from, to, 0)
}

/// Position of the first `c` in `text` at or after `from`; the length of
/// `text` when there is none.
pub open spec fn first_index_from(text: Seq<char>, c: char, from: int) -> int
    decreases text.len() - from,
{
    if from < 0 || from >= text.len() {
        text.len() as int
    } else if text[from] == c {
        from
    } else {
        first_index_from(text, c, from + 1)
    }
}

/// What follows the first `c` in `text`, if `c` occurs at all.
pub open spec fn after_first(text: Seq<char>, c: char) -> Option<Seq<char>> {
    let at = first_index_from(text, c, 0);
    if at < text.len() {
        Some(text.subrange(at + 1, text.len() as int))
    } else {
        None
    }
}

/// Two path components joined the way `Path::join` does on Unix: an absolute
/// `name` stands alone, and a separator is added only where `base` lacks one.
pub open spec fn joined(base: Seq<char>, name: Seq<char>) -> Seq<char> {
    if has_prefix(name, "/"@) || base.len() == 0 {
        name
    } else if has_suffix(base, "/"@) {
        base + name
    } else {
        base + "/"@ + name
    }
}

/// Trusted: `str::chars`, collected. The result holds the characters of the
/// text in order.
#[verifier::external_body]
pub(crate) fn chars_of(text: &str) -> (r: Vec<char>)
    ensures
        r@ == text@,
{
    text.chars().collect()
}

/// Trusted: `String::from_iter` over a part of a slice of characters. The
/// result holds the characters from position `from` up to `to`.
#[verifier::external_body]
pub(crate) fn text_of(chars: &Vec<char>, from: usize, to: usize) -> (r: String)
    requires
        from <= to <= chars@.len(),
    ensures
        r@ == chars@.subrange(from as int, to as int),
{
    chars[from..to].iter().collect()
}

/// Whether a character is whitespace.
pub fn is_space(c: char) -> (r: bool)
    ensures
        r == is_whitespace(c),
{
    let code: u32 = c as u32;
    (0x09 <= code && code <= 0x0D) || code == 0x20 || code == 0x85 || code == 0xA0 || code
        == 0x1680 || (0x2000 <= code && code <= 0x200A) || code == 0x2028 || code == 0x2029
        || code == 0x202F || code == 0x205F || code == 0x3000
}

/// The lines of a text.
pub fn lines(text: &str) -> (r: Vec<String>)
    ensures
        r.deep_view() == lines_of(text@),
{
    let chars = chars_of(text);
    let n: usize = chars.len();
    let mut out: Vec<String> = Vec::new();
    let mut start: usize = 0;
    let mut at: usize = 0;
    assert(out.deep_view() =~= Seq::<Seq<char>>::empty());
    while at < n
        invariant
            start <= at <= n,
            n == chars@.len(),
            chars@ == text@,
            out.deep_view() + lines_scan(text@, start as int, at as int) == lines_of(text@),
        decreases n - at,
    {
        if chars[at] == '\n' {
            let ghost whole = text@.subrange(start as int, at as int);
            let mut end: usize = at;
            if end > start && chars[end - 1] == '\r' {
                end = end - 1;
                assert(whole.drop_last() =~= text@.subrange(start as int, end as int));
            }
            let line = text_of(&chars, start, end);
            assert(line@ == without_cr(whole));
            let ghost before = out.deep_view();
            out.push(line);
            assert(out.deep_view() =~= before.push(without_cr(whole)));
            assert(before.push(without_cr(whole)) + lines_scan(text@, at + 1, at + 1) =~= before
                + lines_scan(text@, start as int, at as int));
            start = at + 1;
        }
        at += 1;
    }
    if start < n {
        let line = text_of(&chars, start, n);
        let ghost before = out.deep_view();
        out.push(line);
        assert(out.deep_view() =~= before + lines_scan(text@, start as int, at as int));
    } else {
        assert(out.deep_view() + lines_scan(text@, start as int, at as int) =~= out.deep_view());
    }
    out
}

/// The span of `chars` that is left when the whitespace at both ends is
/// taken away.
fn trim_bounds(chars: &Vec<char>) -> (r: (usize, usize))
    ensures
        r.0 <= r.1 <= chars@.len(),
        r.0 == trim_start_from(chars@, 0),
        r.1 == trim_end_from(chars@, r.0 as int, chars@.len() as int),
{
    let n: usize = chars.len();
    let mut start: usize = 0;
    while start < n && is_space(chars[start])
        invariant
            start <= n,
            n == chars@.len(),
            trim_start_from(chars@, 0) == trim_start_from(chars@, start as int),
        decreases n - start,
    {
        start += 1;
    }
    let mut end: usize = n;
    while end > start && is_space(chars[end - 1])
        invariant
            start <= end <= n,
            n == chars@.len(),
            trim_end_from(chars@, start as int, n as int) == trim_end_from(
                chars@,
                start as int,
                end as int,
            ),
        decreases end,
    {
        end -= 1;
    }
    (start, end)
}

/// A text without its leading and trailing whitespace.
pub fn trim(text: &str) -> (r: String)
    ensures
        r@ == trimmed(text@),
{
    let chars = chars_of(text);
    let (start, end) = trim_bounds(&chars);
    text_of(&chars, start, end)
}

/// The last of the whitespace-separated words of a text.
pub fn last_word(text: &str) -> (r: Option<String>)
    ensures
        r.deep_view() == last_word_of(text@),
{
    let chars = chars_of(text);
    let (start, end) = trim_bounds(&chars);
    if start >= end {
        return None;
    }
    let mut at: usize = end;
    while at > start && !is_space(chars[at - 1])
        invariant
            start <= at <= end <= chars@.len(),
            word_start_from(chars@, start as int, end as int) == word_start_from(
                chars@,
                start as int,
                at as int,
            ),
        decreases at,
    {
        at -= 1;
    }
    Some(text_of(&chars, at, end))
}

/// Whether `needle` stands in `hay` at position `at`.
fn matches_at(hay: &Vec<char>, needle: &Vec<char>, at: usize) -> (r: bool)
    requires
        at + needle@.len() <= hay@.len(),
    ensures
        r == (hay@.subrange(at as int, at + needle@.len()) == needle@),
{
    let ghost part = hay@.subrange(at as int, at + needle@.len());
    let size: usize = hay.len();
    let mut k: usize = 0;
    while k < needle.len()
        invariant
            k <= needle@.len(),
            at + needle@.len() <= hay@.len() == size,
            part == hay@.subrange(at as int, at + needle@.len()),
            forall|j: int| 0 <= j < k ==> part[j] == needle@[j],
        decreases needle@.len() - k,
    {
        if hay[at + k] != needle[k] {
            assert(part[k as int] != needle@[k as int]);
            return false;
        }
        k += 1;
    }
    assert(part =~= needle@);
    true
}

/// Whether `needle` occurs in `hay`.
pub fn contains(hay: &str, needle: &str) -> (r: bool)
    ensures
        r == has_substring(hay@, needle@),
{
    let h = chars_of(hay);
    let n = chars_of(needle);
    if n.len() > h.len() {
        return false;
    }
    let last: usize = h.len() - n.len();
    let mut at: usize = 0;
    loop
        invariant
            at <= last,
            last + n@.len() == h@.len(),
            h@ == hay@,
            n@ == needle@,
            forall|i: int| 0 <= i < at ==> #[trigger] h@.subrange(i, i + n@.len()) != n@,
        decreases last - at,
    {
        if matches_at(&h, &n, at) {
            return true;
        }
        if at == last {
            return false;
        }
        at += 1;
    }
}

/// Appends every character of `more` to `out`.
fn push_all(out: &mut Vec<char>, more: &Vec<char>)
    ensures
        final(out)@ == old(out)@ + more@,
{
    let ghost before = out@;
    let mut i: usize = 0;
    while i < more.len()
        invariant
            i <= more@.len(),
            out@ == before + more@.subrange(0, i as int),
        decreases more@.len() - i,
    {
        out.push(more[i]);
        assert(out@ =~= before + more@.subrange(0, i + 1));
        i += 1;
    }
    assert(more@.subrange(0, i as int) =~= more@);
}

/// A text with every occurrence of `from` replaced by `to`.
pub fn replace(text: &str, from: &str, to: &str) -> (r: String)
    ensures
        r@ == replaced(text@, from@, to@),
{
    let t = chars_of(text);
    let f = chars_of(from);
    let o = chars_of(to);
    let n: usize = t.len();
    let mut out: Vec<char> = Vec::new();
    let mut at: usize = 0;
    while at < n
        invariant
            at <= n,
            n == t@.len(),
            t@ == text@,
            f@ == from@,
            o@ == to@,
            out@ + replaced_from(text@, from@, to@, at as int) == replaced(text@, from@, to@),
        decreases n - at,
    {
        let ghost before = out@;
        if f.len() > 0 && f.len() <= n - at && matches_at(&t, &f, at) {
            push_all(&mut out, &o);
            assert((before + to@) + replaced_from(text@, from@, to@, at + from@.len()) =~= before
                + replaced_from(text@, from@, to@, at as int));
            at += f.len();
        } else {
            out.push(t[at]);
            assert(before.push(text@[at as int]) + replaced_from(text@, from@, to@, at + 1)
                =~= before + replaced_from(text@, from@, to@, at as int));
            at += 1;
        }
    }
    assert(out@ + replaced_from(text@, from@, to@, at as int) =~= out@);
    assert(out@.subrange(0, out@.len() as int) =~= out@);
    text_of(&out, 0, out.len())
}

/// Whether `text` begins with `prefix`.
pub fn starts_with(text: &str, prefix: &str) -> (r: bool)
    ensures
        r == has_prefix(text@, prefix@),
{
    let t = chars_of(text);
    let p = chars_of(prefix);
    p.len() <= t.len() && matches_at(&t, &p, 0)
}

/// Whether `text` ends with `suffix`.
pub fn ends_with(text: &str, suffix: &str) -> (r: bool)
    ensures
        r == has_suffix(text@, suffix@),
{
    let t = chars_of(text);
    let s = chars_of(suffix);
    s.len() <= t.len() && matches_at(&t, &s, t.len() - s.len())
}

/// Concatenation of two texts.
pub fn cat(a: &str, b: &str) -> (r: String)
    ensures
        r@ == a@ + b@,
{
    String::from_str(a).concat(b)
}

/// Whether two texts hold the same characters.
pub fn same_text(a: &str, b: &str) -> (r: bool)
    ensures
        r == (a@ == b@),
{
    String::from_str(a) == String::from_str(b)
}

/// Joins two path components.
pub fn join_path(base: &str, name: &str) -> (r: String)
    ensures
        r@ == joined(base@, name@),
{
    if starts_with(name, "/") || base.is_empty() {
        String::from_str(name)
    } else if ends_with(base, "/") {
        cat(base, name)
    } else {
        cat(cat(base, "/").as_str(), name)
    }
}

/// The part of `text` behind its first `c`.
pub fn text_after_first(text: &str, c: char) -> (r: Option<String>)
    ensures
        r.deep_view() == after_first(text@, c),
{
    let chars = chars_of(text);
    let n: usize = chars.len();
    let mut i: usize = 0;
    while i < n
        invariant
            n == text@.len(),
            chars@ == text@,
            i <= n,
            first_index_from(text@, c, 0) == first_index_from(text@, c, i as int),
        decreases n - i,
    {
        if chars[i] == c {
            return Some(text_of(&chars, i + 1, n));
        }
        i += 1;
    }
    None
}

} // verus!
