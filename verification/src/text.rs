//! Text helpers shared by the other modules: concatenation, joining with a
//! separator, and trimming of surrounding whitespace.

use vstd::prelude::*;

verus! {

/// The texts of `parts` in order, with `sep` between neighbours.
pub open spec fn joined(parts: Seq<Seq<char>>, sep: Seq<char>) -> Seq<char>
    decreases parts.len(),
{
    if parts.len() == 0 {
        Seq::empty()
    } else if parts.len() == 1 {
        parts[0]
    } else {
        joined(parts.drop_last(), sep) + sep + parts.last()
    }
}

/// Whether `c` has the Unicode property `White_Space`.
pub open spec fn is_whitespace(c: char) -> bool {
    ||| '\u{9}' <= c <= '\u{d}'
    ||| c == ' '
    ||| c == '\u{85}'
    ||| c == '\u{a0}'
    ||| c == '\u{1680}'
    ||| '\u{2000}' <= c <= '\u{200a}'
    ||| c == '\u{2028}'
    ||| c == '\u{2029}'
    ||| c == '\u{202f}'
    ||| c == '\u{205f}'
    ||| c == '\u{3000}'
}

/// Index of the first character at or after `from` that is not whitespace;
/// the length of `s` when there is none.
pub open spec fn skip_whitespace(s: Seq<char>, from: int) -> int
    decreases s.len() - from,
{
    if 0 <= from < s.len() && is_whitespace(s[from]) {
        skip_whitespace(s, from + 1)
    } else {
        from
    }
}

/// Where the text before `to` ends once the whitespace at its end is left
/// out, never going below `floor`.
pub open spec fn drop_whitespace(s: Seq<char>, floor: int, to: int) -> int
    decreases to - floor,
{
    if floor < to <= s.len() && is_whitespace(s[to - 1]) {
        drop_whitespace(s, floor, to - 1)
    } else {
        to
    }
}

/// `s` without the whitespace at its start and at its end.
pub open spec fn trimmed(s: Seq<char>) -> Seq<char> {
    let start = skip_whitespace(s, 0);
    let end = drop_whitespace(s, start, s.len() as int);
    s.subrange(start, end)
}

/// Puts `head` before `tail` in a new string.
pub fn prefixed(head: &str, tail: &str) -> (out: String)
    ensures
        out@ == head@ + tail@,
{
    let mut out = String::from_str(head);
    out.append(tail);
    out
}

/// Joins `parts` with `sep` between neighbours.
pub fn join(parts: &Vec<String>, sep: &str) -> (out: String)
    ensures
        out@ == joined(parts.deep_view(), sep@),
{
    let mut out = String::new();
    let mut i: usize = 0;
    while i < parts.len()
        invariant
            i <= parts.len(),
            out@ == joined(parts.deep_view().take(i as int), sep@),
        decreases parts.len() - i,
    {
        let ghost before = parts.deep_view().take(i as int);
        let ghost after = parts.deep_view().take(i + 1);
        assert(after.drop_last() == before);
        assert(after.last() == parts[i as int]@);
        if i > 0 {
            out.append(sep);
        }
        out.append(parts[i].as_str());
        i += 1;
    }
    assert(parts.deep_view().take(parts.len() as int) == parts.deep_view());
    out
}

/// Tells whether `c` is a whitespace character.
pub fn is_whitespace_char(c: char) -> (yes: bool)
    ensures
        yes == is_whitespace(c),
{
    ('\u{9}' <= c && c <= '\u{d}') || c == ' ' || c == '\u{85}' || c == '\u{a0}' || c
        == '\u{1680}' || ('\u{2000}' <= c && c <= '\u{200a}') || c == '\u{2028}' || c
        == '\u{2029}' || c == '\u{202f}' || c == '\u{205f}' || c == '\u{3000}'
}

/// Returns `s` without the whitespace at its start and at its end.
pub fn trim(s: &str) -> (out: String)
    ensures
        out@ == trimmed(s@),
{
    let mut chars: Vec<char> = Vec::new();
    for c in it: s.chars()
        invariant
            it.seq() == s@,
            chars@ == s@.take(it.index()),
    {
        chars.push(c);
        assert(s@.take(it.index() + 1) == s@.take(it.index()).push(c));
    }
    assert(chars@ == s@);
    let n = chars.len();
    let mut start: usize = 0;
    while start < n && is_whitespace_char(chars[start])
        invariant
            start <= n == chars.len(),
            chars@ == s@,
            skip_whitespace(s@, 0) == skip_whitespace(s@, start as int),
        decreases n - start,
    {
        start += 1;
    }
    let mut end: usize = n;
    while start < end && is_whitespace_char(chars[end - 1])
        invariant
            start <= end <= n == chars.len(),
            chars@ == s@,
            drop_whitespace(s@, start as int, n as int) == drop_whitespace(
                s@,
                start as int,
                end as int,
            ),
        decreases end - start,
    {
        end -= 1;
    }
    String::from_str(s.substring_char(start, end))
}

/// Copies each text of `parts` into a string of its own.
pub fn owned(parts: Vec<&str>) -> (out: Vec<String>)
    ensures
        out.deep_view() == parts.deep_view(),
{
    let mut out: Vec<String> = Vec::new();
    let mut i: usize = 0;
    while i < parts.len()
        invariant
            i <= parts.len(),
            out.len() == i,
            forall|k: int| 0 <= k < i ==> out[k]@ == parts[k]@,
        decreases parts.len() - i,
    {
        out.push(String::from_str(parts[i]));
        i += 1;
    }
    assert(out.deep_view() =~= parts.deep_view());
    out
}

/// From `from` on, everything before the place where skipping stops is
/// whitespace, and what stands at that place is not.
proof fn lemma_skip_whitespace(s: Seq<char>, from: int)
    requires
        0 <= from <= s.len(),
    ensures
        from <= skip_whitespace(s, from) <= s.len(),
        forall|i: int| from <= i < skip_whitespace(s, from) ==> is_whitespace(s[i]),
        skip_whitespace(s, from) < s.len() ==> !is_whitespace(s[skip_whitespace(s, from)]),
    decreases s.len() - from,
{
    if from < s.len() && is_whitespace(s[from]) {
        lemma_skip_whitespace(s, from + 1);
    }
}

/// Before `to`, everything from the place where dropping stops is
/// whitespace, and what stands just before that place is not, unless the
/// floor was reached.
proof fn lemma_drop_whitespace(s: Seq<char>, floor: int, to: int)
    requires
        0 <= floor <= to <= s.len(),
    ensures
        floor <= drop_whitespace(s, floor, to) <= to,
        forall|i: int| drop_whitespace(s, floor, to) <= i < to ==> is_whitespace(s[i]),
        floor < drop_whitespace(s, floor, to) ==> !is_whitespace(
            s[drop_whitespace(s, floor, to) - 1],
        ),
    decreases to - floor,
{
    if floor < to && is_whitespace(s[to - 1]) {
        lemma_drop_whitespace(s, floor, to - 1);
    }
}

/// Trimming cuts whitespace and nothing else: the trimmed text is a
/// stretch of `s`, all that stands before and behind it in `s` is
/// whitespace, and if it is not empty it neither starts nor ends with
/// whitespace.
pub proof fn lemma_trimmed_is_tight(s: Seq<char>)
    ensures
        ({
            let start = skip_whitespace(s, 0);
            let end = drop_whitespace(s, start, s.len() as int);
            &&& 0 <= start <= end <= s.len()
            &&& trimmed(s) == s.subrange(start, end)
            &&& forall|i: int| 0 <= i < start ==> is_whitespace(s[i])
            &&& forall|i: int| end <= i < s.len() ==> is_whitespace(s[i])
            &&& trimmed(s).len() > 0 ==> !is_whitespace(trimmed(s).first()) && !is_whitespace(
                trimmed(s).last(),
            )
        }),
{
    lemma_skip_whitespace(s, 0);
    let start = skip_whitespace(s, 0);
    lemma_drop_whitespace(s, start, s.len() as int);
}

/// A text without whitespace at its ends is its own trimming; so trimming
/// twice is trimming once.
pub proof fn lemma_trimmed_twice(s: Seq<char>)
    ensures
        trimmed(trimmed(s)) == trimmed(s),
{
    lemma_trimmed_is_tight(s);
    let t = trimmed(s);
    if t.len() > 0 {
        assert(skip_whitespace(t, 0) == 0);
        assert(drop_whitespace(t, 0, t.len() as int) == t.len());
        assert(t.subrange(0, t.len() as int) =~= t);
    } else {
        assert(skip_whitespace(t, 0) == 0);
        assert(drop_whitespace(t, 0, 0) == 0);
        assert(t.subrange(0, 0) =~= t);
    }
}

} // verus!
