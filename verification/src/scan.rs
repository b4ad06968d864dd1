//! Scanning of text, character by character: lines, prefixes, separators
//! and the like, each with its meaning stated over the characters.

use crate::text::chars_of;
use vstd::prelude::*;

verus! {

/// Whether `s` begins with `prefix`.
pub open spec fn starts_with(s: Seq<char>, prefix: Seq<char>) -> bool {
    prefix.len() <= s.len() && s.take(prefix.len() as int) == prefix
}

/// Whether `s` ends with `suffix`.
pub open spec fn ends_with(s: Seq<char>, suffix: Seq<char>) -> bool {
    suffix.len() <= s.len() && s.skip(s.len() - suffix.len()) == suffix
}

/// Whether `needle` stands in `hay` at the index `i`.
pub open spec fn occurs_at(hay: Seq<char>, needle: Seq<char>, i: int) -> bool {
    0 <= i && i + needle.len() <= hay.len() && hay.subrange(i, i + needle.len()) == needle
}

/// Index of the first occurrence of `needle` in `hay` at or after `from`.
pub open spec fn first_at(hay: Seq<char>, needle: Seq<char>, from: int) -> Option<int>
    decreases hay.len() + 1 - from,
{
    if 0 <= from && from + needle.len() <= hay.len() {
        if occurs_at(hay, needle, from) {
            Some(from)
        } else {
            first_at(hay, needle, from + 1)
        }
    } else {
        None
    }
}

/// Whether `needle` occurs in `hay`.
pub open spec fn contains(hay: Seq<char>, needle: Seq<char>) -> bool {
    first_at(hay, needle, 0) is Some
}

/// What the search for an occurrence finds: the first one from `from` on,
/// or nothing where there is none.
pub proof fn lemma_first_at(hay: Seq<char>, needle: Seq<char>, from: int)
    requires
        0 <= from,
    ensures
        match first_at(hay, needle, from) {
            Some(i) => from <= i && occurs_at(hay, needle, i) && forall|j: int|
                from <= j < i ==> !occurs_at(hay, needle, j),
            None => forall|j: int| from <= j ==> !occurs_at(hay, needle, j),
        },
    decreases hay.len() + 1 - from,
{
    if from + needle.len() <= hay.len() && !occurs_at(hay, needle, from) {
        lemma_first_at(hay, needle, from + 1);
    }
}

/// Index of the first `c` in `s` at or after `from`, or the length of `s`
/// where there is none.
pub open spec fn next_char(s: Seq<char>, c: char, from: int) -> int
    decreases s.len() - from,
{
    if from < 0 || from >= s.len() {
        s.len() as int
    } else if s[from] == c {
        from
    } else {
        next_char(s, c, from + 1)
    }
}

/// Where the search for a character ends: at the character or at the end,
/// and never before `from`.
pub proof fn lemma_next_char(s: Seq<char>, c: char, from: int)
    requires
        0 <= from <= s.len(),
    ensures
        from <= next_char(s, c, from) <= s.len(),
        next_char(s, c, from) < s.len() ==> s[next_char(s, c, from)] == c,
        forall|j: int| from <= j < next_char(s, c, from) ==> s[j] != c,
    decreases s.len() - from,
{
    if from < s.len() && s[from] != c {
        lemma_next_char(s, c, from + 1);
    }
}

/// Index of the first character at or after `i` that is not `c`.
pub open spec fn skip_char(s: Seq<char>, c: char, i: int) -> int
    decreases s.len() - i,
{
    if 0 <= i < s.len() && s[i] == c {
        skip_char(s, c, i + 1)
    } else {
        i
    }
}

/// One past the index of the last character before `j` that is not `c`.
pub open spec fn skip_char_back(s: Seq<char>, c: char, j: int) -> int
    decreases j,
{
    if 0 < j <= s.len() && s[j - 1] == c {
        skip_char_back(s, c, j - 1)
    } else {
        j
    }
}

/// `s` without the characters `c` at its start and at its end.
pub open spec fn trim_char(s: Seq<char>, c: char) -> Seq<char> {
    let a = skip_char(s, c, 0);
    let b = skip_char_back(s, c, s.len() as int);
    if a < b {
        s.subrange(a, b)
    } else {
        Seq::empty()
    }
}

/// `s` without `prefix` at its start, however often it is repeated there.
pub open spec fn strip_prefixes(s: Seq<char>, prefix: Seq<char>) -> Seq<char>
    decreases s.len(),
{
    if prefix.len() > 0 && starts_with(s, prefix) {
        strip_prefixes(s.skip(prefix.len() as int), prefix)
    } else {
        s
    }
}

/// `s` without `suffix` at its end, however often it is repeated there.
pub open spec fn strip_suffixes(s: Seq<char>, suffix: Seq<char>) -> Seq<char>
    decreases s.len(),
{
    if suffix.len() > 0 && ends_with(s, suffix) {
        strip_suffixes(s.take(s.len() - suffix.len()), suffix)
    } else {
        s
    }
}

/// A line without the carriage return that may end it.
pub open spec fn strip_cr(line: Seq<char>) -> Seq<char> {
    if line.len() > 0 && line.last() == '\r' {
        line.drop_last()
    } else {
        line
    }
}

/// The line of `s` that starts at `from`: up to the next line feed,
/// without the carriage return before it. A last line that no line feed
/// ends keeps what it holds.
pub open spec fn line_at(s: Seq<char>, from: int) -> Seq<char> {
    let end = next_char(s, '\n', from);
    if end < s.len() {
        strip_cr(s.subrange(from, end))
    } else {
        s.subrange(from, end)
    }
}

/// A copy of `v[from..to]`.
pub fn slice(v: &Vec<char>, from: usize, to: usize) -> (r: Vec<char>)
    requires
        from <= to <= v@.len(),
    ensures
        r@ == v@.subrange(from as int, to as int),
{
    let mut r: Vec<char> = Vec::new();
    let mut i: usize = from;
    while i < to
        invariant
            from <= i <= to <= v@.len(),
            r@ == v@.subrange(from as int, i as int),
        decreases to - i,
    {
        r.push(v[i]);
        i = i + 1;
        assert(v@.subrange(from as int, i as int) == v@.subrange(from as int, i - 1).push(
            v@[i - 1],
        ));
    }
    r
}

/// Whether `needle` stands in `hay` at the index `i`.
pub fn is_at(hay: &Vec<char>, needle: &Vec<char>, i: usize) -> (r: bool)
    ensures
        r == occurs_at(hay@, needle@, i as int),
{
    if needle.len() > hay.len() || i > hay.len() - needle.len() {
        return false;
    }
    let mut k: usize = 0;
    while k < needle.len()
        invariant
            i + needle@.len() <= hay@.len() <= usize::MAX,
            k <= needle@.len(),
            forall|j: int| 0 <= j < k ==> hay@[i + j] == needle@[j],
        decreases needle@.len() - k,
    {
        if hay[i + k] != needle[k] {
            assert(hay@.subrange(i as int, i + needle@.len())[k as int] != needle@[k as int]);
            return false;
        }
        k = k + 1;
    }
    assert(hay@.subrange(i as int, i + needle@.len()) =~= needle@);
    true
}

/// Whether `s` begins with `prefix`.
pub fn begins(s: &Vec<char>, prefix: &Vec<char>) -> (r: bool)
    ensures
        r == starts_with(s@, prefix@),
{
    let r = is_at(s, prefix, 0);
    assert(s@.take(prefix@.len() as int) == s@.subrange(0, prefix@.len() as int));
    r
}

/// Index of the first occurrence of `needle` in `hay` at or after `from`.
pub fn find(hay: &Vec<char>, needle: &Vec<char>, from: usize) -> (r: Option<usize>)
    ensures
        match r {
            Some(i) => first_at(hay@, needle@, from as int) == Some(i as int),
            None => first_at(hay@, needle@, from as int) is None,
        },
{
    if needle.len() > hay.len() || from > hay.len() - needle.len() {
        return None;
    }
    let last: usize = hay.len() - needle.len();
    let mut i: usize = from;
    loop
        invariant
            from <= i <= last,
            last + needle@.len() == hay@.len(),
            first_at(hay@, needle@, from as int) == first_at(hay@, needle@, i as int),
        decreases last - i,
    {
        if is_at(hay, needle, i) {
            return Some(i);
        }
        if i == last {
            assert(first_at(hay@, needle@, i + 1) is None);
            return None;
        }
        i = i + 1;
    }
}

/// Whether `needle` occurs in `hay`.
pub fn has(hay: &str, needle: &str) -> (r: bool)
    ensures
        r == contains(hay@, needle@),
{
    let h = chars_of(hay);
    let n = chars_of(needle);
    find(&h, &n, 0).is_some()
}

/// Index of the first `c` in `s` at or after `from`, or the length of `s`.
pub fn seek(s: &Vec<char>, c: char, from: usize) -> (r: usize)
    requires
        from <= s@.len(),
    ensures
        r == next_char(s@, c, from as int),
        from <= r <= s@.len(),
{
    let mut i: usize = from;
    while i < s.len() && s[i] != c
        invariant
            from <= i <= s@.len(),
            next_char(s@, c, from as int) == next_char(s@, c, i as int),
        decreases s@.len() - i,
    {
        i = i + 1;
    }
    i
}

/// `s` without the characters `c` at its start and at its end.
pub fn trimmed_of(s: &Vec<char>, c: char) -> (r: Vec<char>)
    ensures
        r@ == trim_char(s@, c),
{
    let n: usize = s.len();
    let mut a: usize = 0;
    while a < n && s[a] == c
        invariant
            n == s@.len(),
            a <= n,
            skip_char(s@, c, 0) == skip_char(s@, c, a as int),
        decreases n - a,
    {
        a = a + 1;
    }
    let mut b: usize = n;
    while b > 0 && s[b - 1] == c
        invariant
            n == s@.len(),
            b <= n,
            skip_char_back(s@, c, n as int) == skip_char_back(s@, c, b as int),
        decreases b,
    {
        b = b - 1;
    }
    if a < b {
        slice(s, a, b)
    } else {
        Vec::new()
    }
}

/// `s` without `prefix` at its start, however often it is repeated there.
pub fn without_prefixes(s: &Vec<char>, prefix: &Vec<char>) -> (r: Vec<char>)
    ensures
        r@ == strip_prefixes(s@, prefix@),
{
    let mut a: usize = 0;
    let n: usize = s.len();
    if prefix.len() == 0 {
        let r = slice(s, 0, s.len());
        assert(r@ == s@);
        return r;
    }
    assert(s@.skip(0) == s@);
    while is_at(s, prefix, a)
        invariant
            a <= s@.len(),
            n == s@.len(),
            prefix@.len() > 0,
            strip_prefixes(s@, prefix@) == strip_prefixes(s@.skip(a as int), prefix@),
        decreases s@.len() - a,
    {
        proof {
            let rest = s@.skip(a as int);
            assert(rest.take(prefix@.len() as int) == s@.subrange(a as int, a + prefix@.len()));
            assert(rest.skip(prefix@.len() as int) == s@.skip(a + prefix@.len()));
        }
        assert(a + prefix@.len() <= s@.len());
        a = a + prefix.len();
    }
    proof {
        let rest = s@.skip(a as int);
        if prefix@.len() <= rest.len() {
            assert(rest.take(prefix@.len() as int) == s@.subrange(a as int, a + prefix@.len()));
        }
    }
    let r = slice(s, a, s.len());
    assert(r@ == s@.skip(a as int));
    r
}

/// `s` without `suffix` at its end, however often it is repeated there.
pub fn without_suffixes(s: &Vec<char>, suffix: &Vec<char>) -> (r: Vec<char>)
    ensures
        r@ == strip_suffixes(s@, suffix@),
{
    let mut b: usize = s.len();
    if suffix.len() == 0 {
        let r = slice(s, 0, s.len());
        assert(r@ == s@);
        return r;
    }
    assert(s@.take(b as int) == s@);
    while b >= suffix.len() && is_at(s, suffix, b - suffix.len())
        invariant
            b <= s@.len(),
            suffix@.len() > 0,
            strip_suffixes(s@, suffix@) == strip_suffixes(s@.take(b as int), suffix@),
        decreases b,
    {
        proof {
            let rest = s@.take(b as int);
            assert(rest.skip(rest.len() - suffix@.len()) == s@.subrange(
                b - suffix@.len(),
                b as int,
            ));
            assert(rest.take(rest.len() - suffix@.len()) == s@.take(b - suffix@.len()));
        }
        b = b - suffix.len();
    }
    proof {
        let rest = s@.take(b as int);
        if suffix@.len() <= rest.len() {
            assert(rest.skip(rest.len() - suffix@.len()) == s@.subrange(
                b - suffix@.len(),
                b as int,
            ));
        }
    }
    let r = slice(s, 0, b);
    assert(r@ == s@.take(b as int));
    r
}

/// The line of `s` that starts at `from`, and the index at which it ends:
/// that of its line feed, or the length of `s`.
pub fn read_line(s: &Vec<char>, from: usize) -> (r: (Vec<char>, usize))
    requires
        from <= s@.len(),
    ensures
        r.0@ == line_at(s@, from as int),
        r.1 == next_char(s@, '\n', from as int),
        from <= r.1 <= s@.len(),
{
    let end: usize = seek(s, '\n', from);
    let to: usize = if end < s.len() && end > from && s[end - 1] == '\r' {
        end - 1
    } else {
        end
    };
    let line = slice(s, from, to);
    proof {
        let raw = s@.subrange(from as int, end as int);
        if raw.len() > 0 {
            assert(raw.last() == s@[end - 1]);
            assert(raw.drop_last() =~= s@.subrange(from as int, end - 1));
        }
    }
    (line, end)
}

} // verus!
