//! Character-level helpers shared by the routing, naming and logging code.

use vstd::prelude::*;

verus! {

/// The characters of `s`, in order.
pub fn chars_of(s: &str) -> (v: Vec<char>)
    ensures
        v@ == s@,
{
    let mut v: Vec<char> = Vec::new();
    let it = s.chars();
    for c in iter: it
        invariant
            v@ == iter.seq().take(iter.index()),
    {
        v.push(c);
    }
    v
}

/// First position of `sep` in `s`, or the length of `s` where it has none.
pub open spec fn find(s: Seq<char>, sep: char) -> int
    decreases s.len(),
{
    if s.len() == 0 {
        0
    } else if s[0] == sep {
        0
    } else {
        1 + find(s.skip(1), sep)
    }
}

/// The pieces of `s` between occurrences of `sep`. A string without `sep`
/// is one piece; every occurrence of `sep` starts a new, possibly empty, piece.
pub open spec fn split(s: Seq<char>, sep: char) -> Seq<Seq<char>>
    decreases s.len(),
{
    let i = find(s, sep);
    if 0 <= i < s.len() {
        seq![s.take(i)] + split(s.skip(i + 1), sep)
    } else {
        seq![s]
    }
}

/// `find` is bounded by the length and stops at the first separator.
pub proof fn lemma_find_bounds(s: Seq<char>, sep: char)
    ensures
        0 <= find(s, sep) <= s.len(),
        find(s, sep) < s.len() ==> s[find(s, sep)] == sep,
        forall|j: int| 0 <= j < find(s, sep) ==> s[j] != sep,
    decreases s.len(),
{
    if s.len() != 0 && s[0] != sep {
        lemma_find_bounds(s.skip(1), sep);
        assert forall|j: int| 0 <= j < find(s, sep) implies s[j] != sep by {
            if j > 0 {
                assert(s.skip(1)[j - 1] == s[j]);
            }
        }
    }
}

/// A position before which no separator stands, and which holds one or is
/// the end, is what `find` returns.
pub proof fn lemma_find_is(s: Seq<char>, sep: char, i: int)
    requires
        0 <= i <= s.len(),
        forall|j: int| 0 <= j < i ==> s[j] != sep,
        i < s.len() ==> s[i] == sep,
    ensures
        find(s, sep) == i,
{
    lemma_find_bounds(s, sep);
}

/// Splitting the rest of `s` from `start`, where the next separator is at `i`.
pub proof fn lemma_split_step(s: Seq<char>, sep: char, start: int, i: int)
    requires
        0 <= start <= i < s.len(),
        forall|j: int| start <= j < i ==> s[j] != sep,
        s[i] == sep,
    ensures
        split(s.skip(start), sep) == seq![s.subrange(start, i)] + split(s.skip(i + 1), sep),
{
    let rest = s.skip(start);
    lemma_find_is(rest, sep, i - start);
    assert(rest.take(i - start) == s.subrange(start, i));
    assert(rest.skip(i - start + 1) == s.skip(i + 1));
}

/// Splitting the rest of `s` from `start`, where no separator follows.
pub proof fn lemma_split_last(s: Seq<char>, sep: char, start: int)
    requires
        0 <= start <= s.len(),
        forall|j: int| start <= j < s.len() ==> s[j] != sep,
    ensures
        split(s.skip(start), sep) == seq![s.subrange(start, s.len() as int)],
{
    let rest = s.skip(start);
    lemma_find_is(rest, sep, rest.len() as int);
}

/// Every string splits into at least one piece.
pub proof fn lemma_split_nonempty(s: Seq<char>, sep: char)
    ensures
        split(s, sep).len() >= 1,
    decreases s.len(),
{
    lemma_find_bounds(s, sep);
    let i = find(s, sep);
    if 0 <= i < s.len() {
        lemma_split_nonempty(s.skip(i + 1), sep);
    }
}

/// A separator at the end adds one empty piece and changes no other.
pub proof fn lemma_split_push_sep(s: Seq<char>, sep: char)
    ensures
        split(s.push(sep), sep) == split(s, sep).push(Seq::<char>::empty()),
    decreases s.len(),
{
    lemma_find_bounds(s, sep);
    let i = find(s, sep);
    let t = s.push(sep);
    if 0 <= i < s.len() {
        lemma_find_is(t, sep, i);
        assert(t.take(i) == s.take(i));
        assert(t.skip(i + 1) == s.skip(i + 1).push(sep));
        lemma_split_push_sep(s.skip(i + 1), sep);
    } else {
        lemma_find_is(t, sep, s.len() as int);
        assert(t.take(s.len() as int) == s);
        assert(t.skip(s.len() as int + 1) == Seq::<char>::empty());
        assert(split(Seq::<char>::empty(), sep) == seq![Seq::<char>::empty()]);
    }
}

/// The bounds of the pieces of `split(s, sep)`, as seen through `s`.
pub open spec fn ranges_of(s: Seq<char>, ranges: Seq<(usize, usize)>) -> Seq<Seq<char>> {
    Seq::new(ranges.len(), |k: int| s.subrange(ranges[k].0 as int, ranges[k].1 as int))
}

/// The half-open ranges of the pieces of `s` between occurrences of `sep`.
pub fn split_ranges(s: &Vec<char>, sep: char) -> (ranges: Vec<(usize, usize)>)
    ensures
        ranges_of(s@, ranges@) == split(s@, sep),
        forall|k: int|
            0 <= k < ranges.len() ==> (#[trigger] ranges@[k]).0 <= ranges@[k].1 <= s.len(),
{
    let mut ranges: Vec<(usize, usize)> = Vec::new();
    let mut start: usize = 0;
    let mut i: usize = 0;
    let n = s.len();
    assert(s@.skip(0) == s@);
    while i < n
        invariant
            n == s.len(),
            0 <= start <= i <= n,
            forall|j: int| start <= j < i ==> s@[j] != sep,
            forall|k: int|
            0 <= k < ranges.len() ==> (#[trigger] ranges@[k]).0 <= ranges@[k].1 <= s.len(),
            split(s@, sep) == ranges_of(s@, ranges@) + split(s@.skip(start as int), sep),
        decreases n - i,
    {
        if s[i] == sep {
            proof {
                lemma_split_step(s@, sep, start as int, i as int);
                assert(ranges_of(s@, ranges@.push((start, i))) == ranges_of(s@, ranges@)
                    + seq![s@.subrange(start as int, i as int)]);
            }
            ranges.push((start, i));
            start = i + 1;
        }
        i = i + 1;
    }
    proof {
        lemma_split_last(s@, sep, start as int);
        assert(ranges_of(s@, ranges@.push((start, n))) == ranges_of(s@, ranges@)
            + seq![s@.subrange(start as int, n as int)]);
    }
    ranges.push((start, n));
    ranges
}

/// Whether `s` begins with `prefix`.
pub fn starts_with(s: &Vec<char>, prefix: &Vec<char>) -> (r: bool)
    ensures
        r == prefix@.is_prefix_of(s@),
{
    if prefix.len() > s.len() {
        return false;
    }
    let mut i: usize = 0;
    while i < prefix.len()
        invariant
            0 <= i <= prefix.len() <= s.len(),
            forall|j: int| 0 <= j < i ==> s@[j] == prefix@[j],
        decreases prefix.len() - i,
    {
        if s[i] != prefix[i] {
            return false;
        }
        i = i + 1;
    }
    true
}

/// Whether the characters of `s` from `from` to `to` spell `word`.
pub fn range_is(s: &Vec<char>, from: usize, to: usize, word: &Vec<char>) -> (r: bool)
    requires
        from <= to <= s.len(),
    ensures
        r == (s@.subrange(from as int, to as int) == word@),
{
    if to - from != word.len() {
        return false;
    }
    let mut i: usize = 0;
    while i < word.len()
        invariant
            from <= to <= s.len(),
            to - from == word.len(),
            0 <= i <= word.len(),
            forall|j: int| 0 <= j < i ==> s@[from + j] == word@[j],
        decreases word.len() - i,
    {
        if s[from + i] != word[i] {
            return false;
        }
        i = i + 1;
    }
    assert(s@.subrange(from as int, to as int) == word@);
    true
}

} // verus!
