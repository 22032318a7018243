//! Operations on character sequences that the identity model and the
//! account formatting share.

use vstd::prelude::*;

verus! {

/// Whether `prefix` is the beginning of `s`.
pub open spec fn starts_with(s: Seq<char>, prefix: Seq<char>) -> bool {
    prefix.len() <= s.len() && s.subrange(0, prefix.len() as int) == prefix
}

/// The position of the first `sep` in `s` at or after `from`, or the length
/// of `s` where there is none (`from` itself where it lies past the end).
pub open spec fn next_sep(s: Seq<char>, sep: char, from: int) -> int
    decreases s.len() - from,
{
    if from >= s.len() || s[from] == sep {
        from
    } else {
        next_sep(s, sep, from + 1)
    }
}

/// The position just behind the last `sep` among the first `upto` characters
/// of `s`, or 0 where there is none.
pub open spec fn after_last_sep(s: Seq<char>, sep: char, upto: int) -> int
    decreases upto,
{
    if upto <= 0 {
        0
    } else if s[upto - 1] == sep {
        upto
    } else {
        after_last_sep(s, sep, upto - 1)
    }
}

/// The part of `s` behind its last `sep`: all of `s` where it holds none.
pub open spec fn last_segment(s: Seq<char>, sep: char) -> Seq<char> {
    s.subrange(after_last_sep(s, sep, s.len() as int), s.len() as int)
}

/// The part of `s` from `from` up to the next `sep`, or to the end.
pub open spec fn segment_from(s: Seq<char>, sep: char, from: int) -> Seq<char> {
    s.subrange(from, next_sep(s, sep, from))
}

/// `next_sep` stays within the sequence, stops on a separator or at the end,
/// and passes over no separator.
pub proof fn lemma_next_sep(s: Seq<char>, sep: char, from: int)
    requires
        0 <= from <= s.len(),
    ensures
        from <= next_sep(s, sep, from) <= s.len(),
        next_sep(s, sep, from) < s.len() ==> s[next_sep(s, sep, from)] == sep,
        forall|i: int| from <= i < next_sep(s, sep, from) ==> s[i] != sep,
    decreases s.len() - from,
{
    if from < s.len() && s[from] != sep {
        lemma_next_sep(s, sep, from + 1);
    }
}

/// `after_last_sep` stays within the prefix, stands behind a separator or at
/// the start, and no separator follows it.
pub proof fn lemma_after_last_sep(s: Seq<char>, sep: char, upto: int)
    requires
        0 <= upto <= s.len(),
    ensures
        0 <= after_last_sep(s, sep, upto) <= upto,
        after_last_sep(s, sep, upto) > 0 ==> s[after_last_sep(s, sep, upto) - 1] == sep,
        forall|i: int| after_last_sep(s, sep, upto) <= i < upto ==> s[i] != sep,
    decreases upto,
{
    if upto > 0 && s[upto - 1] != sep {
        lemma_after_last_sep(s, sep, upto - 1);
    }
}

/// The characters of `s`, in order.
pub fn chars_of(s: &str) -> (out: Vec<char>)
    ensures
        out@ == s@,
{
    let mut out: Vec<char> = Vec::new();
    for c in it: s.chars()
        invariant
            it.seq() == s@,
            out@ == s@.subrange(0, it.index() as int),
    {
        out.push(c);
    }
    out
}

/// Tests whether `chars` begins with `prefix`.
pub fn begins_with(chars: &Vec<char>, prefix: &Vec<char>) -> (found: bool)
    ensures
        found == starts_with(chars@, prefix@),
{
    if prefix.len() > chars.len() {
        return false;
    }
    let mut i: usize = 0;
    while i < prefix.len()
        invariant
            i <= prefix.len() <= chars.len(),
            chars@.subrange(0, i as int) == prefix@.subrange(0, i as int),
        decreases prefix.len() - i,
    {
        if chars[i] != prefix[i] {
            assert(chars@.subrange(0, prefix.len() as int)[i as int] != prefix@[i as int]);
            return false;
        }
        assert(chars@.subrange(0, i + 1) == chars@.subrange(0, i as int).push(chars@[i as int]));
        assert(prefix@.subrange(0, i + 1) == prefix@.subrange(0, i as int).push(prefix@[i as int]));
        i += 1;
    }
    assert(prefix@.subrange(0, prefix.len() as int) == prefix@);
    true
}

/// Tests whether `s` begins with `prefix`.
pub fn has_prefix(s: &str, prefix: &str) -> (found: bool)
    ensures
        found == starts_with(s@, prefix@),
{
    let chars = chars_of(s);
    let wanted = chars_of(prefix);
    begins_with(&chars, &wanted)
}

/// Finds the first `sep` in `chars` at or after `from`.
pub fn find_next_sep(chars: &Vec<char>, sep: char, from: usize) -> (at: usize)
    requires
        from <= chars.len(),
    ensures
        at == next_sep(chars@, sep, from as int),
        from <= at <= chars.len(),
{
    let mut i: usize = from;
    while i < chars.len() && chars[i] != sep
        invariant
            from <= i <= chars.len(),
            next_sep(chars@, sep, from as int) == next_sep(chars@, sep, i as int),
        decreases chars.len() - i,
    {
        i += 1;
    }
    i
}

/// Finds the position just behind the last `sep` in `chars`.
pub fn find_after_last_sep(chars: &Vec<char>, sep: char) -> (at: usize)
    ensures
        at == after_last_sep(chars@, sep, chars.len() as int),
        at <= chars.len(),
{
    let mut i: usize = chars.len();
    while i > 0 && chars[i - 1] != sep
        invariant
            i <= chars.len(),
            after_last_sep(chars@, sep, chars.len() as int) == after_last_sep(
                chars@,
                sep,
                i as int,
            ),
        decreases i,
    {
        i -= 1;
    }
    i
}

} // verus!
