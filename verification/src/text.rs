//! Character sequences: the helpers that the other modules share.

use vstd::prelude::*;
use vstd::string::*;

verus! {

/// No character of `s` is a line feed.
pub open spec fn is_line_text(s: Seq<char>) -> bool {
    forall|i: int| 0 <= i < s.len() ==> s[i] != '\n'
}

/// The characters of `s`, one by one.
pub fn to_chars(s: &str) -> (v: Vec<char>)
    ensures
        v@ == s@,
{
    let mut v: Vec<char> = Vec::new();
    for c in it: s.chars()
        invariant
            v@ == it.seq().take(it.index() as int),
            it.seq() == s@,
    {
        v.push(c);
    }
    v
}

/// Whether the characters of `v` from `lo` up to `hi` spell `word`.
pub fn chars_eq_str(v: &Vec<char>, lo: usize, hi: usize, word: &str) -> (b: bool)
    requires
        lo <= hi <= v.len(),
    ensures
        b == (v@.subrange(lo as int, hi as int) == word@),
{
    let n = word.unicode_len();
    if hi - lo != n {
        return false;
    }
    let mut i: usize = 0;
    while i < n
        invariant
            0 <= i <= n,
            n == word@.len(),
            hi - lo == n,
            lo <= hi <= v.len(),
            forall|j: int| 0 <= j < i ==> v@[lo + j] == word@[j],
        decreases n - i,
    {
        if v[lo + i] != word.get_char(i) {
            assert(v@.subrange(lo as int, hi as int)[i as int] != word@[i as int]);
            return false;
        }
        i = i + 1;
    }
    assert(v@.subrange(lo as int, hi as int) =~= word@);
    true
}

/// Whether two strings hold the same characters.
pub fn str_eq(a: &str, b: &str) -> (r: bool)
    ensures
        r == (a@ == b@),
{
    let va = to_chars(a);
    assert(va@.subrange(0, va.len() as int) =~= va@);
    chars_eq_str(&va, 0, va.len(), b)
}

/// The first place at or after `from` and before `to` where `s` holds `c`;
/// `to` where there is none.
pub open spec fn find_in(s: Seq<char>, from: int, to: int, c: char) -> int
    decreases to - from,
{
    if from >= to {
        to
    } else if s[from] == c {
        from
    } else {
        find_in(s, from + 1, to, c)
    }
}

/// The pieces into which the separator `sep` cuts the characters of `s`
/// from `from` up to `to`: one more than it occurs there.
pub open spec fn split_range(s: Seq<char>, from: int, to: int, sep: char) -> Seq<Seq<char>>
    decreases to - from,
{
    let end = find_in(s, from, to, sep);
    if from <= end < to {
        seq![s.subrange(from, end)] + split_range(s, end + 1, to, sep)
    } else {
        seq![s.subrange(from, to)]
    }
}

/// The pieces into which the separator `sep` cuts `s`.
pub open spec fn split(s: Seq<char>, sep: char) -> Seq<Seq<char>> {
    split_range(s, 0, s.len() as int, sep)
}

/// `find_in` returns `r` where `r` is the first place that holds `c`.
pub proof fn lemma_find_in_is(s: Seq<char>, from: int, to: int, c: char, r: int)
    requires
        from <= r <= to,
        forall|j: int| from <= j < r ==> s[j] != c,
        r < to ==> s[r] == c,
    ensures
        find_in(s, from, to, c) == r,
    decreases r - from,
{
    if from < r {
        lemma_find_in_is(s, from + 1, to, c, r);
    }
}

/// Where a piece free of `sep` stands at `from` and `sep` follows it,
/// the piece is the first that `split_range` cuts off.
pub proof fn lemma_split_step(s: Seq<char>, from: int, to: int, sep: char, piece: Seq<char>)
    requires
        0 <= from,
        from + piece.len() < to <= s.len(),
        s.subrange(from, from + piece.len()) == piece,
        forall|j: int| 0 <= j < piece.len() ==> piece[j] != sep,
        s[from + piece.len()] == sep,
    ensures
        split_range(s, from, to, sep) == seq![piece] + split_range(
            s,
            from + piece.len() + 1,
            to,
            sep,
        ),
{
    let end = from + piece.len();
    assert forall|j: int| from <= j < end implies s[j] != sep by {
        assert(s[j] == piece[j - from]);
    }
    lemma_find_in_is(s, from, to, sep, end);
}

/// The first place at or after `from` and before `to` where `v` holds `c`;
/// `to` where there is none.
pub fn find_char(v: &Vec<char>, from: usize, to: usize, c: char) -> (r: usize)
    requires
        from <= to <= v.len(),
    ensures
        r == find_in(v@, from as int, to as int, c),
        from <= r <= to,
        r < to ==> v@[r as int] == c,
        forall|j: int| from <= j < r ==> v@[j] != c,
{
    let mut i: usize = from;
    while i < to && v[i] != c
        invariant
            from <= i <= to <= v.len(),
            forall|j: int| from <= j < i ==> v@[j] != c,
        decreases to - i,
    {
        i = i + 1;
    }
    proof {
        lemma_find_in_is(v@, from as int, to as int, c, i as int);
    }
    i
}

} // verus!
