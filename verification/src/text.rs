//! Character-level helpers shared by the parsers and builders of the crate.

use vstd::prelude::*;

verus! {

/// `String::push` appends one character at the end of the string.
pub assume_specification[ String::push ](s: &mut String, ch: char)
    ensures
        final(s)@ == old(s)@.push(ch),
;

/// The characters of `s`, in order.
pub fn chars_of(s: &str) -> (v: Vec<char>)
    ensures
        v@ == s@,
{
    let mut v: Vec<char> = Vec::new();
    for c in it: s.chars()
        invariant
            v@ == it.seq().take(it.index() as int),
            it.seq() == s@,
    {
        v.push(c);
    }
    v
}

/// A copy of an optional string.
pub fn clone_opt(o: &Option<String>) -> (r: Option<String>)
    ensures
        r == *o,
{
    match o {
        Some(s) => Some(s.clone()),
        None => None,
    }
}

/// The lines of `s` as `str::lines` yields them, when `cur` holds the
/// characters already read of the current line: lines end at `\n`, a `\r`
/// just before a `\n` is dropped, and no empty line follows a final `\n`.
pub open spec fn lines_from(s: Seq<char>, cur: Seq<char>) -> Seq<Seq<char>>
    decreases s.len(),
{
    if s.len() == 0 {
        if cur.len() == 0 {
            Seq::empty()
        } else {
            seq![cur]
        }
    } else if s[0] == '\n' {
        seq![strip_cr(cur)] + lines_from(s.drop_first(), Seq::empty())
    } else {
        lines_from(s.drop_first(), cur.push(s[0]))
    }
}

/// `line` without one trailing `\r`.
pub open spec fn strip_cr(line: Seq<char>) -> Seq<char> {
    if line.len() > 0 && line.last() == '\r' {
        line.drop_last()
    } else {
        line
    }
}

/// The lines of `s`, as `str::lines` yields them.
pub open spec fn text_lines(s: Seq<char>) -> Seq<Seq<char>> {
    lines_from(s, Seq::empty())
}

/// The pieces of `s` between occurrences of `sep`, as `str::split` yields
/// them, when `cur` holds the characters already read of the current piece.
pub open spec fn pieces_from(s: Seq<char>, sep: char, cur: Seq<char>) -> Seq<Seq<char>>
    decreases s.len(),
{
    if s.len() == 0 {
        seq![cur]
    } else if s[0] == sep {
        seq![cur] + pieces_from(s.drop_first(), sep, Seq::empty())
    } else {
        pieces_from(s.drop_first(), sep, cur.push(s[0]))
    }
}

/// The pieces of `s` between occurrences of `sep`, as `str::split` yields
/// them (an empty string gives one empty piece).
pub open spec fn split_on(s: Seq<char>, sep: char) -> Seq<Seq<char>> {
    pieces_from(s, sep, Seq::empty())
}

/// The first position at or after `i` where `s` holds `c`, or the length of
/// `s` when there is none.
pub open spec fn index_of_from(s: Seq<char>, c: char, i: int) -> int
    decreases s.len() - i,
{
    if i < 0 || i >= s.len() {
        s.len() as int
    } else if s[i] == c {
        i
    } else {
        index_of_from(s, c, i + 1)
    }
}

/// The first piece of `s` when split on `sep`.
pub open spec fn first_field(s: Seq<char>, sep: char) -> Seq<char> {
    s.subrange(0, index_of_from(s, sep, 0))
}

/// The second piece of `s` when split on `sep`, if `s` holds `sep`.
pub open spec fn second_field(s: Seq<char>, sep: char) -> Option<Seq<char>> {
    let j = index_of_from(s, sep, 0);
    if j == s.len() {
        None
    } else {
        Some(s.subrange(j + 1, index_of_from(s, sep, j + 1)))
    }
}

/// The views of a vector of character vectors.
pub open spec fn views_of(v: Seq<Vec<char>>) -> Seq<Seq<char>> {
    v.map_values(|x: Vec<char>| x@)
}

proof fn lemma_index_of_from_bounds(s: Seq<char>, c: char, i: int)
    requires
        0 <= i <= s.len(),
    ensures
        i <= index_of_from(s, c, i) <= s.len(),
        index_of_from(s, c, i) < s.len() ==> s[index_of_from(s, c, i)] == c,
        forall|k: int| i <= k < index_of_from(s, c, i) ==> s[k] != c,
    decreases s.len() - i,
{
    if i < s.len() && s[i] != c {
        lemma_index_of_from_bounds(s, c, i + 1);
    }
}

/// The first position at or after `i` where `v` holds `c`, or its length.
pub fn find_char_from(v: &Vec<char>, c: char, i: usize) -> (r: usize)
    requires
        i <= v.len(),
    ensures
        r == index_of_from(v@, c, i as int),
        i <= r <= v.len(),
{
    proof { lemma_index_of_from_bounds(v@, c, i as int); }
    let mut k: usize = i;
    while k < v.len()
        invariant
            i <= k <= v.len(),
            index_of_from(v@, c, i as int) == index_of_from(v@, c, k as int),
        decreases v.len() - k,
    {
        if v[k] == c {
            return k;
        }
        k = k + 1;
    }
    k
}

/// The string made of the characters of `v` from `a` up to `b`.
pub fn string_of_range(v: &Vec<char>, a: usize, b: usize) -> (s: String)
    requires
        a <= b <= v.len(),
    ensures
        s@ == v@.subrange(a as int, b as int),
{
    let mut s = String::new();
    let mut i: usize = a;
    while i < b
        invariant
            a <= i <= b <= v.len(),
            s@ == v@.subrange(a as int, i as int),
        decreases b - i,
    {
        s.push(v[i]);
        assert(v@.subrange(a as int, i + 1) == v@.subrange(a as int, i as int).push(v@[i as int]));
        i = i + 1;
    }
    s
}

/// The lines of the characters `v` (see [`text_lines`]).
pub fn lines_of(v: &Vec<char>) -> (out: Vec<Vec<char>>)
    ensures
        views_of(out@) == text_lines(v@),
{
    let mut out: Vec<Vec<char>> = Vec::new();
    let mut cur: Vec<char> = Vec::new();
    let mut i: usize = 0;
    assert(v@.skip(0) == v@);
    while i < v.len()
        invariant
            i <= v.len(),
            text_lines(v@) == views_of(out@) + lines_from(v@.skip(i as int), cur@),
        decreases v.len() - i,
    {
        let c = v[i];
        let ghost rest = v@.skip(i as int);
        assert(rest[0] == c);
        assert(rest.drop_first() == v@.skip(i + 1));
        if c == '\n' {
            let mut line = cur;
            if line.len() > 0 && line[line.len() - 1] == '\r' {
                line.pop();
            }
            proof {
                assert(line@ == strip_cr(cur@));
            }
            let ghost before = views_of(out@);
            out.push(line);
            assert(views_of(out@) == before.push(strip_cr(cur@)));
            assert(before.push(strip_cr(cur@)) + lines_from(v@.skip(i + 1), Seq::empty())
                == before + (seq![strip_cr(cur@)] + lines_from(v@.skip(i + 1), Seq::empty())));
            cur = Vec::new();
        } else {
            cur.push(c);
        }
        i = i + 1;
    }
    assert(v@.skip(i as int) == Seq::<char>::empty());
    if cur.len() > 0 {
        let ghost before = views_of(out@);
        let ghost last = cur@;
        out.push(cur);
        assert(views_of(out@) == before.push(last));
        assert(before.push(last) == before + seq![last]);
    } else {
        assert(views_of(out@) + Seq::<Seq<char>>::empty() == views_of(out@));
    }
    out
}

/// The pieces of the characters `v` between occurrences of `sep` (see
/// [`split_on`]).
pub fn split_of(v: &Vec<char>, sep: char) -> (out: Vec<Vec<char>>)
    ensures
        views_of(out@) == split_on(v@, sep),
{
    let mut out: Vec<Vec<char>> = Vec::new();
    let mut cur: Vec<char> = Vec::new();
    let mut i: usize = 0;
    assert(v@.skip(0) == v@);
    while i < v.len()
        invariant
            i <= v.len(),
            split_on(v@, sep) == views_of(out@) + pieces_from(v@.skip(i as int), sep, cur@),
        decreases v.len() - i,
    {
        let c = v[i];
        let ghost rest = v@.skip(i as int);
        assert(rest[0] == c);
        assert(rest.drop_first() == v@.skip(i + 1));
        if c == sep {
            let ghost before = views_of(out@);
            let ghost piece = cur@;
            out.push(cur);
            assert(views_of(out@) == before.push(piece));
            assert(before.push(piece) + pieces_from(v@.skip(i + 1), sep, Seq::empty())
                == before + (seq![piece] + pieces_from(v@.skip(i + 1), sep, Seq::empty())));
            cur = Vec::new();
        } else {
            cur.push(c);
        }
        i = i + 1;
    }
    assert(v@.skip(i as int) == Seq::<char>::empty());
    let ghost before = views_of(out@);
    let ghost last = cur@;
    out.push(cur);
    assert(views_of(out@) == before.push(last));
    assert(before.push(last) == before + seq![last]);
    out
}

/// `s` with every occurrence of `c` removed.
pub open spec fn without_char(s: Seq<char>, c: char) -> Seq<char>
    decreases s.len(),
{
    if s.len() == 0 {
        Seq::empty()
    } else {
        let rest = without_char(s.drop_last(), c);
        if s.last() == c {
            rest
        } else {
            rest.push(s.last())
        }
    }
}

/// The string made of the characters of `v` from `a` up to `b`, leaving
/// out every `c`.
pub fn string_of_range_without(v: &Vec<char>, a: usize, b: usize, c: char) -> (s: String)
    requires
        a <= b <= v.len(),
    ensures
        s@ == without_char(v@.subrange(a as int, b as int), c),
{
    let mut s = String::new();
    let mut i: usize = a;
    while i < b
        invariant
            a <= i <= b <= v.len(),
            s@ == without_char(v@.subrange(a as int, i as int), c),
        decreases b - i,
    {
        assert(v@.subrange(a as int, i + 1).drop_last() == v@.subrange(a as int, i as int));
        if v[i] != c {
            s.push(v[i]);
        }
        i = i + 1;
    }
    s
}

} // verus!
