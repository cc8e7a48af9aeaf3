//! Character-level text primitives: splitting on a separator, line
//! splitting, literal comparison and substring search.

use vstd::prelude::*;

verus! {

/// The pieces of `s` between occurrences of `sep`, in order. There is always
/// at least one piece; a trailing separator closes a final empty piece.
pub open spec fn split_seq(s: Seq<char>, sep: char) -> Seq<Seq<char>>
    decreases s.len(),
{
    if s.len() == 0 {
        seq![Seq::<char>::empty()]
    } else {
        let before = split_seq(s.drop_last(), sep);
        if s.last() == sep {
            before.push(Seq::<char>::empty())
        } else {
            before.drop_last().push(before.last().push(s.last()))
        }
    }
}

/// A split never yields an empty list of pieces.
pub proof fn lemma_split_nonempty(s: Seq<char>, sep: char)
    ensures
        split_seq(s, sep).len() >= 1,
    decreases s.len(),
{
    if s.len() > 0 {
        lemma_split_nonempty(s.drop_last(), sep);
    }
}

/// The pieces written one after the other with `sep` between each two.
pub open spec fn join_seq(parts: Seq<Seq<char>>, sep: char) -> Seq<char>
    decreases parts.len(),
{
    if parts.len() == 0 {
        Seq::empty()
    } else if parts.len() == 1 {
        parts[0]
    } else {
        join_seq(parts.drop_last(), sep).push(sep) + parts.last()
    }
}

/// Splitting loses nothing: the pieces joined by the separator are the text.
pub proof fn lemma_split_joins(s: Seq<char>, sep: char)
    ensures
        join_seq(split_seq(s, sep), sep) == s,
    decreases s.len(),
{
    if s.len() > 0 {
        let t = s.drop_last();
        let before = split_seq(t, sep);
        lemma_split_joins(t, sep);
        lemma_split_nonempty(t, sep);
        assert(t.push(s.last()) =~= s);
        if s.last() == sep {
            let parts = before.push(Seq::<char>::empty());
            assert(parts.drop_last() =~= before);
            assert(join_seq(parts, sep) =~= s);
        } else {
            let parts = before.drop_last().push(before.last().push(s.last()));
            if before.len() == 1 {
                assert(join_seq(parts, sep) =~= s);
            } else {
                assert(parts.drop_last() =~= before.drop_last());
                assert(join_seq(parts, sep) =~= join_seq(before, sep).push(s.last()));
            }
        }
    } else {
        assert(join_seq(split_seq(s, sep), sep) =~= s);
    }
}

/// No piece of a split holds the separator.
pub proof fn lemma_split_pieces_clean(s: Seq<char>, sep: char)
    ensures
        forall|i: int, j: int|
            0 <= i < split_seq(s, sep).len() && 0 <= j < split_seq(s, sep)[i].len()
                ==> split_seq(s, sep)[i][j] != sep,
    decreases s.len(),
{
    if s.len() > 0 {
        lemma_split_pieces_clean(s.drop_last(), sep);
        lemma_split_nonempty(s.drop_last(), sep);
    }
}

/// `line` without one trailing carriage return, if it has one.
pub open spec fn strip_cr(line: Seq<char>) -> Seq<char> {
    if line.len() > 0 && line.last() == '\r' {
        line.drop_last()
    } else {
        line
    }
}

/// The lines of `s`. A line ends at a line feed; a carriage return directly
/// before that line feed belongs to the line ending. Text after the last line
/// feed is a line of its own unless it is empty.
pub open spec fn lines_seq(s: Seq<char>) -> Seq<Seq<char>> {
    let raw = split_seq(s, '\n');
    let closed = raw.drop_last().map_values(|line: Seq<char>| strip_cr(line));
    if raw.last().len() == 0 {
        closed
    } else {
        closed.push(raw.last())
    }
}

/// The character sequences held by a list of character vectors.
pub open spec fn texts(rows: Seq<Vec<char>>) -> Seq<Seq<char>> {
    rows.map_values(|row: Vec<char>| row@)
}

/// The characters of `s`, in order.
pub fn chars_of(s: &str) -> (chars: Vec<char>)
    ensures
        chars@ == s@,
{
    let mut chars: Vec<char> = Vec::new();
    for c in it: s.chars()
        invariant
            it.seq() == s@,
            chars@ == it.seq().take(it.index()),
    {
        chars.push(c);
    }
    chars
}

/// Builds a `String` from characters with `String::from_iter`: the string
/// holds exactly the given characters, in order.
#[verifier::external_body]
pub(crate) fn string_of(chars: &Vec<char>) -> (s: String)
    ensures
        s@ == chars@,
{
    String::from_iter(chars.iter())
}

/// A copy of the characters of `s` from index `from` up to, not including, `to`.
pub fn copy_range(s: &Vec<char>, from: usize, to: usize) -> (r: Vec<char>)
    requires
        from <= to <= s.len(),
    ensures
        r@ == s@.subrange(from as int, to as int),
{
    let mut r: Vec<char> = Vec::new();
    let mut i: usize = from;
    while i < to
        invariant
            from <= i <= to <= s.len(),
            r@ == s@.subrange(from as int, i as int),
        decreases to - i,
    {
        r.push(s[i]);
        i += 1;
    }
    r
}

/// Splits `s` on every occurrence of `sep`.
pub fn split_chars(s: &Vec<char>, sep: char) -> (parts: Vec<Vec<char>>)
    ensures
        texts(parts@) == split_seq(s@, sep),
{
    let mut parts: Vec<Vec<char>> = Vec::new();
    let mut piece: Vec<char> = Vec::new();
    let mut i: usize = 0;
    while i < s.len()
        invariant
            i <= s.len(),
            texts(parts@).push(piece@) == split_seq(s@.take(i as int), sep),
        decreases s.len() - i,
    {
        let c = s[i];
        proof {
            assert(s@.take(i + 1).drop_last() == s@.take(i as int));
            assert(s@.take(i + 1).last() == c);
        }
        if c == sep {
            let ghost before = texts(parts@);
            let ghost closed = piece@;
            parts.push(piece);
            piece = Vec::new();
            proof {
                assert(texts(parts@) =~= before.push(closed));
                assert(texts(parts@).push(piece@).drop_last() =~= texts(parts@));
            }
        } else {
            let ghost old_piece = piece@;
            piece.push(c);
            proof {
                assert(texts(parts@).push(old_piece).drop_last() =~= texts(parts@));
            }
        }
        i += 1;
    }
    proof {
        assert(s@.take(s.len() as int) == s@);
    }
    let ghost before = texts(parts@);
    let ghost closed = piece@;
    parts.push(piece);
    proof {
        assert(texts(parts@) =~= before.push(closed));
    }
    parts
}

/// Splits `s` into lines.
pub fn lines_of(s: &Vec<char>) -> (lines: Vec<Vec<char>>)
    ensures
        texts(lines@) == lines_seq(s@),
{
    let mut raw = split_chars(s, '\n');
    proof {
        lemma_split_nonempty(s@, '\n');
    }
    let ghost all = texts(raw@);
    let rest = raw.pop().unwrap();
    assert(texts(raw@) =~= all.drop_last());
    assert(rest@ == all.last());
    let mut lines: Vec<Vec<char>> = Vec::new();
    let mut i: usize = 0;
    while i < raw.len()
        invariant
            i <= raw.len(),
            texts(lines@) == texts(raw@).take(i as int).map_values(
                |line: Seq<char>| strip_cr(line),
            ),
        decreases raw.len() - i,
    {
        let line = &raw[i];
        let n = line.len();
        let keep: usize = if n > 0 && line[n - 1] == '\r' {
            n - 1
        } else {
            n
        };
        let kept = copy_range(line, 0, keep);
        assert(kept@ =~= strip_cr(line@));
        let ghost before = texts(lines@);
        lines.push(kept);
        assert(texts(lines@) =~= before.push(strip_cr(line@)));
        assert(texts(raw@).take(i + 1).map_values(|line: Seq<char>| strip_cr(line))
            =~= texts(raw@).take(i as int).map_values(|line: Seq<char>| strip_cr(line)).push(
            strip_cr(line@),
        ));
        i += 1;
    }
    assert(texts(raw@).take(raw.len() as int) =~= texts(raw@));
    if rest.len() > 0 {
        let ghost before = texts(lines@);
        lines.push(rest);
        assert(texts(lines@) =~= before.push(all.last()));
    }
    lines
}

/// Whether `text` holds exactly the characters of `literal`.
pub fn text_is(text: &Vec<char>, literal: &str) -> (same: bool)
    ensures
        same == (text@ == literal@),
{
    let mut same = true;
    let mut i: usize = 0;
    for c in it: literal.chars()
        invariant
            it.seq() == literal@,
            same ==> i == it.index() && i <= text.len() && text@.take(i as int)
                == literal@.take(i as int),
            !same ==> text@ != literal@,
    {
        if same {
            if i < text.len() && text[i] == c {
                assert(text@.take(i + 1) =~= text@.take(i as int).push(text@[i as int]));
                assert(literal@.take(i + 1) =~= literal@.take(i as int).push(c));
                i += 1;
            } else {
                same = false;
            }
        }
    }
    if same && i == text.len() {
        assert(text@.take(i as int) =~= text@);
        assert(literal@.take(i as int) =~= literal@);
        true
    } else {
        false
    }
}

/// Whether `pattern` stands in `text` at index `at`.
pub open spec fn occurs_at(text: Seq<char>, pattern: Seq<char>, at: int) -> bool {
    0 <= at && at + pattern.len() <= text.len() && text.subrange(at, at + pattern.len())
        == pattern
}

/// Whether `pattern` occurs somewhere in `text` as a contiguous run.
pub open spec fn contains_seq(text: Seq<char>, pattern: Seq<char>) -> bool {
    exists|at: int| occurs_at(text, pattern, at)
}

/// Whether `pattern` stands in `text` at index `at`.
pub fn matches_at(text: &Vec<char>, pattern: &Vec<char>, at: usize) -> (found: bool)
    ensures
        found == occurs_at(text@, pattern@, at as int),
{
    if pattern.len() > text.len() || at > text.len() - pattern.len() {
        return false;
    }
    let mut j: usize = 0;
    while j < pattern.len()
        invariant
            j <= pattern.len(),
            at + pattern.len() <= text.len(),
            text@.subrange(at as int, at + j) == pattern@.take(j as int),
        decreases pattern.len() - j,
    {
        if text[at + j] != pattern[j] {
            assert(text@.subrange(at as int, at + pattern.len())[j as int] != pattern@[j as int]);
            return false;
        }
        assert(text@.subrange(at as int, at + j + 1) =~= text@.subrange(at as int, at + j).push(
            text@[at + j],
        ));
        assert(pattern@.take(j + 1) =~= pattern@.take(j as int).push(pattern@[j as int]));
        j += 1;
    }
    assert(pattern@.take(pattern.len() as int) =~= pattern@);
    true
}

/// Whether `pattern` occurs somewhere in `text`.
pub fn contains_text(text: &Vec<char>, pattern: &str) -> (found: bool)
    ensures
        found == contains_seq(text@, pattern@),
{
    let pat = chars_of(pattern);
    if pat.len() > text.len() {
        return false;
    }
    let last: usize = text.len() - pat.len();
    let mut at: usize = 0;
    while at < last
        invariant
            pat@ == pattern@,
            last == text.len() - pat.len(),
            at <= last,
            forall|k: int| 0 <= k < at ==> !occurs_at(text@, pat@, k),
        decreases last - at,
    {
        if matches_at(text, &pat, at) {
            return true;
        }
        at += 1;
    }
    matches_at(text, &pat, last)
}

/// The upper-case form of a text, as `str::to_uppercase` gives it.
pub uninterp spec fn uppercase_of(text: Seq<char>) -> Seq<char>;

/// Calls `str::to_uppercase`. The result is the upper-case form of the
/// argument; it depends on the argument's characters alone.
#[verifier::external_body]
pub(crate) fn to_uppercase(text: &str) -> (upper: String)
    ensures
        upper@ == uppercase_of(text@),
{
    text.to_uppercase()
}

/// The upper-case form of `text`.
pub fn uppercase(text: &Vec<char>) -> (upper: Vec<char>)
    ensures
        upper@ == uppercase_of(text@),
{
    let s = string_of(text);
    let u = to_uppercase(s.as_str());
    chars_of(u.as_str())
}

/// A copy of an optional text.
pub fn clone_text(text: &Option<String>) -> (copy: Option<String>)
    ensures
        copy.deep_view() == text.deep_view(),
{
    match text {
        Some(t) => Some(t.clone()),
        None => None,
    }
}

} // verus!
