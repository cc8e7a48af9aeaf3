//! Recognition of non-negative decimal numbers written in digits.

use vstd::prelude::*;

verus! {

/// Whether `c` is one of the ten decimal digits.
pub open spec fn is_digit(c: char) -> bool {
    '0' <= c && c <= '9'
}

/// Whether every character of `s` is a digit.
pub open spec fn all_digits(s: Seq<char>) -> bool {
    forall|i: int| 0 <= i < s.len() ==> is_digit(#[trigger] s[i])
}

/// A decimal without sign: digits alone, at least one; or digits with one
/// decimal point before, among or after them, at least one digit.
pub open spec fn is_plain_decimal(m: Seq<char>) -> bool {
    ||| m.len() > 0 && all_digits(m)
    ||| exists|p: int|
        0 <= p < m.len() && m.len() > 1 && #[trigger] m[p] == '.' && all_digits(m.take(p))
            && all_digits(m.skip(p + 1))
}

/// `s` without its leading plus sign, if it has one.
pub open spec fn without_plus(s: Seq<char>) -> Seq<char> {
    if s.len() > 0 && s[0] == '+' {
        s.skip(1)
    } else {
        s
    }
}

/// Whether `s` writes a non-negative decimal number: an optional plus sign,
/// then digits with at most one decimal point and at least one digit. There
/// is no minus sign, no exponent, no blank, and no word such as `inf` or
/// `nan`.
pub open spec fn is_non_negative_decimal(s: Seq<char>) -> bool {
    is_plain_decimal(without_plus(s))
}

/// The index at which the run of digits that starts at `from` ends: the
/// first index at or after `from` that holds no digit.
pub open spec fn digits_end(s: Seq<char>, from: int) -> int
    decreases s.len() - from,
{
    if 0 <= from < s.len() && is_digit(s[from]) {
        digits_end(s, from + 1)
    } else {
        from
    }
}

/// Whether `s` reads as a decimal without sign when scanned from the left:
/// a run of digits, then a point with a second run of digits if a point
/// follows, at least one digit in both runs together, and then the end of
/// the text.
pub open spec fn scans_as_plain_decimal(s: Seq<char>) -> bool {
    let whole_end = digits_end(s, 0);
    let has_point = whole_end < s.len() && s[whole_end] == '.';
    let end = if has_point {
        digits_end(s, whole_end + 1)
    } else {
        whole_end
    };
    let digit_count = if has_point {
        end - 1
    } else {
        end
    };
    digit_count > 0 && end == s.len()
}

/// A run of digits holds digits only and ends at the end of the text or
/// before a character that is no digit.
pub proof fn lemma_digits_run(s: Seq<char>, from: int)
    requires
        0 <= from <= s.len(),
    ensures
        from <= digits_end(s, from) <= s.len(),
        forall|i: int| from <= i < digits_end(s, from) ==> is_digit(#[trigger] s[i]),
        digits_end(s, from) < s.len() ==> !is_digit(s[digits_end(s, from)]),
    decreases s.len() - from,
{
    if from < s.len() && is_digit(s[from]) {
        lemma_digits_run(s, from + 1);
    }
}

/// A run of digits that starts among digits ends where the run ends that
/// starts after them.
pub proof fn lemma_digits_reach(s: Seq<char>, from: int, to: int)
    requires
        0 <= from <= to <= s.len(),
        forall|i: int| from <= i < to ==> is_digit(#[trigger] s[i]),
    ensures
        digits_end(s, from) == digits_end(s, to),
    decreases to - from,
{
    if from < to {
        lemma_digits_reach(s, from + 1, to);
    }
}

/// A run of digits ends at the same place in a text and in what is left of
/// the text after some leading characters are cut off.
pub proof fn lemma_digits_end_skip(s: Seq<char>, cut: int, from: int)
    requires
        0 <= cut <= from <= s.len(),
    ensures
        digits_end(s.skip(cut), from - cut) == digits_end(s, from) - cut,
    decreases s.len() - from,
{
    if from < s.len() && is_digit(s[from]) {
        lemma_digits_end_skip(s, cut, from + 1);
    }
}

/// Scanning recognises exactly the decimals without sign.
pub proof fn lemma_plain_decimal_scan(s: Seq<char>)
    ensures
        scans_as_plain_decimal(s) == is_plain_decimal(s),
{
    let whole_end = digits_end(s, 0);
    lemma_digits_run(s, 0);
    let has_point = whole_end < s.len() && s[whole_end] == '.';
    let end = if has_point {
        digits_end(s, whole_end + 1)
    } else {
        whole_end
    };
    if has_point {
        lemma_digits_run(s, whole_end + 1);
    }
    if scans_as_plain_decimal(s) {
        if has_point {
            assert(all_digits(s.take(whole_end)));
            assert forall|i: int| 0 <= i < s.skip(whole_end + 1).len() implies is_digit(
                #[trigger] s.skip(whole_end + 1)[i],
            ) by {
                assert(s.skip(whole_end + 1)[i] == s[whole_end + 1 + i]);
            }
            assert(s[whole_end] == '.');
        } else {
            assert(all_digits(s));
        }
    }
    if is_plain_decimal(s) {
        let n = s.len() as int;
        if s.len() > 0 && all_digits(s) {
            lemma_digits_reach(s, 0, n);
            lemma_digits_run(s, n);
            assert(whole_end == n);
        } else {
            let p = choose|p: int|
                0 <= p < s.len() && s.len() > 1 && #[trigger] s[p] == '.' && all_digits(
                    s.take(p),
                ) && all_digits(s.skip(p + 1));
            assert forall|i: int| 0 <= i < p implies is_digit(#[trigger] s[i]) by {
                assert(s[i] == s.take(p)[i]);
            }
            lemma_digits_reach(s, 0, p);
            lemma_digits_run(s, p);
            assert(whole_end == p);
            assert forall|i: int| p + 1 <= i < n implies is_digit(#[trigger] s[i]) by {
                assert(s[i] == s.skip(p + 1)[i - p - 1]);
            }
            lemma_digits_reach(s, p + 1, n);
            lemma_digits_run(s, n);
            assert(end == n);
        }
    }
}

/// A non-negative decimal holds no minus sign and no letter: each of its
/// characters is a digit, a decimal point, or the plus sign at its start.
pub proof fn lemma_non_negative_decimal_characters(s: Seq<char>)
    requires
        is_non_negative_decimal(s),
    ensures
        s.len() > 0,
        forall|i: int|
            0 <= i < s.len() ==> is_digit(#[trigger] s[i]) || s[i] == '.' || (i == 0 && s[i]
                == '+'),
        exists|i: int| 0 <= i < s.len() && is_digit(s[i]),
{
    let m = without_plus(s);
    let shift: int = if s.len() > 0 && s[0] == '+' {
        1
    } else {
        0
    };
    assert forall|j: int| 0 <= j < m.len() implies m[j] == s[j + shift] by {}
    if m.len() > 0 && all_digits(m) {
        assert forall|i: int| 0 <= i < s.len() implies is_digit(#[trigger] s[i]) || s[i] == '.'
            || (i == 0 && s[i] == '+') by {
            if i >= shift {
                assert(m[i - shift] == s[i]);
            }
        }
        assert(is_digit(m[0]));
        assert(is_digit(s[shift]));
    } else {
        let p = choose|p: int|
            0 <= p < m.len() && m.len() > 1 && #[trigger] m[p] == '.' && all_digits(m.take(p))
                && all_digits(m.skip(p + 1));
        assert forall|i: int| 0 <= i < s.len() implies is_digit(#[trigger] s[i]) || s[i] == '.'
            || (i == 0 && s[i] == '+') by {
            if i >= shift {
                let j = i - shift;
                if j < p {
                    assert(m.take(p)[j] == m[j]);
                } else if j > p {
                    assert(m.skip(p + 1)[j - p - 1] == m[j]);
                }
            }
        }
        if p > 0 {
            assert(m.take(p)[0] == m[0]);
            assert(is_digit(s[shift]));
        } else {
            assert(m.skip(p + 1)[0] == m[1]);
            assert(is_digit(s[shift + 1]));
        }
    }
}

/// Whether `c` is a decimal digit.
pub fn digit(c: char) -> (r: bool)
    ensures
        r == is_digit(c),
{
    '0' <= c && c <= '9'
}

/// The end of the run of digits that starts at `from`.
pub fn skip_digits(s: &Vec<char>, from: usize) -> (end: usize)
    requires
        from <= s.len(),
    ensures
        end == digits_end(s@, from as int),
        from <= end <= s.len(),
{
    let mut end: usize = from;
    while end < s.len() && digit(s[end])
        invariant
            from <= end <= s.len(),
            digits_end(s@, from as int) == digits_end(s@, end as int),
        decreases s.len() - end,
    {
        end += 1;
    }
    end
}

/// Whether the characters of `s` from `start` on are a decimal without sign.
pub fn plain_decimal_at(s: &Vec<char>, start: usize) -> (r: bool)
    requires
        start <= s.len(),
    ensures
        r == is_plain_decimal(s@.skip(start as int)),
{
    proof {
        lemma_plain_decimal_scan(s@.skip(start as int));
    }
    let n = s.len();
    let ghost u = s@.skip(start as int);
    let whole_end = skip_digits(s, start);
    proof {
        lemma_digits_end_skip(s@, start as int, start as int);
        assert(digits_end(u, 0) == whole_end - start);
    }
    let has_point = whole_end < n && s[whole_end] == '.';
    proof {
        if whole_end < n {
            assert(u[whole_end - start] == s@[whole_end as int]);
        }
    }
    let end: usize = if has_point {
        let end = skip_digits(s, whole_end + 1);
        proof {
            lemma_digits_end_skip(s@, start as int, whole_end + 1);
        }
        end
    } else {
        whole_end
    };
    let digit_count: usize = if has_point {
        end - start - 1
    } else {
        end - start
    };
    digit_count > 0 && end == n
}

/// Whether `s` writes a non-negative decimal number.
pub fn non_negative_decimal(s: &Vec<char>) -> (r: bool)
    ensures
        r == is_non_negative_decimal(s@),
{
    let start: usize = if s.len() > 0 && s[0] == '+' {
        1
    } else {
        0
    };
    assert(without_plus(s@) =~= s@.skip(start as int));
    plain_decimal_at(s, start)
}

} // verus!
