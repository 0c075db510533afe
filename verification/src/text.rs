//! Searching in text.

use vstd::prelude::*;

verus! {

/// `needle` stands in `hay` at position `at`.
pub open spec fn occurs_at(hay: Seq<char>, needle: Seq<char>, at: int) -> bool {
    0 <= at && at + needle.len() <= hay.len() && hay.subrange(at, at + needle.len()) == needle
}

/// `needle` stands somewhere in `hay`.
pub open spec fn has_substring(hay: Seq<char>, needle: Seq<char>) -> bool {
    exists|at: int| occurs_at(hay, needle, at)
}

/// Whether `needle` stands in `hay` at the position `at`.
fn matches_at(hay: &str, needle: &str, at: usize, m: usize) -> (yes: bool)
    requires
        m == needle@.len(),
        at + m <= hay@.len() <= usize::MAX,
    ensures
        yes == occurs_at(hay@, needle@, at as int),
{
    let mut j: usize = 0;
    while j < m
        invariant
            m == needle@.len(),
            at + m <= hay@.len() <= usize::MAX,
            j <= m,
            forall|k: int| 0 <= k < j ==> hay@[at + k] == needle@[k],
        decreases m - j,
    {
        if hay.get_char(at + j) != needle.get_char(j) {
            proof {
                assert(hay@.subrange(at as int, at + m)[j as int] == hay@[at + j]);
            }
            return false;
        }
        j = j + 1;
    }
    proof {
        assert(hay@.subrange(at as int, at + m) =~= needle@);
    }
    true
}

/// Whether `needle` stands somewhere in `hay`.
pub fn contains_text(hay: &str, needle: &str) -> (found: bool)
    ensures
        found == has_substring(hay@, needle@),
{
    let n = hay.unicode_len();
    let m = needle.unicode_len();
    if m > n {
        return false;
    }
    let last = n - m;
    let mut at: usize = 0;
    loop
        invariant
            n == hay@.len(),
            m == needle@.len(),
            m <= n,
            last == n - m,
            at <= last,
            forall|k: int| 0 <= k < at ==> !occurs_at(hay@, needle@, k),
        decreases last - at,
    {
        if matches_at(hay, needle, at, m) {
            return true;
        }
        if at == last {
            return false;
        }
        at = at + 1;
    }
}

/// Whether one of `items` is exactly `wanted`.
pub fn has_text(items: &Vec<String>, wanted: &str) -> (found: bool)
    ensures
        found == exists|i: int| 0 <= i < items@.len() && (#[trigger] items@[i])@ == wanted@,
{
    let want = wanted.to_owned();
    let mut i: usize = 0;
    while i < items.len()
        invariant
            want@ == wanted@,
            i <= items@.len(),
            forall|j: int| 0 <= j < i ==> (#[trigger] items@[j])@ != wanted@,
        decreases items@.len() - i,
    {
        if items[i] == want {
            return true;
        }
        i = i + 1;
    }
    false
}

/// The character is a decimal digit.
pub open spec fn is_digit(c: char) -> bool {
    '0' <= c && c <= '9'
}

/// Every character of `s` is a decimal digit.
pub open spec fn all_digits(s: Seq<char>) -> bool {
    forall|i: int| 0 <= i < s.len() ==> is_digit(#[trigger] s[i])
}

/// The number that the digits `s` write in base ten.
pub open spec fn decimal_value(s: Seq<char>) -> int
    decreases s.len(),
{
    if s.len() == 0 {
        0
    } else {
        decimal_value(s.drop_last()) * 10 + (s.last() as int - '0' as int)
    }
}

/// Position of the first colon of `s` at or after `from`, or the length of
/// `s` where there is none.
pub open spec fn colon_from(s: Seq<char>, from: int) -> int
    decreases s.len() - from,
{
    if from < 0 || from >= s.len() {
        s.len() as int
    } else if s[from] == ':' {
        from
    } else {
        colon_from(s, from + 1)
    }
}

/// The parts that the colons cut `s` into, from position `from` on. Text
/// without a colon is one part; a colon at the end leaves an empty last
/// part.
pub open spec fn fields_from(s: Seq<char>, from: int) -> Seq<Seq<char>>
    decreases s.len() - from,
{
    let at = colon_from(s, from);
    if from < 0 || from > s.len() {
        Seq::<Seq<char>>::empty()
    } else if at < from || at >= s.len() {
        seq![s.subrange(from, s.len() as int)]
    } else {
        seq![s.subrange(from, at)] + fields_from(s, at + 1)
    }
}

/// The number written by `field`: decimal digits, with or without a plus sign
/// in front, that make a number no greater than `max`.
pub open spec fn number_of_field(field: Seq<char>, max: int) -> Option<int> {
    let digits = if field.len() > 0 && field[0] == '+' {
        field.drop_first()
    } else {
        field
    };
    if digits.len() > 0 && all_digits(digits) && decimal_value(digits) <= max {
        Some(decimal_value(digits))
    } else {
        None
    }
}

/// Text is cut into at least one part.
pub proof fn lemma_fields_nonempty(s: Seq<char>, from: int)
    requires
        0 <= from <= s.len(),
    ensures
        fields_from(s, from).len() > 0,
{
}

/// Position of the first colon of `text` at or after `from`.
pub fn find_colon(text: &str, from: usize) -> (at: usize)
    requires
        from <= text@.len(),
    ensures
        at == colon_from(text@, from as int),
        from <= at <= text@.len(),
{
    let n = text.unicode_len();
    let mut i: usize = from;
    while i < n
        invariant
            n == text@.len(),
            from <= i <= n,
            colon_from(text@, from as int) == colon_from(text@, i as int),
        decreases n - i,
    {
        if text.get_char(i) == ':' {
            return i;
        }
        i = i + 1;
    }
    i
}

/// Where each part of `text` between its colons begins and ends.
pub fn split_fields(text: &str) -> (out: Vec<(usize, usize)>)
    ensures
        out@.len() == fields_from(text@, 0).len(),
        forall|i: int|
            0 <= i < out@.len() ==> {
                &&& (#[trigger] out@[i]).0 <= out@[i].1 <= text@.len()
                &&& text@.subrange(out@[i].0 as int, out@[i].1 as int) == fields_from(text@, 0)[i]
            },
{
    let n = text.unicode_len();
    let mut out: Vec<(usize, usize)> = Vec::new();
    let mut from: usize = 0;
    loop
        invariant
            n == text@.len(),
            from <= n,
            fields_from(text@, 0).len() == out@.len() + fields_from(text@, from as int).len(),
            forall|i: int|
                0 <= i < out@.len() ==> {
                    &&& (#[trigger] out@[i]).0 <= out@[i].1 <= text@.len()
                    &&& text@.subrange(out@[i].0 as int, out@[i].1 as int) == fields_from(
                        text@,
                        0,
                    )[i]
                },
            forall|i: int|
                0 <= i < fields_from(text@, from as int).len() ==> fields_from(text@, 0)[
                    out@.len() + i] == #[trigger] fields_from(text@, from as int)[i],
        decreases n - from,
    {
        let at = find_colon(text, from);
        let ghost rest = fields_from(text@, from as int);
        proof {
            assert(rest[0] == text@.subrange(from as int, at as int));
            assert(fields_from(text@, 0)[out@.len() as int] == rest[0]);
        }
        out.push((from, at));
        if at >= n {
            proof {
                assert(rest.len() == 1);
            }
            return out;
        }
        proof {
            let next = fields_from(text@, at + 1);
            assert(rest =~= seq![text@.subrange(from as int, at as int)] + next);
            assert forall|i: int| 0 <= i < next.len() implies fields_from(text@, 0)[out@.len() + i]
                == #[trigger] next[i] by {
                assert(rest[i + 1] == next[i]);
                assert(fields_from(text@, 0)[(out@.len() - 1) + (i + 1)] == rest[i + 1]);
            }
        }
        from = at + 1;
    }
}

/// Whether the characters of `text` from `from` up to `to` spell `word`.
pub fn range_is(text: &str, from: usize, to: usize, word: &str) -> (yes: bool)
    requires
        from <= to <= text@.len(),
    ensures
        yes == (text@.subrange(from as int, to as int) == word@),
{
    let m = word.unicode_len();
    let ghost part = text@.subrange(from as int, to as int);
    if to - from != m {
        proof {
            assert(part.len() == to - from);
        }
        return false;
    }
    let mut j: usize = 0;
    while j < m
        invariant
            m == word@.len(),
            from + m == to,
            to <= text@.len(),
            part == text@.subrange(from as int, to as int),
            j <= m,
            forall|k: int| 0 <= k < j ==> part[k] == word@[k],
        decreases m - j,
    {
        if text.get_char(from + j) != word.get_char(j) {
            proof {
                assert(part[j as int] == text@[from + j]);
            }
            return false;
        }
        proof {
            assert(part[j as int] == text@[from + j]);
        }
        j = j + 1;
    }
    proof {
        assert(part =~= word@);
    }
    true
}

/// Reads the characters of `text` from `from` up to `to` as a number no
/// greater than `max`.
pub fn parse_number(text: &str, from: usize, to: usize, max: u32) -> (out: Option<u32>)
    requires
        from <= to <= text@.len(),
    ensures
        match out {
            Some(n) => number_of_field(text@.subrange(from as int, to as int), max as int) == Some(
                n as int,
            ),
            None => number_of_field(text@.subrange(from as int, to as int), max as int) is None,
        },
{
    let ghost field = text@.subrange(from as int, to as int);
    let mut i: usize = from;
    if from < to && text.get_char(from) == '+' {
        i = from + 1;
    }
    let start = i;
    let ghost digits = text@.subrange(start as int, to as int);
    proof {
        if start > from {
            assert(field[0] == '+');
            assert(digits =~= field.drop_first());
        } else {
            assert(from < to ==> field[0] == text@[from as int]);
            assert(digits =~= field);
        }
    }
    if start == to {
        return None;
    }
    let mut value: u32 = 0;
    while i < to
        invariant
            start <= i <= to <= text@.len(),
            digits == text@.subrange(start as int, to as int),
            field == text@.subrange(from as int, to as int),
            digits == if field.len() > 0 && field[0] == '+' {
                field.drop_first()
            } else {
                field
            },
            all_digits(digits.take(i - start)),
            value == decimal_value(digits.take(i - start)),
            value <= max,
        decreases to - i,
    {
        let c = text.get_char(i);
        proof {
            assert(digits[i - start] == c);
            assert(digits.take(i - start + 1).drop_last() =~= digits.take(i - start));
            assert(digits.take(i - start + 1).last() == c);
        }
        if c < '0' || c > '9' {
            proof {
                assert(!is_digit(digits[i - start]));
            }
            return None;
        }
        let d: u32 = (c as u32) - 48;
        proof {
            let longer = digits.take(i - start + 1);
            assert(all_digits(longer)) by {
                assert forall|k: int| 0 <= k < longer.len() implies is_digit(
                    #[trigger] longer[k],
                ) by {
                    if k < i - start {
                        assert(longer[k] == digits.take(i - start)[k]);
                    }
                }
            }
            assert(decimal_value(longer) == value * 10 + d);
        }
        if d > max || value > (max - d) / 10 {
            proof {
                lemma_decimal_grows(digits, i - start + 1);
            }
            return None;
        }
        value = value * 10 + d;
        i = i + 1;
    }
    proof {
        assert(digits.take(to - start) =~= digits);
    }
    Some(value)
}

/// A run of digits writes a number no smaller than any of its beginnings
/// writes.
pub proof fn lemma_decimal_grows(digits: Seq<char>, upto: int)
    requires
        0 <= upto <= digits.len(),
        all_digits(digits.take(upto)),
    ensures
        all_digits(digits) ==> decimal_value(digits.take(upto)) <= decimal_value(digits),
        decimal_value(digits.take(upto)) >= 0,
    decreases digits.len() - upto,
{
    lemma_decimal_nonnegative(digits.take(upto));
    if upto < digits.len() {
        if all_digits(digits) {
            assert(digits.take(upto + 1).drop_last() =~= digits.take(upto));
            assert(digits.take(upto + 1).last() == digits[upto]);
            assert(all_digits(digits.take(upto + 1))) by {
                assert forall|i: int| 0 <= i < upto + 1 implies is_digit(
                    #[trigger] digits.take(upto + 1)[i],
                ) by {
                    assert(digits.take(upto + 1)[i] == digits[i]);
                }
            }
            lemma_decimal_grows(digits, upto + 1);
        }
    } else {
        assert(digits.take(upto) =~= digits);
    }
}

/// A run of digits writes no negative number.
pub proof fn lemma_decimal_nonnegative(digits: Seq<char>)
    requires
        all_digits(digits),
    ensures
        decimal_value(digits) >= 0,
    decreases digits.len(),
{
    if digits.len() > 0 {
        assert(all_digits(digits.drop_last())) by {
            assert forall|i: int| 0 <= i < digits.len() - 1 implies is_digit(
                #[trigger] digits.drop_last()[i],
            ) by {
                assert(digits.drop_last()[i] == digits[i]);
            }
        }
        lemma_decimal_nonnegative(digits.drop_last());
        assert(is_digit(digits[digits.len() - 1]));
    }
}

} // verus!
