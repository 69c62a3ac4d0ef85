//! Two small pieces of text handling: whole numbers in decimal, and trimming.

use vstd::prelude::*;

verus! {

/// The character for one decimal digit.
pub open spec fn digit(d: int) -> char {
    if d == 0 {
        '0'
    } else if d == 1 {
        '1'
    } else if d == 2 {
        '2'
    } else if d == 3 {
        '3'
    } else if d == 4 {
        '4'
    } else if d == 5 {
        '5'
    } else if d == 6 {
        '6'
    } else if d == 7 {
        '7'
    } else if d == 8 {
        '8'
    } else {
        '9'
    }
}

/// The decimal digits of a natural number, most significant first, without leading
/// zeros; zero is written "0".
pub open spec fn digits(n: nat) -> Seq<char>
    decreases n,
{
    if n < 10 {
        seq![digit(n as int)]
    } else {
        digits(n / 10).push(digit((n % 10) as int))
    }
}

/// A whole number in decimal, with a minus sign before a negative one.
pub open spec fn decimal(n: int) -> Seq<char> {
    if n < 0 {
        seq!['-'] + digits((-n) as nat)
    } else {
        digits(n as nat)
    }
}

/// One digit as text.
fn digit_text(d: u64) -> (text: &'static str)
    requires
        d < 10,
    ensures
        text@ == seq![digit(d as int)],
{
    proof {
        reveal_strlit("0");
        reveal_strlit("1");
        reveal_strlit("2");
        reveal_strlit("3");
        reveal_strlit("4");
        reveal_strlit("5");
        reveal_strlit("6");
        reveal_strlit("7");
        reveal_strlit("8");
        reveal_strlit("9");
    }
    if d == 0 {
        "0"
    } else if d == 1 {
        "1"
    } else if d == 2 {
        "2"
    } else if d == 3 {
        "3"
    } else if d == 4 {
        "4"
    } else if d == 5 {
        "5"
    } else if d == 6 {
        "6"
    } else if d == 7 {
        "7"
    } else if d == 8 {
        "8"
    } else {
        "9"
    }
}

/// Appends the decimal digits of `n` to `text`.
pub fn push_digits(text: &mut String, n: u64)
    ensures
        final(text)@ == old(text)@ + digits(n as nat),
    decreases n,
{
    if n >= 10 {
        push_digits(text, n / 10);
    }
    text.append(digit_text(n % 10));
}

/// Appends `n` in decimal to `text`.
pub fn push_decimal(text: &mut String, n: i64)
    ensures
        final(text)@ == old(text)@ + decimal(n as int),
{
    if n < 0 {
        text.append("-");
        let magnitude: u64 = ((-(n + 1)) as u64) + 1;
        push_digits(text, magnitude);
        proof {
            reveal_strlit("-");
        }
    } else {
        push_digits(text, n as u64);
    }
}

/// Whether a character has the Unicode property White_Space, as the standard library's
/// `char::is_whitespace` decides it.
pub uninterp spec fn is_white_space(c: char) -> bool;

/// `char::is_whitespace` of the standard library. It is documented to tell whether a
/// character has the Unicode property White_Space; the claim here is only that its
/// answer depends on the character alone, which gives that answer its name.
pub assume_specification[ char::is_whitespace ](c: char) -> (b: bool)
    ensures
        b == is_white_space(c),
;

/// Where a walk forward from `from` over white space stops: at the first character that
/// is none, or at the end of `s`.
pub open spec fn skip_leading(s: Seq<char>, from: int) -> int
    decreases s.len() - from,
{
    if 0 <= from < s.len() && is_white_space(s[from]) {
        skip_leading(s, from + 1)
    } else {
        from
    }
}

/// Where a walk backward from `to` over white space stops: behind the last character
/// that is none, or at `floor`, below which the walk does not go.
pub open spec fn skip_trailing(s: Seq<char>, floor: int, to: int) -> int
    decreases to,
{
    if 0 <= floor < to <= s.len() && is_white_space(s[to - 1]) {
        skip_trailing(s, floor, to - 1)
    } else {
        to
    }
}

/// `s` without the white space at its start and at its end.
pub open spec fn trimmed(s: Seq<char>) -> Seq<char> {
    let start = skip_leading(s, 0);
    s.subrange(start, skip_trailing(s, start, s.len() as int))
}

/// Walking forward over white space stays within `s`, passes white space only, and
/// stops at a character that is none unless `s` is used up.
proof fn lemma_skip_leading(s: Seq<char>, from: int)
    requires
        0 <= from <= s.len(),
    ensures
        from <= skip_leading(s, from) <= s.len(),
        forall|i: int| from <= i < skip_leading(s, from) ==> is_white_space(#[trigger] s[i]),
        skip_leading(s, from) < s.len() ==> !is_white_space(s[skip_leading(s, from)]),
    decreases s.len() - from,
{
    if from < s.len() && is_white_space(s[from]) {
        lemma_skip_leading(s, from + 1);
    }
}

/// Walking backward over white space stays above `floor`, passes white space only, and
/// stops behind a character that is none unless `floor` is reached.
proof fn lemma_skip_trailing(s: Seq<char>, floor: int, to: int)
    requires
        0 <= floor <= to <= s.len(),
    ensures
        floor <= skip_trailing(s, floor, to) <= to,
        forall|i: int| skip_trailing(s, floor, to) <= i < to ==> is_white_space(#[trigger] s[i]),
        floor < skip_trailing(s, floor, to) ==> !is_white_space(
            s[skip_trailing(s, floor, to) - 1],
        ),
    decreases to,
{
    if floor < to && is_white_space(s[to - 1]) {
        lemma_skip_trailing(s, floor, to - 1);
    }
}

/// Trimming takes away white space and nothing else, and leaves none at either end:
/// the trimmed text is a stretch of `s`, all that stands before and behind it is white
/// space, and unless it is empty its first and last characters are not.
pub proof fn lemma_trimmed(s: Seq<char>)
    ensures
        exists|start: int, end: int|
            {
                &&& 0 <= start <= end <= s.len()
                &&& #[trigger] s.subrange(start, end) == trimmed(s)
                &&& forall|i: int| 0 <= i < start ==> is_white_space(#[trigger] s[i])
                &&& forall|i: int| end <= i < s.len() ==> is_white_space(#[trigger] s[i])
                &&& start < end ==> !is_white_space(s[start]) && !is_white_space(s[end - 1])
            },
{
    let start = skip_leading(s, 0);
    let end = skip_trailing(s, start, s.len() as int);
    lemma_skip_leading(s, 0);
    lemma_skip_trailing(s, start, s.len() as int);
    assert(s.subrange(start, end) == trimmed(s));
}

/// Removes the white space at the start and at the end of `s`.
pub fn trim(s: &str) -> (kept: &str)
    ensures
        kept@ == trimmed(s@),
{
    let len = s.unicode_len();
    let mut start: usize = 0;
    while start < len && s.get_char(start).is_whitespace()
        invariant
            start <= len,
            len == s@.len(),
            skip_leading(s@, 0) == skip_leading(s@, start as int),
        decreases len - start,
    {
        start += 1;
    }
    let mut end: usize = len;
    while start < end && s.get_char(end - 1).is_whitespace()
        invariant
            start <= end <= len,
            len == s@.len(),
            skip_trailing(s@, start as int, len as int) == skip_trailing(
                s@,
                start as int,
                end as int,
            ),
        decreases end,
    {
        end -= 1;
    }
    s.substring_char(start, end)
}

} // verus!
