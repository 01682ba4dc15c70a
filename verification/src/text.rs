//! Character-level helpers for the text that a response body holds, and the
//! scan for a declared character set.

use vstd::prelude::*;
use vstd::std_specs::iter::IteratorSpec;

verus! {

/// Whether `c` has the Unicode property White_Space.
pub open spec fn is_space(c: char) -> bool {
    let n = c as u32;
    ||| 0x09 <= n <= 0x0D
    ||| n == 0x20
    ||| n == 0x85
    ||| n == 0xA0
    ||| n == 0x1680
    ||| 0x2000 <= n <= 0x200A
    ||| n == 0x2028
    ||| n == 0x2029
    ||| n == 0x202F
    ||| n == 0x205F
    ||| n == 0x3000
}

/// Number of white-space characters at the start of `s`.
pub open spec fn leading_spaces(s: Seq<char>) -> nat
    decreases s.len(),
{
    if s.len() > 0 && is_space(s[0]) {
        1 + leading_spaces(s.drop_first())
    } else {
        0
    }
}

/// Number of white-space characters at the end of `s`.
pub open spec fn trailing_spaces(s: Seq<char>) -> nat
    decreases s.len(),
{
    if s.len() > 0 && is_space(s.last()) {
        1 + trailing_spaces(s.drop_last())
    } else {
        0
    }
}

/// `s` without its leading white space.
pub open spec fn trim_start(s: Seq<char>) -> Seq<char> {
    s.skip(leading_spaces(s) as int)
}

/// `s` without its trailing white space.
pub open spec fn trim_end(s: Seq<char>) -> Seq<char> {
    s.take(s.len() - trailing_spaces(s))
}

/// `s` without leading and trailing white space.
pub open spec fn trim(s: Seq<char>) -> Seq<char> {
    trim_end(trim_start(s))
}

/// Length of the longest prefix of `s` that holds neither `x` nor `y`.
pub open spec fn span(s: Seq<char>, x: char, y: char) -> nat
    decreases s.len(),
{
    if s.len() == 0 || s[0] == x || s[0] == y {
        0
    } else {
        1 + span(s.drop_first(), x, y)
    }
}

/// Whether `s` begins with `p`.
pub open spec fn starts_with(s: Seq<char>, p: Seq<char>) -> bool {
    p.len() <= s.len() && s.take(p.len() as int) == p
}

/// The lower-case form of an ASCII upper-case letter; any other character unchanged.
pub open spec fn ascii_lower_char(c: char) -> char {
    if 'A' <= c <= 'Z' {
        ((c as u8) + 32) as char
    } else {
        c
    }
}

/// `s` with every ASCII upper-case letter replaced by its lower-case form.
pub open spec fn ascii_lower(s: Seq<char>) -> Seq<char> {
    Seq::new(s.len(), |i: int| ascii_lower_char(s[i]))
}

/// A run of `n` white-space characters at the start of `s` that ends with
/// `s` or before a character that is none is all the leading white space.
pub proof fn lemma_leading_spaces(s: Seq<char>, n: int)
    requires
        0 <= n <= s.len(),
        forall|i: int| 0 <= i < n ==> is_space(#[trigger] s[i]),
        n == s.len() || !is_space(s[n]),
    ensures
        leading_spaces(s) == n,
    decreases s.len(),
{
    if n > 0 {
        let rest = s.drop_first();
        lemma_leading_spaces(rest, n - 1);
    }
}

/// A run of `n` white-space characters at the end of `s` that begins with
/// `s` or after a character that is none is all the trailing white space.
pub proof fn lemma_trailing_spaces(s: Seq<char>, n: int)
    requires
        0 <= n <= s.len(),
        forall|i: int| s.len() - n <= i < s.len() ==> is_space(#[trigger] s[i]),
        n == s.len() || !is_space(s[s.len() - n - 1]),
    ensures
        trailing_spaces(s) == n,
    decreases s.len(),
{
    if n > 0 {
        let rest = s.drop_last();
        lemma_trailing_spaces(rest, n - 1);
    }
}

/// A prefix of `n` characters that are neither `x` nor `y`, which ends with
/// `s` or before an `x` or a `y`, is the longest such prefix.
pub proof fn lemma_span(s: Seq<char>, x: char, y: char, n: int)
    requires
        0 <= n <= s.len(),
        forall|i: int| 0 <= i < n ==> #[trigger] s[i] != x && s[i] != y,
        n == s.len() || s[n] == x || s[n] == y,
    ensures
        span(s, x, y) == n,
    decreases s.len(),
{
    if n > 0 {
        let rest = s.drop_first();
        lemma_span(rest, x, y, n - 1);
    }
}

/// The characters of a string, in order.
pub fn chars_of(s: &str) -> (v: Vec<char>)
    ensures
        v@ == s@,
{
    broadcast use vstd::string::group_string_axioms;

    let mut it = s.chars();
    let mut v: Vec<char> = Vec::new();
    loop
        invariant
            v@ + it.remaining() == s@,
            it.decrease() is Some,
        ensures
            v@ == s@,
        decreases it.decrease()->0,
    {
        match it.next() {
            Some(c) => {
                v.push(c);
            },
            None => {
                break ;
            },
        }
    }
    v
}

/// Whether `c` is white space.
pub fn is_space_char(c: char) -> (b: bool)
    ensures
        b == is_space(c),
{
    let n: u32 = c as u32;
    (0x09 <= n && n <= 0x0D) || n == 0x20 || n == 0x85 || n == 0xA0 || n == 0x1680 || (0x2000 <= n
        && n <= 0x200A) || n == 0x2028 || n == 0x2029 || n == 0x202F || n == 0x205F || n == 0x3000
}

/// The lower-case form of `c` where it is an ASCII upper-case letter.
pub fn lower_char(c: char) -> (r: char)
    ensures
        r == ascii_lower_char(c),
{
    if 'A' <= c && c <= 'Z' {
        ((c as u8) + 32) as char
    } else {
        c
    }
}

/// End of the longest run from `from` that stays below `to` and holds
/// neither `x` nor `y`.
pub fn span_from(text: &Vec<char>, from: usize, to: usize, x: char, y: char) -> (end: usize)
    requires
        from <= to <= text.len(),
    ensures
        from <= end <= to,
        end - from == span(text@.subrange(from as int, to as int), x, y),
{
    let mut end: usize = from;
    while end < to && text[end] != x && text[end] != y
        invariant
            from <= end <= to <= text.len(),
            forall|i: int| from <= i < end ==> #[trigger] text@[i] != x && text@[i] != y,
        decreases to - end,
    {
        end += 1;
    }
    proof {
        lemma_span(text@.subrange(from as int, to as int), x, y, end - from);
    }
    end
}

/// First position from `from` that is `to` or holds no white space.
pub fn skip_spaces(text: &Vec<char>, from: usize, to: usize) -> (start: usize)
    requires
        from <= to <= text.len(),
    ensures
        from <= start <= to,
        start - from == leading_spaces(text@.subrange(from as int, to as int)),
{
    let mut start: usize = from;
    while start < to && is_space_char(text[start])
        invariant
            from <= start <= to <= text.len(),
            forall|i: int| from <= i < start ==> is_space(#[trigger] text@[i]),
        decreases to - start,
    {
        start += 1;
    }
    proof {
        lemma_leading_spaces(text@.subrange(from as int, to as int), start - from);
    }
    start
}

/// Last position down from `to` that is `from` or follows a character that
/// is no white space.
pub fn drop_spaces(text: &Vec<char>, from: usize, to: usize) -> (end: usize)
    requires
        from <= to <= text.len(),
    ensures
        from <= end <= to,
        to - end == trailing_spaces(text@.subrange(from as int, to as int)),
{
    let mut end: usize = to;
    while end > from && is_space_char(text[end - 1])
        invariant
            from <= end <= to <= text.len(),
            forall|i: int| end <= i < to ==> is_space(#[trigger] text@[i]),
        decreases end - from,
    {
        end -= 1;
    }
    proof {
        lemma_trailing_spaces(text@.subrange(from as int, to as int), to - end);
    }
    end
}

/// Whether the characters from `from` up to `to` begin with `pattern`.
pub fn begins_with(text: &Vec<char>, from: usize, to: usize, pattern: &Vec<char>) -> (b: bool)
    requires
        from <= to <= text.len(),
    ensures
        b == starts_with(text@.subrange(from as int, to as int), pattern@),
{
    let ghost s = text@.subrange(from as int, to as int);
    if pattern.len() > to - from {
        return false;
    }
    let mut i: usize = 0;
    while i < pattern.len()
        invariant
            0 <= i <= pattern.len() <= to - from,
            from <= to <= text.len(),
            s == text@.subrange(from as int, to as int),
            forall|j: int| 0 <= j < i ==> #[trigger] s[j] == pattern@[j],
        decreases pattern.len() - i,
    {
        if text[from + i] != pattern[i] {
            return false;
        }
        i += 1;
    }
    assert(s.take(pattern.len() as int) =~= pattern@);
    true
}

/// The characters from `from` up to `to`, ASCII letters in lower case.
pub fn lowered(text: &Vec<char>, from: usize, to: usize) -> (r: Vec<char>)
    requires
        from <= to <= text.len(),
    ensures
        r@ == ascii_lower(text@.subrange(from as int, to as int)),
{
    let mut r: Vec<char> = Vec::new();
    let mut i: usize = from;
    while i < to
        invariant
            from <= i <= to <= text.len(),
            r@ == ascii_lower(text@.subrange(from as int, i as int)),
        decreases to - i,
    {
        r.push(lower_char(text[i]));
        i += 1;
    }
    r
}

} // verus!
